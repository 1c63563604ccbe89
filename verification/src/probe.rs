//! The external version probe: the shape of a finished command invocation and
//! the rules that turn its raw outcome into a version reading.
//!
//! The probe asks an external command for the most recent change's date and
//! short identifier. Running the command is I/O and is delegated to a
//! [`CommandRunner`]; everything that happens to the outcome afterwards — the
//! non-success sentinel, UTF-8 decoding, trimming — is defined and verified
//! here.

use vstd::prelude::*;

use crate::errors::VersionError;

verus! {

/// The characters that trimming strips from either end of a reading.
pub open spec fn is_space_char(c: char) -> bool {
    c == ' ' || c == '\t' || c == '\n' || c == '\r'
}

/// The sequence with its leading space characters removed.
pub open spec fn trim_start_spec(s: Seq<char>) -> Seq<char>
    decreases s.len(),
{
    if s.len() > 0 && is_space_char(s[0]) {
        trim_start_spec(s.subrange(1, s.len() as int))
    } else {
        s
    }
}

/// The sequence with its trailing space characters removed.
pub open spec fn trim_end_spec(s: Seq<char>) -> Seq<char>
    decreases s.len(),
{
    if s.len() > 0 && is_space_char(s[s.len() - 1]) {
        trim_end_spec(s.subrange(0, s.len() - 1))
    } else {
        s
    }
}

/// The sequence with leading and trailing space characters removed.
pub open spec fn trim_spec(s: Seq<char>) -> Seq<char> {
    trim_end_spec(trim_start_spec(s))
}

proof fn lemma_trim_start_on_prefix(s: Seq<char>, lo: int)
    requires
        0 <= lo <= s.len(),
        forall|k: int| 0 <= k < lo ==> is_space_char(s[k]),
        lo < s.len() ==> !is_space_char(s[lo]),
    ensures
        trim_start_spec(s) == s.subrange(lo, s.len() as int),
    decreases lo,
{
    if lo == 0 {
        assert(trim_start_spec(s) == s.subrange(0, s.len() as int)) by {
            if s.len() > 0 && is_space_char(s[0]) {
                assert(!is_space_char(s[lo]));
            }
            assert(s.subrange(0, s.len() as int) =~= s);
        }
    } else {
        let t = s.subrange(1, s.len() as int);
        assert(forall|k: int| 0 <= k < lo - 1 ==> is_space_char(#[trigger] t[k]));
        lemma_trim_start_on_prefix(t, lo - 1);
        assert(t.subrange(lo - 1, t.len() as int) =~= s.subrange(lo, s.len() as int));
    }
}

proof fn lemma_trim_end_on_suffix(s: Seq<char>, hi: int)
    requires
        0 <= hi <= s.len(),
        forall|k: int| hi <= k < s.len() ==> is_space_char(s[k]),
        hi > 0 ==> !is_space_char(s[hi - 1]),
    ensures
        trim_end_spec(s) == s.subrange(0, hi),
    decreases s.len() - hi,
{
    if hi == s.len() {
        assert(trim_end_spec(s) == s.subrange(0, hi)) by {
            if s.len() > 0 && is_space_char(s[s.len() - 1]) {
                assert(!is_space_char(s[hi - 1]));
            }
            assert(s.subrange(0, s.len() as int) =~= s);
        }
    } else {
        let t = s.subrange(0, s.len() - 1);
        assert(forall|k: int| hi <= k < t.len() ==> is_space_char(#[trigger] t[k]));
        lemma_trim_end_on_suffix(t, hi);
        assert(t.subrange(0, hi) =~= s.subrange(0, hi));
    }
}

fn is_space(c: char) -> (r: bool)
    ensures
        r == is_space_char(c),
{
    c == ' ' || c == '\t' || c == '\n' || c == '\r'
}

/// A copy of `s` with leading and trailing space characters removed.
pub fn trim_copy(s: &str) -> (r: String)
    ensures
        r@ == trim_spec(s@),
{
    let n = s.unicode_len();
    let mut lo: usize = 0;
    while lo < n && is_space(s.get_char(lo))
        invariant
            0 <= lo <= n,
            n == s@.len(),
            forall|k: int| 0 <= k < lo ==> is_space_char(s@[k]),
        decreases n - lo,
    {
        lo = lo + 1;
    }
    if lo == n {
        proof {
            lemma_trim_start_on_prefix(s@, n as int);
            lemma_trim_end_on_suffix(trim_start_spec(s@), 0);
            assert(trim_spec(s@) =~= Seq::<char>::empty());
        }
        return String::new();
    }
    let mut hi: usize = n;
    while is_space(s.get_char(hi - 1))
        invariant
            lo < hi <= n,
            n == s@.len(),
            lo < n && !is_space_char(s@[lo as int]),
            forall|k: int| hi <= k < n ==> is_space_char(s@[k]),
        decreases hi,
    {
        hi = hi - 1;
    }
    let sub = s.substring_char(lo, hi);
    proof {
        lemma_trim_start_on_prefix(s@, lo as int);
        let t = s@.subrange(lo as int, n as int);
        assert(forall|k: int| hi - lo <= k < t.len() ==> is_space_char(#[trigger] t[k]));
        lemma_trim_end_on_suffix(t, hi - lo);
        assert(t.subrange(0, hi - lo) =~= s@.subrange(lo as int, hi as int));
    }
    String::from_str(sub)
}

/// The raw outcome of a finished external command: whether it exited with a
/// success status, and the bytes it wrote to its standard output.
pub struct CommandOutput {
    pub success: bool,
    pub stdout: Vec<u8>,
}

/// Runs the external command once and reports its raw outcome, or a
/// description of why it could not be launched or did not complete.
///
/// Implementations perform the actual process invocation; the cache treats
/// every outcome as the contracts here allow and is verified for all of them.
pub trait CommandRunner {
    fn run(&mut self) -> Result<CommandOutput, String>;
}

/// Whether a finished command's outcome yields a version reading.
///
/// A non-success exit always yields a reading (the sentinel); a success exit
/// yields one exactly when the output decodes as UTF-8 text.
pub open spec fn reading_ok(success: bool, bytes: Seq<u8>) -> bool {
    !success || vstd::utf8::valid_utf8(bytes)
}

/// The version reading of a finished command's outcome: the sentinel
/// `"unknown"` on a non-success exit, otherwise the decoded output trimmed of
/// surrounding spaces.
pub open spec fn reading_value(success: bool, bytes: Seq<u8>) -> Seq<char> {
    if !success {
        "unknown"@
    } else {
        trim_spec(vstd::utf8::decode_utf8(bytes))
    }
}

/// Relies on `String::from_utf8`: it succeeds exactly on valid UTF-8 input,
/// and the string it returns holds the decoding of the bytes.
#[verifier::external_body]
fn string_from_utf8(bytes: Vec<u8>) -> (r: Result<String, String>)
    ensures
        r is Ok <==> vstd::utf8::valid_utf8(bytes@),
        r matches Ok(s) ==> s@ == vstd::utf8::decode_utf8(bytes@),
{
    match String::from_utf8(bytes) {
        Ok(s) => Ok(s),
        Err(e) => Err(e.to_string()),
    }
}

/// Turns the raw outcome of a finished command into a version reading.
///
/// A non-success exit is not an error: it is normalized to the sentinel
/// `"unknown"`. A success exit has its output decoded as UTF-8 — failure to
/// decode is reported as [`VersionError::Utf8Decode`] — and trimmed of
/// surrounding spaces.
pub fn probe_reading(success: bool, stdout: Vec<u8>) -> (r: Result<String, VersionError>)
    ensures
        r is Ok <==> reading_ok(success, stdout@),
        r matches Ok(v) ==> v@ == reading_value(success, stdout@),
        r matches Err(e) ==> e is Utf8Decode,
{
    if !success {
        return Ok(String::from_str("unknown"));
    }
    match string_from_utf8(stdout) {
        Ok(text) => Ok(trim_copy(text.as_str())),
        Err(cause) => Err(VersionError::Utf8Decode(cause)),
    }
}

} // verus!
