use boss::CommandOutput;
use boss::CommandRunner;
use boss::VersionCache;
use boss::VersionError;

/// A scripted probe: hands out the prepared outcomes in order and counts how
/// often it was invoked. Running past the end of the script panics, so a test
/// that expects no further invocation fails loudly if one happens.
struct MockRunner {
    calls: usize,
    script: Vec<Result<CommandOutput, String>>,
}

impl MockRunner {
    fn new(script: Vec<Result<CommandOutput, String>>) -> MockRunner {
        MockRunner { calls: 0, script }
    }
}

impl CommandRunner for MockRunner {
    fn run(&mut self) -> Result<CommandOutput, String> {
        self.calls += 1;
        self.script.remove(0)
    }
}

fn ok_output(success: bool, stdout: &[u8]) -> Result<CommandOutput, String> {
    Ok(CommandOutput {
        success,
        stdout: stdout.to_vec(),
    })
}

#[test]
fn fresh_cache_is_unpopulated() {
    let cache = VersionCache::new();
    assert_eq!(cache.cached(), None);
}

#[test]
fn get_is_idempotent_after_population() {
    let mut cache = VersionCache::new();
    let mut runner = MockRunner::new(vec![ok_output(true, b"1.2.3 deadbee\n")]);
    let first = cache.get(&mut runner).unwrap();
    assert_eq!(first, "1.2.3 deadbee");
    for _ in 0..5 {
        let again = cache.get(&mut runner).unwrap();
        assert_eq!(again, first);
    }
    assert_eq!(runner.calls, 1);
    assert_eq!(cache.cached(), Some(String::from("1.2.3 deadbee")));
}

#[test]
fn launch_failure_is_not_sticky() {
    let mut cache = VersionCache::new();
    let mut runner = MockRunner::new(vec![
        Err(String::from("no such executable")),
        ok_output(true, b"2.0.0 abcd123\n"),
    ]);
    let first = cache.get(&mut runner);
    assert!(matches!(first, Err(VersionError::GitCommand(_))));
    assert_eq!(cache.cached(), None);
    let second = cache.get(&mut runner).unwrap();
    assert_eq!(second, "2.0.0 abcd123");
    assert_eq!(runner.calls, 2);
    assert_eq!(cache.cached(), Some(String::from("2.0.0 abcd123")));
}

#[test]
fn decode_failure_is_not_sticky() {
    let mut cache = VersionCache::new();
    let mut runner = MockRunner::new(vec![
        ok_output(true, &[0xff, 0xfe, 0xfd]),
        ok_output(true, b"3.1.4 f00dfee\n"),
    ]);
    let first = cache.get(&mut runner);
    assert!(matches!(first, Err(VersionError::Utf8Decode(_))));
    assert_eq!(cache.cached(), None);
    let second = cache.get(&mut runner).unwrap();
    assert_eq!(second, "3.1.4 f00dfee");
    assert_eq!(runner.calls, 2);
}

#[test]
fn sentinel_is_sticky() {
    let mut cache = VersionCache::new();
    let mut runner = MockRunner::new(vec![ok_output(false, b"fatal: not a repository\n")]);
    let first = cache.get(&mut runner).unwrap();
    assert_eq!(first, "unknown");
    let second = cache.get(&mut runner).unwrap();
    assert_eq!(second, "unknown");
    assert_eq!(runner.calls, 1);
    assert_eq!(cache.cached(), Some(String::from("unknown")));
}

#[test]
fn version_flow_returns_identical_body_without_second_probe() {
    let mut cache = VersionCache::new();
    let mut runner = MockRunner::new(vec![ok_output(true, b"2024.06.01 abc1234")]);
    let first = cache.get(&mut runner).unwrap();
    assert_eq!(first, "2024.06.01 abc1234");
    let second = cache.get(&mut runner).unwrap();
    assert_eq!(second, "2024.06.01 abc1234");
    assert_eq!(runner.calls, 1);
}

#[test]
fn version_flow_surfaces_launch_failure() {
    let mut cache = VersionCache::new();
    let mut runner = MockRunner::new(vec![Err(String::from("failed to launch"))]);
    let result = cache.get(&mut runner);
    match result {
        Err(VersionError::GitCommand(cause)) => assert_eq!(cause, "failed to launch"),
        other => panic!("expected a launch failure, got {:?}", other),
    }
}
