use chrome::{Action, Chrome, ChromeError, Config, Event, Health, Phase, Probe, Value};

const SECOND: u128 = 1_000_000_000;

fn answered(ready: Option<bool>, elapsed: u128) -> Event {
    Event::Probed { probe: Probe::Answered(Health { value: Value { ready } }), elapsed }
}

fn refused(elapsed: u128) -> Event {
    Event::Probed { probe: Probe::Refused, elapsed }
}

fn polling(pid: u32, poll: u128, timeout: u128) -> Chrome {
    let mut chrome = Chrome::default();
    assert!(matches!(chrome.spawn(poll, timeout), Action::Start { kill: None }));
    assert!(matches!(chrome.advance(Event::Spawned { pid }), Action::Request));
    chrome
}

#[test]
fn default_config_names_chromedriver_on_localhost() {
    let config = Config::default();
    assert_eq!(config.driver_path, "chromedriver");
    assert_eq!(config.server_url, "http://localhost:9515");
    assert!(config.args.is_empty());
    let chrome = Chrome::default();
    assert_eq!(chrome.settings().driver_path, "chromedriver");
    assert_eq!(chrome.settings().server_url, "http://localhost:9515");
    assert!(chrome.settings().args.is_empty());
    assert_eq!(chrome.current_phase(), Phase::Idle);
    assert_eq!(chrome.handle(), None);
}

#[test]
fn status_url_appends_the_status_path() {
    assert_eq!(Config::default().status_url(), "http://localhost:9515/status");
    let config = Config {
        driver_path: "/usr/local/bin/chromedriver".to_string(),
        server_url: "http://127.0.0.1:4444".to_string(),
        args: vec!["--port=4444".to_string()],
    };
    assert_eq!(config.status_url(), "http://127.0.0.1:4444/status");
    let chrome = Chrome::new(config);
    assert_eq!(chrome.settings().driver_path, "/usr/local/bin/chromedriver");
    assert_eq!(chrome.settings().args, vec!["--port=4444".to_string()]);
    assert_eq!(chrome.current_phase(), Phase::Idle);
}

#[test]
fn construction_starts_nothing() {
    let chrome = Chrome::new(Config::default());
    assert_eq!(chrome.current_phase(), Phase::Idle);
    assert_eq!(chrome.handle(), None);
}

#[test]
fn health_is_ready_only_when_present_and_true() {
    assert!(Health { value: Value { ready: Some(true) } }.is_ready());
    assert!(!Health { value: Value { ready: Some(false) } }.is_ready());
    assert!(!Health { value: Value { ready: None } }.is_ready());
}

#[test]
fn spawn_asks_for_the_driver_to_be_started() {
    let mut chrome = Chrome::default();
    let action = chrome.spawn(SECOND, 5 * SECOND);
    assert!(matches!(action, Action::Start { kill: None }));
    assert_eq!(chrome.current_phase(), Phase::Starting { poll: SECOND, timeout: 5 * SECOND });
    assert_eq!(chrome.handle(), None);
}

#[test]
fn spawned_process_is_owned_and_probed() {
    let mut chrome = Chrome::default();
    chrome.spawn(SECOND, 5 * SECOND);
    let action = chrome.advance(Event::Spawned { pid: 4711 });
    assert!(matches!(action, Action::Request));
    assert_eq!(
        chrome.current_phase(),
        Phase::Polling { pid: 4711, poll: SECOND, timeout: 5 * SECOND }
    );
    assert_eq!(chrome.handle(), Some(4711));
}

#[test]
fn spawn_failure_is_reported() {
    let mut chrome = Chrome::default();
    chrome.spawn(SECOND, 5 * SECOND);
    let action = chrome.advance(Event::SpawnFailed);
    assert!(matches!(action, Action::Fail { kill: None, error: ChromeError::SpawnFailed }));
    assert_eq!(chrome.current_phase(), Phase::Idle);
}

#[test]
fn launch_succeeds_after_three_unready_polls() {
    let mut chrome = polling(10, SECOND, 5 * SECOND);
    for n in 0..3u128 {
        let action = chrome.advance(answered(Some(false), n * SECOND));
        assert!(matches!(action, Action::Sleep { nanos: SECOND }));
        assert_eq!(chrome.handle(), Some(10));
    }
    let action = chrome.advance(answered(Some(true), 3 * SECOND));
    assert!(matches!(action, Action::Done));
    assert_eq!(chrome.current_phase(), Phase::Running { pid: 10 });
    assert_eq!(chrome.handle(), Some(10));
}

#[test]
fn absent_ready_field_counts_as_not_ready() {
    let mut chrome = polling(10, SECOND, 5 * SECOND);
    let action = chrome.advance(answered(None, 0));
    assert!(matches!(action, Action::Sleep { nanos: SECOND }));
    let action = chrome.advance(answered(None, 5 * SECOND));
    assert!(matches!(action, Action::Fail { kill: Some(10), error: ChromeError::Timeout }));
}

#[test]
fn ready_is_accepted_even_after_the_deadline() {
    let mut chrome = polling(10, SECOND, 5 * SECOND);
    let action = chrome.advance(answered(Some(true), 9 * SECOND));
    assert!(matches!(action, Action::Done));
    assert_eq!(chrome.handle(), Some(10));
}

#[test]
fn timeout_comes_at_the_deadline_and_not_before() {
    let mut chrome = polling(10, SECOND, 5 * SECOND);
    let action = chrome.advance(answered(Some(false), 5 * SECOND - 1));
    assert!(matches!(action, Action::Sleep { nanos: SECOND }));
    assert_eq!(chrome.handle(), Some(10));
    let action = chrome.advance(answered(Some(false), 5 * SECOND));
    assert!(matches!(action, Action::Fail { kill: Some(10), error: ChromeError::Timeout }));
    assert_eq!(chrome.current_phase(), Phase::Idle);
}

#[test]
fn zero_timeout_fails_at_the_first_unsuccessful_probe() {
    let mut chrome = polling(10, SECOND, 0);
    let action = chrome.advance(refused(0));
    assert!(matches!(action, Action::Fail { kill: Some(10), error: ChromeError::Timeout }));
}

#[test]
fn refused_connections_are_retried_until_reachable() {
    let mut chrome = polling(10, 2 * SECOND, 30 * SECOND);
    for k in 0..4u128 {
        let action = chrome.advance(refused(k * 2 * SECOND));
        assert!(matches!(action, Action::Sleep { nanos } if nanos == 2 * SECOND));
    }
    let action = chrome.advance(answered(Some(true), 8 * SECOND));
    assert!(matches!(action, Action::Done));
    assert_eq!(chrome.current_phase(), Phase::Running { pid: 10 });
}

#[test]
fn refused_past_the_deadline_is_a_timeout() {
    let mut chrome = polling(10, SECOND, 5 * SECOND);
    let action = chrome.advance(refused(6 * SECOND));
    assert!(matches!(action, Action::Fail { kill: Some(10), error: ChromeError::Timeout }));
    assert_eq!(chrome.handle(), None);
}

#[test]
fn malformed_response_fails_at_once() {
    let mut chrome = polling(10, SECOND, 5 * SECOND);
    let action = chrome.advance(Event::Probed { probe: Probe::Malformed, elapsed: 0 });
    assert!(matches!(
        action,
        Action::Fail { kill: Some(10), error: ChromeError::MalformedHealthResponse }
    ));
    assert_eq!(chrome.current_phase(), Phase::Idle);
}

#[test]
fn terminate_twice_kills_once() {
    let mut chrome = polling(10, SECOND, 5 * SECOND);
    chrome.advance(answered(Some(true), 0));
    assert!(matches!(chrome.terminate(), Action::Kill { pid: 10 }));
    assert_eq!(chrome.current_phase(), Phase::Stopping);
    assert!(matches!(chrome.terminate(), Action::Done));
    assert!(matches!(chrome.advance(Event::Killed { ok: true }), Action::Done));
    assert_eq!(chrome.current_phase(), Phase::Idle);
    assert!(matches!(chrome.terminate(), Action::Done));
    assert_eq!(chrome.current_phase(), Phase::Idle);
}

#[test]
fn terminate_with_nothing_owned_does_nothing() {
    let mut chrome = Chrome::default();
    assert!(matches!(chrome.terminate(), Action::Done));
    assert_eq!(chrome.current_phase(), Phase::Idle);
}

#[test]
fn terminate_during_polling_kills_the_process() {
    let mut chrome = polling(10, SECOND, 5 * SECOND);
    assert!(matches!(chrome.terminate(), Action::Kill { pid: 10 }));
    assert_eq!(chrome.handle(), None);
}

#[test]
fn failed_kill_is_reported() {
    let mut chrome = polling(10, SECOND, 5 * SECOND);
    chrome.advance(answered(Some(true), 0));
    chrome.terminate();
    let action = chrome.advance(Event::Killed { ok: false });
    assert!(matches!(action, Action::Fail { kill: None, error: ChromeError::KillFailed }));
    assert_eq!(chrome.current_phase(), Phase::Idle);
}

#[test]
fn second_launch_kills_the_process_of_the_first() {
    let mut chrome = polling(10, SECOND, 5 * SECOND);
    chrome.advance(answered(Some(true), 0));
    let action = chrome.spawn(SECOND, 2 * SECOND);
    assert!(matches!(action, Action::Start { kill: Some(10) }));
    assert_eq!(chrome.current_phase(), Phase::Starting { poll: SECOND, timeout: 2 * SECOND });
}

#[test]
fn events_out_of_turn_are_ignored() {
    let mut chrome = Chrome::default();
    assert!(matches!(chrome.advance(Event::Spawned { pid: 3 }), Action::Ignore));
    assert!(matches!(chrome.advance(refused(0)), Action::Ignore));
    assert!(matches!(chrome.advance(Event::Killed { ok: true }), Action::Ignore));
    assert_eq!(chrome.current_phase(), Phase::Idle);
    let mut chrome = polling(10, SECOND, 5 * SECOND);
    assert!(matches!(chrome.advance(Event::SpawnFailed), Action::Ignore));
    assert_eq!(chrome.handle(), Some(10));
}

#[test]
fn messages_name_each_failure() {
    assert_eq!(ChromeError::Timeout.message(), "timeout reached");
    assert_eq!(ChromeError::SpawnFailed.message(), "spawn failed");
    assert_eq!(ChromeError::MalformedHealthResponse.message(), "malformed health response");
    assert_eq!(ChromeError::KillFailed.message(), "kill failed");
}
