use std::collections::VecDeque;
use std::time::{Duration, Instant};

use rlbot_core::error::{RLBotCoreStatus, RLBotError};
use rlbot_core::poller::{PollConfig, PollError, Poller, Snapshot, SnapshotSource};

/// Replays a fixed script of fetch outcomes; once the script is exhausted,
/// keeps repeating the last outcome.
struct ScriptedSource {
    script: VecDeque<Result<Option<Snapshot<i32>>, RLBotError>>,
    last: Result<Option<Snapshot<i32>>, RLBotError>,
}

impl ScriptedSource {
    fn new(script: Vec<Result<Option<Snapshot<i32>>, RLBotError>>) -> Self {
        ScriptedSource {
            script: script.into_iter().collect(),
            last: Ok(None),
        }
    }
}

impl SnapshotSource for ScriptedSource {
    type Payload = i32;

    fn fetch_snapshot(&mut self) -> Result<Option<Snapshot<i32>>, RLBotError> {
        if let Some(event) = self.script.pop_front() {
            self.last = event;
        }
        self.last
    }
}

fn snap(key: u64, payload: i32) -> Result<Option<Snapshot<i32>>, RLBotError> {
    Ok(Some(Snapshot { key, payload }))
}

fn fast_config() -> PollConfig {
    PollConfig {
        interval_millis: 1,
        timeout_millis: 200,
    }
}

#[test]
fn first_call_delivers_any_real_snapshot() {
    let source = ScriptedSource::new(vec![snap(42, 7)]);
    let mut poller = Poller::new(source, fast_config());
    let got = poller.try_next().unwrap();
    let got = got.expect("a fresh poller must deliver the first real snapshot");
    assert_eq!(got.key, 42);
    assert_eq!(got.payload, 7);
}

#[test]
fn first_blocking_call_delivers_any_real_snapshot() {
    let source = ScriptedSource::new(vec![snap(1, -3)]);
    let mut poller = Poller::new(source, fast_config());
    let got = poller.next().expect("a fresh poller must deliver the first real snapshot");
    assert_eq!(got.key, 1);
    assert_eq!(got.payload, -3);
}

#[test]
fn constant_key_returns_none_after_first() {
    let source = ScriptedSource::new(vec![snap(5, 1)]);
    let mut poller = Poller::new(source, fast_config());
    assert!(poller.try_next().unwrap().is_some());
    for _ in 0..5 {
        assert!(poller.try_next().unwrap().is_none());
    }
}

#[test]
fn no_snapshot_returns_none_and_keeps_state() {
    let source = ScriptedSource::new(vec![Ok(None), Ok(None), snap(9, 2)]);
    let mut poller = Poller::new(source, fast_config());
    assert!(poller.try_next().unwrap().is_none());
    assert!(poller.try_next().unwrap().is_none());
    assert_eq!(poller.try_next().unwrap().unwrap().key, 9);
}

#[test]
fn delivered_keys_strictly_increase() {
    let source = ScriptedSource::new(vec![
        snap(5, 10),
        snap(5, 10),
        snap(7, 11),
        snap(7, 11),
        snap(9, 12),
    ]);
    let mut poller = Poller::new(source, fast_config());
    let a = poller.next().unwrap();
    let b = poller.next().unwrap();
    let c = poller.next().unwrap();
    assert_eq!((a.key, b.key, c.key), (5, 7, 9));
    assert!(a.key < b.key && b.key < c.key);
}

#[test]
fn physics_key_selector_delivers_exactly_the_new_frame() {
    // A physics-cadence stub whose frame counter goes up by one: the second
    // blocking call must deliver the tick with the incremented frame, not a
    // stale or intermediate one.
    let frame: u64 = 120;
    let source = ScriptedSource::new(vec![
        snap(frame, 1000),
        snap(frame, 1000),
        snap(frame, 1000),
        snap(frame + 1, 2000),
    ]);
    let mut poller = Poller::new(source, PollConfig::physics_cadence());
    let first = poller.next().unwrap();
    let second = poller.next().unwrap();
    assert_eq!(first.key, frame);
    assert_eq!(first.payload, 1000);
    assert_eq!(second.key, frame + 1);
    assert_eq!(second.payload, 2000);
}

#[test]
fn timeout_fires_close_to_the_ceiling() {
    let source = ScriptedSource::new(vec![Ok(None)]);
    let mut poller = Poller::new(source, fast_config());
    let start = Instant::now();
    let r = poller.next();
    let elapsed = start.elapsed();
    assert!(matches!(r, Err(PollError::Timeout)));
    assert!(elapsed >= Duration::from_millis(195), "gave up too early: {elapsed:?}");
    assert!(elapsed <= Duration::from_millis(5000), "hung far past the ceiling: {elapsed:?}");
}

#[test]
fn adapter_error_is_surfaced_immediately() {
    let err = RLBotError {
        status: RLBotCoreStatus::BufferOverfilled,
    };
    let source = ScriptedSource::new(vec![Err(err)]);
    let mut poller = Poller::new(source, fast_config());
    let start = Instant::now();
    match poller.next() {
        Err(PollError::Adapter(e)) => assert_eq!(e.status, RLBotCoreStatus::BufferOverfilled),
        other => panic!("expected an adapter error, got {other:?}"),
    }
    assert!(start.elapsed() < Duration::from_millis(150));

    let source = ScriptedSource::new(vec![Err(err)]);
    let mut poller = Poller::new(source, fast_config());
    assert!(poller.try_next().is_err());
}

/// Records when each fetch happens, so the test can check the pacing.
struct RecordingSource {
    calls: Vec<Instant>,
    deliver_on_call: usize,
}

impl SnapshotSource for RecordingSource {
    type Payload = i32;

    fn fetch_snapshot(&mut self) -> Result<Option<Snapshot<i32>>, RLBotError> {
        self.calls.push(Instant::now());
        if self.calls.len() >= self.deliver_on_call {
            Ok(Some(Snapshot { key: 77, payload: 0 }))
        } else {
            Ok(None)
        }
    }
}

#[test]
fn rate_limiting_spaces_out_the_fetches() {
    let source = RecordingSource {
        calls: Vec::new(),
        deliver_on_call: 4,
    };
    let config = PollConfig {
        interval_millis: 30,
        timeout_millis: 10_000,
    };
    let mut poller = Poller::new(source, config);
    poller.next().unwrap();
    let calls = &poller.source().calls;
    assert_eq!(calls.len(), 4);
    for pair in calls.windows(2) {
        let gap = pair[1] - pair[0];
        assert!(
            gap >= Duration::from_millis(25),
            "two fetches only {gap:?} apart despite a 30 ms interval"
        );
    }
}

#[test]
fn cadence_constants() {
    let state = PollConfig::state_cadence();
    assert_eq!(state.interval_millis, 3);
    assert_eq!(state.timeout_millis, 10_000);
    let physics = PollConfig::physics_cadence();
    assert_eq!(physics.interval_millis, 1);
    assert_eq!(physics.timeout_millis, 10_000);
}
