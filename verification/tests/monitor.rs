use power_mon::clock::ClockError;
use power_mon::edge::{Direction, EdgeEvent, Transition, IDLE_TIMEOUT_SECS};
use power_mon::monitor::Action;
use power_mon::power::PowerEstimate;
use power_mon::validator::{PulseRecord, PulseReport, Validator};

const MS: u64 = 1_000_000;

fn edge(direction: Direction, at: u64) -> EdgeEvent {
    EdgeEvent::Transition(Transition { direction, observed_at: at })
}

#[test]
fn idle_timeout_is_two_minutes() {
    assert_eq!(IDLE_TIMEOUT_SECS, 120);
}

#[test]
fn level_after_the_edge_gives_the_direction() {
    assert_eq!(Direction::from_level(true), Direction::Rising);
    assert_eq!(Direction::from_level(false), Direction::Falling);
}

#[test]
fn timeout_with_no_prior_transition_stops_the_loop() {
    let mut v = Validator::new(7 * MS);
    assert_eq!(v.handle(EdgeEvent::TimedOut), Ok(Action::Stop));
    assert_eq!(v.time_of_previous_transition(), 7 * MS);
    assert_eq!(v.time_of_previous_valid_pulse(), 7 * MS);
}

#[test]
fn timeout_after_activity_stops_the_loop_and_keeps_the_state() {
    let mut v = Validator::new(0);
    assert!(matches!(v.handle(edge(Direction::Falling, 25 * MS)), Ok(Action::Persist(_))));
    assert_eq!(v.handle(edge(Direction::Rising, 30 * MS)), Ok(Action::Continue));
    assert_eq!(v.handle(EdgeEvent::TimedOut), Ok(Action::Stop));
    assert_eq!(v.time_of_previous_transition(), 30 * MS);
    assert_eq!(v.time_of_previous_valid_pulse(), 25 * MS);
}

#[test]
fn noise_asks_to_continue() {
    let mut v = Validator::new(0);
    assert_eq!(v.handle(edge(Direction::Falling, 23 * MS)), Ok(Action::Continue));
    assert_eq!(v.handle(edge(Direction::Falling, 49 * MS)), Ok(Action::Continue));
    assert_eq!(v.time_of_previous_transition(), 49 * MS);
    assert_eq!(v.time_of_previous_valid_pulse(), 0);
}

#[test]
fn pulse_asks_to_persist_its_record() {
    let mut v = Validator::new(0);
    assert_eq!(
        v.handle(edge(Direction::Rising, 24 * MS)),
        Ok(Action::Persist(PulseReport {
            record: PulseRecord { timestamp_unix_ns: 24 * MS },
            width_ns: 24 * MS,
            since_last_pulse_ms: 24,
            power: PowerEstimate { watts: 150_000, remainder: 0 },
            anomalous: true,
        }))
    );
    assert_eq!(v.time_of_previous_valid_pulse(), 24 * MS);
}

#[test]
fn backwards_transition_is_passed_on_as_an_error() {
    let mut v = Validator::new(10 * MS);
    assert_eq!(
        v.handle(edge(Direction::Falling, 9 * MS)),
        Err(ClockError { reference: 10 * MS, observed: 9 * MS })
    );
    assert_eq!(v.time_of_previous_transition(), 10 * MS);
}

#[test]
fn a_run_of_events_yields_one_record_per_pulse() {
    let mut v = Validator::new(0);
    let events = [
        edge(Direction::Falling, 0),
        edge(Direction::Falling, 25 * MS),
        edge(Direction::Rising, 500 * MS),
        edge(Direction::Falling, 525 * MS),
        edge(Direction::Rising, 530 * MS),
        edge(Direction::Falling, 1_525 * MS),
        edge(Direction::Falling, 1_549 * MS),
        EdgeEvent::TimedOut,
    ];
    let mut stored: Vec<u64> = vec![];
    let mut stopped = false;
    for event in events {
        match v.handle(event).unwrap() {
            Action::Continue => {}
            Action::Persist(report) => stored.push(report.record.timestamp_unix_ns),
            Action::Stop => stopped = true,
        }
    }
    assert!(stopped);
    assert_eq!(stored, vec![25 * MS, 525 * MS, 1_549 * MS]);
}

#[test]
fn spacings_just_above_23_ms_are_persisted() {
    let mut v = Validator::new(0);
    assert!(matches!(v.handle(edge(Direction::Falling, 23 * MS + 500_000)), Ok(Action::Persist(_))));
    let mut w = Validator::new(0);
    assert!(matches!(w.handle(edge(Direction::Falling, 24 * MS - 1)), Ok(Action::Persist(_))));
    let mut x = Validator::new(0);
    assert_eq!(x.handle(edge(Direction::Falling, 23 * MS)), Ok(Action::Continue));
}

#[test]
fn a_run_records_every_spacing_inside_the_open_band() {
    let mut v = Validator::new(0);
    let instants = [
        23 * MS,            // 23 ms exactly: outside
        46 * MS + 1,        // 23 ms + 1 ns: inside
        72 * MS + 1,        // 26 ms exactly: outside
        95 * MS + 500_001,  // 23.5 ms: inside
        121 * MS + 500_000, // 26 ms - 1 ns: inside
    ];
    let mut stored: Vec<u64> = vec![];
    for at in instants {
        if let Action::Persist(report) = v.handle(edge(Direction::Falling, at)).unwrap() {
            stored.push(report.record.timestamp_unix_ns);
        }
        assert_eq!(v.time_of_previous_transition(), at);
    }
    assert_eq!(stored, vec![46 * MS + 1, 95 * MS + 500_001, 121 * MS + 500_000]);
}
