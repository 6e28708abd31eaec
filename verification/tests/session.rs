use fifo_writer::config::RunConfig;
use fifo_writer::session::{make_payload, Directive, Session, SessionState};

fn config(duration: u64, count: u64, delay: u64, byte_value: u8) -> RunConfig {
    RunConfig::new(String::from("/tmp/p"), duration, count, delay, byte_value, None)
}

#[test]
fn payload_is_count_bytes_of_value() {
    let p = make_payload(4, 7);
    assert_eq!(p, vec![7u8, 7, 7, 7]);
}

#[test]
fn payload_of_count_zero_is_empty() {
    let p = make_payload(0, 9);
    assert!(p.is_empty());
}

#[test]
fn session_starts_running_with_configured_payload() {
    let s = Session::new(&config(10, 3, 1000, 255));
    assert_eq!(s.state, SessionState::Running);
    assert_eq!(s.duration, 10);
    assert_eq!(s.delay, 1000);
    assert_eq!(s.payload, vec![255u8, 255, 255]);
    assert_eq!(s.payload(), &vec![255u8, 255, 255]);
}

#[test]
fn zero_duration_finishes_without_a_write() {
    // A run of zero seconds with a four-byte payload: the first poll already
    // directs a finish, so no write ever happens.
    let mut s = Session::new(&config(0, 4, 1000, 7));
    assert_eq!(s.next(0), Directive::Finish);
    assert_eq!(s.state, SessionState::Done);
    assert_eq!(s.next(0), Directive::Finish);
}

#[test]
fn one_second_run_with_half_second_delay_writes_twice() {
    // One-second budget, one byte of 0xFF per write, half a second between
    // writes: the reader sees exactly two single-byte writes.
    let mut s = Session::new(&config(1, 1, 500000, 255));
    let mut writes: Vec<Vec<u8>> = Vec::new();
    // Elapsed whole seconds as the caller's clock would report them just
    // before each poll: 0 at the start, 0 after the first half-second sleep,
    // 1 after the second.
    for elapsed in [0u64, 0, 1] {
        match s.next(elapsed) {
            Directive::Write => {
                writes.push(s.payload().clone());
                s.record_write(true);
            }
            Directive::Finish => break,
            Directive::Abort => panic!("no write failed"),
        }
    }
    assert_eq!(writes, vec![vec![255u8], vec![255u8]]);
    assert_eq!(s.state, SessionState::Done);
}

#[test]
fn write_directed_until_budget_reached() {
    let mut s = Session::new(&config(5, 1, 1000, 0));
    assert_eq!(s.next(0), Directive::Write);
    assert_eq!(s.next(4), Directive::Write);
    assert_eq!(s.next(5), Directive::Finish);
    assert_eq!(s.state, SessionState::Done);
}

#[test]
fn failed_write_aborts_and_stays_aborted() {
    let mut s = Session::new(&config(10, 1, 1000, 0));
    assert_eq!(s.next(0), Directive::Write);
    s.record_write(false);
    assert_eq!(s.state, SessionState::Aborted);
    assert_eq!(s.next(1), Directive::Abort);
    assert_eq!(s.next(0), Directive::Abort);
    assert_eq!(s.state, SessionState::Aborted);
}

#[test]
fn successful_write_keeps_running() {
    let mut s = Session::new(&config(10, 1, 1000, 0));
    assert_eq!(s.next(0), Directive::Write);
    s.record_write(true);
    assert_eq!(s.state, SessionState::Running);
    assert_eq!(s.next(1), Directive::Write);
}
