use nctume_ddns::configure::ClientConf;
use nctume_ddns::ddns::SyncOutcome;
use nctume_ddns::error::{AppError, ErrorKind};
use nctume_ddns::ipv4::Ipv4;
use nctume_ddns::schedule::{ScheduleState, RETRY_CAP_SECS};
use std::time::Duration;

fn conf(minutes: u64) -> ClientConf {
    ClientConf::new("secret".to_string(), 42, minutes)
}

fn failed() -> SyncOutcome {
    SyncOutcome::Failed(AppError::new(ErrorKind::Network, "HTTP request Error"))
}

fn unchanged() -> SyncOutcome {
    SyncOutcome::Unchanged(Ipv4::new(1, 2, 3, 4))
}

fn updated() -> SyncOutcome {
    SyncOutcome::Updated(Ipv4::new(1, 2, 3, 4), Ipv4::new(1, 2, 3, 5))
}

#[test]
fn a_new_scheduler_has_no_failures() {
    assert_eq!(ScheduleState::new().consecutive_failures(), 0);
}

#[test]
fn retry_after_failure_is_a_tenth_of_the_interval() {
    let mut state = ScheduleState::new();
    assert_eq!(state.next_delay(&failed(), &conf(5)), Duration::from_secs(30));
    assert_eq!(state.next_delay(&failed(), &conf(1)), Duration::from_secs(6));
    assert_eq!(state.next_delay(&failed(), &conf(19)), Duration::from_secs(114));
}

#[test]
fn retry_after_failure_is_capped() {
    let mut state = ScheduleState::new();
    assert_eq!(RETRY_CAP_SECS, 120);
    assert_eq!(state.next_delay(&failed(), &conf(60)), Duration::from_secs(120));
    assert_eq!(state.next_delay(&failed(), &conf(20)), Duration::from_secs(120));
    assert_eq!(state.next_delay(&failed(), &conf(21)), Duration::from_secs(120));
    assert_eq!(state.next_delay(&failed(), &conf(u64::MAX / 60)), Duration::from_secs(120));
}

#[test]
fn retry_delay_does_not_grow_with_failures() {
    let mut state = ScheduleState::new();
    for n in 1..=50u64 {
        assert_eq!(state.next_delay(&failed(), &conf(5)), Duration::from_secs(30));
        assert_eq!(state.consecutive_failures(), n);
    }
}

#[test]
fn success_waits_for_the_whole_interval() {
    let mut state = ScheduleState::new();
    assert_eq!(state.next_delay(&unchanged(), &conf(5)), Duration::from_secs(300));
    assert_eq!(state.next_delay(&updated(), &conf(60)), Duration::from_secs(3600));
    assert_eq!(state.next_delay(&updated(), &conf(1)), Duration::from_secs(60));
    assert_eq!(state.consecutive_failures(), 0);
}

#[test]
fn success_clears_the_failure_count() {
    let mut state = ScheduleState::new();
    state.next_delay(&failed(), &conf(5));
    state.next_delay(&failed(), &conf(5));
    state.next_delay(&failed(), &conf(5));
    assert_eq!(state.consecutive_failures(), 3);
    state.next_delay(&unchanged(), &conf(5));
    assert_eq!(state.consecutive_failures(), 0);
    state.next_delay(&failed(), &conf(5));
    assert_eq!(state.consecutive_failures(), 1);
    state.next_delay(&updated(), &conf(5));
    assert_eq!(state.consecutive_failures(), 0);
}

#[test]
fn delay_has_no_part_below_a_second() {
    let mut state = ScheduleState::new();
    assert_eq!(state.next_delay(&failed(), &conf(7)).subsec_nanos(), 0);
    assert_eq!(state.next_delay(&failed(), &conf(7)).as_secs(), 42);
    assert_eq!(state.next_delay(&unchanged(), &conf(7)).subsec_nanos(), 0);
}
