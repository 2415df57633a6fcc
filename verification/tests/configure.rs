use nctume_ddns::configure::{ClientConf, ConfRead, LoadStep};
use nctume_ddns::error::{AppError, ErrorKind};
use std::time::Duration;

#[test]
fn default_configuration_is_empty_with_five_minutes() {
    let conf = ClientConf::default();
    assert_eq!(conf.token(), "");
    assert_eq!(conf.record_id(), 0);
    assert_eq!(conf.interval_min(), 5);
    assert_eq!(conf.interval(), Duration::from_secs(300));
}

#[test]
fn new_keeps_its_arguments() {
    let conf = ClientConf::new("secret".to_string(), 42, 15);
    assert_eq!(conf.token(), "secret");
    assert_eq!(conf.record_id(), 42);
    assert_eq!(conf.interval_min(), 15);
    assert_eq!(conf, ClientConf::new("secret".to_string(), 42, 15));
    assert_ne!(conf, ClientConf::new("secret".to_string(), 42, 16));
}

#[test]
fn interval_is_minutes_times_sixty() {
    assert_eq!(ClientConf::new(String::new(), 0, 1).interval(), Duration::from_secs(60));
    assert_eq!(ClientConf::new(String::new(), 0, 60).interval(), Duration::from_secs(3600));
    assert_eq!(ClientConf::new(String::new(), 0, 0).interval(), Duration::from_secs(0));
    let longest = u64::MAX / 60;
    assert_eq!(
        ClientConf::new(String::new(), 0, longest).interval(),
        Duration::from_secs(longest * 60)
    );
    assert_eq!(ClientConf::new(String::new(), 0, 7).interval().as_secs(), 420);
    assert_eq!(ClientConf::new(String::new(), 0, 7).interval().subsec_nanos(), 0);
}

#[test]
fn zero_interval_is_not_valid() {
    assert!(!ClientConf::new("secret".to_string(), 42, 0).is_valid());
}

#[test]
fn positive_interval_is_valid_up_to_the_machine_limit() {
    assert!(ClientConf::new("secret".to_string(), 42, 1).is_valid());
    assert!(ClientConf::default().is_valid());
    assert!(ClientConf::new("secret".to_string(), 42, u64::MAX / 60).is_valid());
    assert!(!ClientConf::new("secret".to_string(), 42, u64::MAX / 60 + 1).is_valid());
    assert!(!ClientConf::new("secret".to_string(), 42, u64::MAX).is_valid());
}

#[test]
fn load_goes_on_with_a_configuration_that_was_found() {
    let found = ClientConf::new("secret".to_string(), 42, 15);
    match ClientConf::load(ConfRead::Found(found.clone())) {
        LoadStep::Ready(conf) => assert_eq!(conf, found),
        other => panic!("unexpected step {:?}", other),
    }
}

#[test]
fn load_answers_a_missing_file_with_the_default_and_stops() {
    let missing = AppError::with_error(
        ErrorKind::Io,
        "I/O Error",
        std::io::Error::new(std::io::ErrorKind::NotFound, "no such file"),
    );
    match ClientConf::load(ConfRead::Missing(missing)) {
        LoadStep::WriteDefault(conf, e) => {
            assert_eq!(conf, ClientConf::default());
            assert_eq!(e.kind(), ErrorKind::Io);
            assert_eq!(e.to_string(), "I/O Error: no such file");
        },
        other => panic!("unexpected step {:?}", other),
    }
}

#[test]
fn load_stops_on_an_unusable_file() {
    let broken = AppError::new(ErrorKind::Format, "Invalid TOML format Error");
    match ClientConf::load(ConfRead::Unusable(broken)) {
        LoadStep::GiveUp(e) => {
            assert_eq!(e.kind(), ErrorKind::Format);
            assert_eq!(e.message(), "Invalid TOML format Error");
        },
        other => panic!("unexpected step {:?}", other),
    }
}
