use blockchain::clock::{seconds_since_epoch, ClockError};
use std::time::{Duration, UNIX_EPOCH};

#[test]
fn measured_time_is_given_in_whole_seconds() {
    assert_eq!(
        seconds_since_epoch(Ok(Duration::from_secs(1700000000))),
        Ok(1700000000)
    );
    assert_eq!(seconds_since_epoch(Ok(Duration::new(5, 999_999_999))), Ok(5));
    assert_eq!(seconds_since_epoch(Ok(Duration::from_millis(999))), Ok(0));
}

#[test]
fn moment_at_the_epoch_is_second_zero() {
    let elapsed = UNIX_EPOCH.duration_since(UNIX_EPOCH);
    assert_eq!(seconds_since_epoch(elapsed), Ok(0));
}

#[test]
fn moment_after_the_epoch_is_measured() {
    let moment = UNIX_EPOCH + Duration::from_secs(86400);
    assert_eq!(
        seconds_since_epoch(moment.duration_since(UNIX_EPOCH)),
        Ok(86400)
    );
}

#[test]
fn moment_before_the_epoch_is_an_error() {
    let moment = UNIX_EPOCH - Duration::from_secs(10);
    let elapsed = moment.duration_since(UNIX_EPOCH);
    assert!(elapsed.is_err());
    assert_eq!(seconds_since_epoch(elapsed), Err(ClockError::BeforeEpoch));
}
