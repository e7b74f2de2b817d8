use snowflake::clock::timestamp_from_millis;
use snowflake::layout::{sequence_of, timestamp_of, worker_id_of, EPOCH};
use snowflake::{SnowflakeError, SnowflakeGen};

#[test]
fn millis_that_fit_are_the_timestamp() {
    assert_eq!(timestamp_from_millis(0), Ok(0));
    assert_eq!(timestamp_from_millis(1314220000123), Ok(1314220000123));
    assert_eq!(timestamp_from_millis(u64::MAX as u128), Ok(u64::MAX));
}

#[test]
fn millis_that_do_not_fit_are_a_clock_fault() {
    assert_eq!(timestamp_from_millis(u64::MAX as u128 + 1), Err(SnowflakeError::ClockFault));
    assert_eq!(
        timestamp_from_millis((1u128 << 64) + 1314220000123),
        Err(SnowflakeError::ClockFault)
    );
    assert_eq!(timestamp_from_millis(u128::MAX), Err(SnowflakeError::ClockFault));
}

#[test]
fn system_clock_reads_after_epoch() {
    let now: u64 = SnowflakeGen::get_timestamp().unwrap();
    assert!(now > EPOCH);
}

#[test]
fn wait_returns_a_later_millisecond() {
    let now: u64 = SnowflakeGen::get_timestamp().unwrap();
    let later: u64 = SnowflakeGen::wait_next_millis(now).unwrap();
    assert!(later > now);
}

#[test]
fn wait_on_a_past_millisecond_returns_the_present() {
    let later: u64 = SnowflakeGen::wait_next_millis(EPOCH).unwrap();
    assert!(later > EPOCH);
}

#[test]
fn next_issues_from_the_system_clock() {
    let mut generator = SnowflakeGen::new(1).unwrap();
    let before: u64 = SnowflakeGen::get_timestamp().unwrap();
    let id: u64 = generator.next().unwrap();
    assert_eq!(worker_id_of(id), 1);
    assert_eq!(timestamp_of(id), generator.last_timestamp());
    assert_eq!(sequence_of(id), generator.sequence());
    assert_eq!(sequence_of(id), 0);
    assert!(generator.last_timestamp() > EPOCH);
    assert!(generator.last_timestamp() + 60_000 > before);
}

#[test]
fn next_never_repeats_itself() {
    let mut generator = SnowflakeGen::new(5).unwrap();
    let mut previous: u64 = generator.next().unwrap();
    let mut count: u64 = 0;
    while count < 20000 {
        let id: u64 = generator.next().unwrap();
        assert_ne!(id, previous);
        assert_eq!(worker_id_of(id), 5);
        assert_eq!(timestamp_of(id), generator.last_timestamp());
        assert_eq!(sequence_of(id), generator.sequence());
        previous = id;
        count += 1;
    }
}

#[test]
fn wait_ends_at_a_later_reading() {
    assert_eq!(
        SnowflakeGen::wait_at(1314220000123, 1314220000124, 5),
        Ok(Some(1314220000124))
    );
    assert_eq!(
        SnowflakeGen::wait_at(1314220000123, 1314220000125, 0),
        Ok(Some(1314220000125))
    );
    assert_eq!(SnowflakeGen::wait_at(0, u64::MAX, 0), Ok(Some(u64::MAX)));
}

#[test]
fn wait_passes_over_a_reading_that_is_not_later() {
    assert_eq!(SnowflakeGen::wait_at(1314220000123, 1314220000123, 1), Ok(None));
    assert_eq!(SnowflakeGen::wait_at(1314220000123, 1314220000122, u64::MAX), Ok(None));
    assert_eq!(SnowflakeGen::wait_at(1314220000123, 0, 7), Ok(None));
    assert_eq!(SnowflakeGen::wait_at(u64::MAX, u64::MAX, 1), Ok(None));
}

#[test]
fn wait_gives_up_when_no_reading_is_left() {
    assert_eq!(
        SnowflakeGen::wait_at(1314220000123, 1314220000123, 0),
        Err(SnowflakeError::ClockFault)
    );
    assert_eq!(
        SnowflakeGen::wait_at(1314220000123, 1314220000122, 0),
        Err(SnowflakeError::ClockFault)
    );
}

#[test]
fn wait_returns_the_first_later_reading() {
    let readings: Vec<u64> = vec![
        1314220000123,
        1314220000123,
        1314220000122,
        1314220000125,
        1314220000130,
    ];
    let mut reads_left: u64 = u64::MAX;
    let mut taken: usize = 0;
    let mut result: Option<u64> = None;
    while result.is_none() {
        let reading: u64 = readings[taken];
        taken += 1;
        match SnowflakeGen::wait_at(1314220000123, reading, reads_left).unwrap() {
            Some(timestamp) => result = Some(timestamp),
            None => reads_left -= 1,
        }
    }
    assert_eq!(result, Some(1314220000125));
    assert_eq!(taken, 4);
    assert_eq!(reads_left, u64::MAX - 3);
}

#[test]
fn wait_takes_one_reading_when_the_clock_has_moved_on() {
    let readings: Vec<u64> = vec![1314220000124, 1314220000130];
    let mut taken: usize = 0;
    let mut result: Option<u64> = None;
    while result.is_none() {
        let reading: u64 = readings[taken];
        taken += 1;
        result = SnowflakeGen::wait_at(1314220000123, reading, u64::MAX).unwrap();
    }
    assert_eq!(result, Some(1314220000124));
    assert_eq!(taken, 1);
}

#[test]
fn wait_on_a_stuck_clock_ends_in_a_clock_fault() {
    let mut reads_left: u64 = 3;
    let mut taken: u64 = 0;
    let outcome: Result<u64, SnowflakeError> = loop {
        taken += 1;
        match SnowflakeGen::wait_at(1314220000123, 1314220000123, reads_left) {
            Ok(Some(timestamp)) => break Ok(timestamp),
            Ok(None) => reads_left -= 1,
            Err(e) => break Err(e),
        }
    };
    assert_eq!(outcome, Err(SnowflakeError::ClockFault));
    assert_eq!(taken, 4);
}

#[test]
fn stalled_generator_resumes_at_the_first_later_reading() {
    let mut generator = SnowflakeGen::new(1).unwrap();
    let t: u64 = 1314220000123;
    let mut count: u64 = 0;
    while count < 4096 {
        assert!(generator.next_at(t).unwrap().is_some());
        count += 1;
    }
    assert_eq!(generator.next_at(t), Ok(None));
    let readings: Vec<u64> = vec![t, t, t - 1, t + 2, t + 7];
    let mut taken: usize = 0;
    let mut later: Option<u64> = None;
    while later.is_none() {
        later = SnowflakeGen::wait_at(t, readings[taken], u64::MAX).unwrap();
        taken += 1;
    }
    assert_eq!(later, Some(t + 2));
    assert_eq!(taken, 4);
    let id: u64 = generator.next_at(t + 2).unwrap().unwrap();
    assert_eq!(timestamp_of(id), t + 2);
    assert_eq!(sequence_of(id), 0);
    assert_eq!(worker_id_of(id), 1);
}
