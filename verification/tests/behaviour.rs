use std::time::{Duration, SystemTime};

use hybrid_clocks::{Clock, Error, ManualClock, Timestamp, WallMST, EPOCH_2020};

#[test]
fn repeated_now_keeps_counting() -> Result<(), Error> {
    let mut clock = Clock::manual(1)?;
    let _ = clock.observe(&Timestamp { time: 10, count: 0 });
    assert_eq!(clock.now()?, Timestamp { time: 10, count: 1 });
    assert_eq!(clock.now()?, Timestamp { time: 10, count: 2 });
    Ok(())
}

#[test]
fn drift_rejection_reports_offset_too_great() -> Result<(), Error> {
    let mut clock = Clock::manual(0)?.with_max_diff(10);
    assert_eq!(
        clock.observe(&Timestamp { time: 11, count: 0 }),
        Err(Error::OffsetTooGreat)
    );
    clock.observe(&Timestamp { time: 1, count: 0 }).unwrap();
    assert_eq!(clock.now()?, Timestamp { time: 1, count: 1 });
    Ok(())
}

#[test]
fn counter_exhaustion_reports_clock_overflow() {
    let mut clock = Clock {
        source: ManualClock::new(5),
        last: Timestamp {
            time: 5u64,
            count: u16::MAX,
        },
        max_diff: None,
    };
    assert_eq!(clock.now(), Err(Error::ClockOverflow));
    // the failure leaves the clock usable: advancing time recovers
    clock.set_time(6);
    assert_eq!(clock.now(), Ok(Timestamp { time: 6, count: 0 }));
}

#[test]
fn time_before_the_epoch_reports_source_read_failure() {
    let before_1970 = SystemTime::UNIX_EPOCH
        .checked_sub(Duration::from_secs(1))
        .expect("a time before the epoch");
    assert_eq!(
        WallMST::from_timespec(before_1970),
        Err(Error::SourceReadFailure)
    );
    let before_2020 = SystemTime::UNIX_EPOCH + Duration::from_secs(EPOCH_2020 - 86_400);
    assert_eq!(
        WallMST::from_timespec(before_2020),
        Err(Error::SourceReadFailure)
    );
}

#[test]
fn encodes_fields_big_endian() {
    let ts = Timestamp {
        time: WallMST(0x01020304, 0x0506),
        count: 0x0708,
    };
    assert_eq!(ts.to_bytes(), [1, 2, 3, 4, 5, 6, 7, 8]);
    assert_eq!(Timestamp::<WallMST>::from_bytes([1, 2, 3, 4, 5, 6, 7, 8]), ts);
}

#[test]
fn byte_order_matches_timestamp_order_on_ties() {
    let a = Timestamp {
        time: WallMST(7, 0xffff),
        count: 0,
    };
    let b = Timestamp {
        time: WallMST(8, 0),
        count: 0xffff,
    };
    assert!(a < b);
    assert!(a.to_bytes() < b.to_bytes());
    let c = Timestamp {
        time: WallMST(8, 0),
        count: 1,
    };
    assert!(c < b && c.to_bytes() < b.to_bytes());
}

#[test]
fn quantizes_nanoseconds_to_nearest_tick() {
    assert_eq!(
        WallMST::from_unix_parts(EPOCH_2020, 7629),
        WallMST(0, 0)
    );
    assert_eq!(
        WallMST::from_unix_parts(EPOCH_2020, 7630),
        WallMST(0, 1)
    );
    assert_eq!(
        WallMST::from_unix_parts(EPOCH_2020, 15259),
        WallMST(0, 1)
    );
    // almost a full second rounds up and carries into the seconds
    assert_eq!(
        WallMST::from_unix_parts(EPOCH_2020 + 1, 999_999_999),
        WallMST(2, 0)
    );
}

#[test]
fn rejects_durations_before_the_2020_epoch() {
    let early = Duration::from_secs(EPOCH_2020 - 1);
    assert_eq!(
        WallMST::from_since_epoch(early),
        Err(Error::SourceReadFailure)
    );
    let at_epoch = Duration::from_secs(EPOCH_2020);
    assert_eq!(WallMST::from_since_epoch(at_epoch), Ok(WallMST(0, 0)));
}

#[test]
fn tick_count_round_trips() {
    // the raw tick form still clamps below the epoch, as its contract says
    assert_eq!(WallMST::of_u64(0), WallMST(0, 0));
    let w = WallMST(123, 456);
    assert_eq!(WallMST::of_u64(w.as_u64()), w);
}

#[test]
fn duration_round_trips_through_std() {
    let w = WallMST(123, 456);
    let d = w.duration_since_epoch().expect("in range");
    assert_eq!(d.as_secs(), EPOCH_2020 + 123);
    let w2 = WallMST::from_since_epoch(d).expect("from duration");
    assert_eq!(w2, w);
}

#[test]
fn system_time_orders_as_wall_clock() {
    let earlier = WallMST(0, 0xffff);
    let later = WallMST(1, 0);
    let se = earlier.as_systemtime().expect("in range");
    let sl = later.as_systemtime().expect("in range");
    assert!(se < sl);
    assert!(later.elapsed_since(earlier).as_nanos() > 0);
}
