use hybrid_clocks::{Timestamp, WallMST, TICKS_PER_SEC};
use suppositions::generators::{u16s, u64s, Generator, GeneratorObject, GeneratorSized};
use suppositions::property;

fn wallclocks2() -> Box<dyn GeneratorObject<Item = WallMST>> {
    u64s()
        .map(|val| {
            let limit = u64::max_value() >> 16;
            let scaled = val & limit;
            WallMST::of_u64(scaled as u64)
        })
        .boxed()
}

fn wall_timestamps<C: Generator + 'static>(
    times: C,
) -> Box<dyn GeneratorObject<Item = Timestamp<C::Item>>> {
    let counts = u16s();
    (times, counts)
        .map(|(time, count)| Timestamp { time, count })
        .boxed()
}

#[test]
fn should_round_trip_via_key() {
    property(wall_timestamps(wallclocks2())).check(|ts| {
        let bs = ts.to_bytes();
        let ts2 = Timestamp::<WallMST>::from_bytes(bs);
        ts == ts2
    });
}

#[test]
fn should_round_trip_via_timespec() {
    // We expect millisecond precision, so ensure we're within +/- 0.5ms
    let allowable_error: u128 = (TICKS_PER_SEC / 1000 / 2) as u128;

    property(wallclocks2()).check(|wc| {
        let tsp = wc.as_systemtime().expect("wall time");
        let wc2 = WallMST::from_timespec(tsp).expect("from time");
        let diff = wc.elapsed_since(wc2).as_nanos();
        assert!(
            diff <= allowable_error,
            "left:{:#?}; tsp: {:?}; right:{:#?}; diff:{}",
            wc,
            tsp,
            wc2,
            diff
        );
    });
}

#[test]
fn timespec_should_order_as_timestamps() {
    property((wallclocks2(), wallclocks2())).check(|(ta, tb)| {
        let ba = ta.as_systemtime().expect("wall time");
        let bb = tb.as_systemtime().expect("wall time");
        ta.cmp(&tb) == ba.cmp(&bb)
    })
}

#[test]
fn byte_repr_should_order_as_timestamps() {
    property((
        wall_timestamps(wallclocks2()),
        wall_timestamps(wallclocks2()),
    ))
    .check(|(ta, tb)| {
        let ba = ta.to_bytes();
        let bb = tb.to_bytes();
        ta.cmp(&tb) == ba.cmp(&bb)
    })
}
