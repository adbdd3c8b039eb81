use sub_rate::counter::RateCounter;

#[test]
fn new_counter_starts_at_zero() {
    let c = RateCounter::new();
    assert_eq!(c.current(), 0);
    assert_eq!(c.count, 0);
    assert_eq!(c.last_seen, 0);
}

#[test]
fn record_arrival_increments_by_one() {
    let mut c = RateCounter::new();
    c.record_arrival();
    assert_eq!(c.current(), 1);
    c.record_arrival();
    assert_eq!(c.current(), 2);
}

#[test]
fn many_arrivals_are_all_counted() {
    // No lost updates: c arrivals in a row, with no reporter read
    // interleaved, leave the counter at exactly c.
    let mut c = RateCounter::new();
    let total: u64 = 1000;
    let mut i: u64 = 0;
    while i < total {
        c.record_arrival();
        i += 1;
    }
    assert_eq!(c.current(), total);
}

#[test]
fn report_tick_returns_delta_and_moves_snapshot() {
    let mut c = RateCounter::new();
    c.record_arrival();
    c.record_arrival();
    c.record_arrival();
    assert_eq!(c.report_tick(), 3);
    assert_eq!(c.last_seen, 3);
    assert_eq!(c.current(), 3);
}

#[test]
fn tick_with_no_arrivals_reports_zero() {
    let mut c = RateCounter::new();
    c.record_arrival();
    assert_eq!(c.report_tick(), 1);
    assert_eq!(c.report_tick(), 0);
}

#[test]
fn counter_never_decreases_across_operations() {
    let mut c = RateCounter::new();
    let mut previous: u64 = c.current();
    let mut i: u64 = 0;
    while i < 50 {
        if i % 7 == 3 {
            c.report_tick();
        } else {
            c.record_arrival();
        }
        assert!(c.current() >= previous);
        previous = c.current();
        i += 1;
    }
}
