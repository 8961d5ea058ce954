use hostfix::counter::{render_u64, CounterRecord};

#[test]
fn fresh_record_starts_at_zero() {
    let c = CounterRecord::new(7);
    assert_eq!(c.successful, 0);
    assert_eq!(c.total, 7);
}

#[test]
fn successes_accumulate() {
    let mut c = CounterRecord::new(3);
    c.record_success();
    c.record_success();
    assert_eq!(c.successful, 2);
    assert_eq!(c.total, 3);
}

#[test]
fn decimal_rendering_is_exact() {
    assert_eq!(render_u64(0), "0");
    assert_eq!(render_u64(7), "7");
    assert_eq!(render_u64(10), "10");
    assert_eq!(render_u64(600), "600");
    assert_eq!(render_u64(12345), "12345");
    assert_eq!(render_u64(u64::MAX), "18446744073709551615");
}

#[test]
fn summary_line_is_exact() {
    let mut c = CounterRecord::new(5);
    c.record_success();
    c.record_success();
    c.record_success();
    assert_eq!(c.summary_line(), "Successful requests: 3/5");
}

#[test]
fn summary_line_with_no_successes() {
    let c = CounterRecord::new(2);
    assert_eq!(c.summary_line(), "Successful requests: 0/2");
}
