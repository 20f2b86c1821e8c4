use chrono::TimeDelta;
use vacuum::duration::duration_display;

fn with_chrono(seconds: i64) -> String {
    let d = TimeDelta::try_seconds(seconds).unwrap();
    if d.num_days() != 0 {
        format!(
            "D{:+} {:02}:{:02}",
            d.num_days(),
            (d.num_hours() % 24).abs(),
            (d.num_minutes() % 60).abs()
        )
    } else {
        let sign = if d.num_seconds() < 0 { "-" } else { "+" };
        format!(
            "T{}{:02}:{:02}:{:02}",
            sign,
            d.num_hours().abs(),
            (d.num_minutes() % 60).abs(),
            (d.num_seconds() % 60).abs()
        )
    }
}

#[test]
fn short_spans_carry_the_sign_of_their_seconds() {
    assert_eq!(duration_display(3661), "T+01:01:01");
    assert_eq!(duration_display(-5), "T-00:00:05");
    assert_eq!(duration_display(0), "T+00:00:00");
}

#[test]
fn long_spans_carry_the_sign_of_their_days() {
    assert_eq!(duration_display(25 * 3600 + 3 * 60), "D+1 01:03");
    assert_eq!(duration_display(-(25 * 3600 + 3 * 60)), "D-1 01:03");
}

#[test]
fn a_day_is_where_the_form_changes() {
    assert_eq!(duration_display(86_399), "T+23:59:59");
    assert_eq!(duration_display(86_400), "D+1 00:00");
    assert_eq!(duration_display(86_401), "D+1 00:00");
    assert_eq!(duration_display(-86_399), "T-23:59:59");
    assert_eq!(duration_display(-86_400), "D-1 00:00");
    assert_eq!(duration_display(2 * 86_400 - 1), "D+1 23:59");
    assert_eq!(duration_display(-(2 * 86_400 - 1)), "D-1 23:59");
}

#[test]
fn seconds_are_dropped_from_long_spans() {
    assert_eq!(duration_display(86_400 + 59), "D+1 00:00");
    assert_eq!(duration_display(86_400 + 60), "D+1 00:01");
    assert_eq!(duration_display(10 * 86_400 + 12 * 3600 + 34 * 60 + 56), "D+10 12:34");
    assert_eq!(duration_display(-(400 * 86_400 + 7 * 3600 + 8 * 60 + 9)), "D-400 07:08");
}

#[test]
fn single_seconds_and_minutes_are_padded() {
    assert_eq!(duration_display(1), "T+00:00:01");
    assert_eq!(duration_display(-1), "T-00:00:01");
    assert_eq!(duration_display(59), "T+00:00:59");
    assert_eq!(duration_display(60), "T+00:01:00");
    assert_eq!(duration_display(-60), "T-00:01:00");
    assert_eq!(duration_display(3_599), "T+00:59:59");
    assert_eq!(duration_display(3_600), "T+01:00:00");
    assert_eq!(duration_display(36_000), "T+10:00:00");
}

#[test]
fn the_longest_spans_are_written_in_full() {
    assert_eq!(duration_display(i64::MAX), "D+106751991167300 15:30");
    assert_eq!(duration_display(i64::MIN), "D-106751991167300 15:30");
    assert_eq!(duration_display(i64::MIN + 1), "D-106751991167300 15:30");
}

#[test]
fn spans_are_written_as_with_chrono() {
    let mut spans: Vec<i64> = Vec::new();
    for seconds in -200_000..200_000 {
        spans.push(seconds);
    }
    for step in 0..2_000 {
        spans.push(step * 7_919_003 + 13);
        spans.push(-(step * 7_919_003 + 13));
    }
    for seconds in spans {
        assert_eq!(duration_display(seconds), with_chrono(seconds), "{}", seconds);
    }
}
