use std::time::Duration;

use depthai::error::{
    cstring, duration_from_ns, duration_to_ns, fill_step, fixed_string, nonempty_lines, poll_status,
    FillStep, PollStatus,
};
use depthai::DepthaiError;

#[test]
fn duration_conversions_saturate() {
    assert_eq!(duration_from_ns(-5), Duration::ZERO);
    assert_eq!(duration_from_ns(1_500), Duration::from_nanos(1_500));
    assert_eq!(duration_to_ns(Duration::from_secs(u64::MAX)), i64::MAX);
    assert_eq!(duration_to_ns(Duration::from_millis(2)), 2_000_000);
}

#[test]
fn duration_round_trip_keeps_nonnegative_counts() {
    for ns in [0i64, 1, 999, 1_000_000_007, i64::MAX] {
        assert_eq!(duration_to_ns(duration_from_ns(ns)), ns);
    }
    assert_eq!(duration_to_ns(duration_from_ns(i64::MIN)), 0);
}

#[test]
fn fixed_string_stops_at_nul() {
    assert_eq!(fixed_string(b"abc\0zzz"), "abc");
    assert_eq!(fixed_string(b"abc"), "abc");
}

#[test]
fn fixed_string_edge_cases() {
    assert_eq!(fixed_string(b""), "");
    assert_eq!(fixed_string(b"\0abc"), "");
    assert_eq!(fixed_string("h\u{e9}\0".as_bytes()), "h\u{e9}");
    assert_eq!(fixed_string(&[b'a', 0xff, b'b']), "a\u{fffd}b");
}

#[test]
fn cstring_appends_nul_or_reports_the_first_one() {
    assert_eq!(cstring("abc").unwrap(), b"abc\0".to_vec());
    assert_eq!(cstring("").unwrap(), b"\0".to_vec());
    match cstring("ab\0c\0") {
        Err(DepthaiError::Nul { position, bytes }) => {
            assert_eq!(position, 2);
            assert_eq!(bytes, b"ab\0c\0".to_vec());
        }
        other => panic!("expected a NUL error, got {:?}", other),
    }
}

#[test]
fn nonempty_lines_split_like_str_lines() {
    assert_eq!(nonempty_lines("a\nb\n"), vec!["a", "b"]);
    assert_eq!(nonempty_lines("\n\nx\r\ny\n\n"), vec!["x", "y"]);
    assert_eq!(nonempty_lines(""), Vec::<String>::new());
    assert_eq!(nonempty_lines("only"), vec!["only"]);
    assert_eq!(nonempty_lines("a\r"), vec!["a\r"]);
    assert_eq!(nonempty_lines("\r\n"), Vec::<String>::new());
    let s = "inputs/left\n/out\n\ninputs/right";
    let expected: Vec<String> = s.lines().filter(|l| !l.is_empty()).map(str::to_owned).collect();
    assert_eq!(nonempty_lines(s), expected);
}

#[test]
fn fill_step_grows_once() {
    // A buffer of 2 that was told about 5 items grows to 5 and fills again.
    assert_eq!(fill_step(2, 5, false), FillStep::Grow(5));
    assert_eq!(fill_step(5, 5, true), FillStep::Keep(5));
    // Once grown it never grows again, and keeps no more than it holds.
    assert_eq!(fill_step(5, 9, true), FillStep::Keep(5));
    // A count that fits is kept as reported.
    assert_eq!(fill_step(4, 1, false), FillStep::Keep(1));
    assert_eq!(fill_step(4, 4, false), FillStep::Keep(4));
    assert_eq!(fill_step(0, 0, false), FillStep::Keep(0));
}

#[test]
fn poll_codes() {
    assert_eq!(poll_status(1), PollStatus::Ready);
    assert_eq!(poll_status(0), PollStatus::Empty);
    assert_eq!(poll_status(-1), PollStatus::Failed);
    assert_eq!(poll_status(2), PollStatus::Failed);
}
