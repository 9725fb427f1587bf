use newfm::access::{hash_api_token, session_key, session_token};
use newfm::ids::Uuid;
use newfm::ratelimit::RateLimiter;
use newfm::text::{
    chars_of, contains, contains_char, find, i64_to_text, join2, join3, join4, parse_i64,
    parse_u64, starts_with, strip_prefix, text_before, text_between, u64_to_text,
};
use newfm::time::{shift, shift_units, Timestamp, MAX_SECS, MIN_SECS};

#[test]
fn decimal_notation_reads_back() {
    for n in [0, 7, 10, -1, 1234567890, i64::MAX, i64::MIN] {
        assert_eq!(i64_to_text(n), n.to_string());
        assert_eq!(parse_i64(&i64_to_text(n)), Some(n));
    }
    for n in [0, 9, 10, 99, 100, u64::MAX] {
        assert_eq!(u64_to_text(n), n.to_string());
        assert_eq!(parse_u64(&u64_to_text(n)), Some(n));
    }
}

#[test]
fn only_decimal_notation_is_read() {
    for s in ["", "-", "+", " 1", "1 ", "1a", "--1", "+-1", "9223372036854775808", "1.0"] {
        assert_eq!(parse_i64(s), s.parse::<i64>().ok(), "{s:?}");
        assert_eq!(parse_u64(s), s.parse::<u64>().ok(), "{s:?}");
    }
    assert_eq!(parse_i64("+12"), Some(12));
    assert_eq!(parse_i64("-007"), Some(-7));
    assert_eq!(parse_u64("+12"), Some(12));
    assert_eq!(parse_u64("-1"), None);
    assert_eq!(parse_u64("18446744073709551616"), None);
}

#[test]
fn texts_are_joined_and_cut() {
    assert_eq!(join2("ä", "b"), "äb");
    assert_eq!(join3("a", "", "c"), "ac");
    assert_eq!(join4("a", "b", "c", "d"), "abcd");
    assert_eq!(chars_of("añb"), vec!['a', 'ñ', 'b']);
    assert_eq!(text_between(&chars_of("añbc"), 1, 3), "ñb");
}

#[test]
fn patterns_are_found() {
    assert_eq!(find("añbñ", "ñ"), Some(1));
    assert_eq!(find("abc", "d"), None);
    assert_eq!(find("abc", ""), Some(0));
    assert_eq!(find("", "a"), None);
    assert!(contains("hello", "ell"));
    assert!(!contains("hello", "elo"));
    assert!(starts_with("Bearer x", "Bearer "));
    assert!(!starts_with("bearer x", "Bearer "));
    assert!(contains_char("a/b", '/'));
    assert!(!contains_char("ab", '/'));
}

#[test]
fn what_stands_before_a_pattern_lacks_it() {
    assert_eq!(text_before("a, b, c", ","), "a");
    assert_eq!(text_before("abc", ","), "abc");
    assert!(!contains(&text_before("x<a href>y<a href>", "<a href"), "<a href"));
    assert_eq!(strip_prefix("session:1", "session:"), Some("1".to_string()));
    assert_eq!(strip_prefix("sess", "session:"), None);
}

#[test]
fn instants_are_shifted_exactly() {
    let t = Timestamp { secs: 10, nanos: 600_000_000 };
    assert_eq!(shift(&t, 1_500), Some(Timestamp { secs: 12, nanos: 100_000_000 }));
    assert_eq!(shift(&t, -11_000), Some(Timestamp { secs: -1, nanos: 600_000_000 }));
    assert_eq!(shift_units(&t, 2, 86_400_000), Some(Timestamp { secs: 172_810, nanos: 600_000_000 }));
}

#[test]
fn instants_out_of_range_do_not_exist() {
    let last = Timestamp { secs: MAX_SECS, nanos: 999_000_000 };
    assert_eq!(shift(&last, 0), Some(last));
    assert_eq!(shift(&last, 1), None);
    let first = Timestamp { secs: MIN_SECS, nanos: 0 };
    assert_eq!(shift(&first, 0), Some(first));
    assert_eq!(shift(&first, -1), None);
    assert_eq!(shift_units(&Timestamp { secs: 0, nanos: 0 }, i64::MAX, 86_400_000), None);
    assert_eq!(shift_units(&Timestamp { secs: 0, nanos: 0 }, i64::MIN, 1_000), None);
}

#[test]
fn only_existing_instants_are_well_formed() {
    assert!(Timestamp { secs: 59, nanos: 1_999_999_999 }.is_wf());
    assert!(!Timestamp { secs: 58, nanos: 1_000_000_000 }.is_wf());
    assert!(!Timestamp { secs: 59, nanos: 2_000_000_000 }.is_wf());
    assert!(Timestamp { secs: -1, nanos: 1_000_000_000 }.is_wf());
    assert!(!Timestamp { secs: MAX_SECS + 1, nanos: 0 }.is_wf());
    assert!(!Timestamp { secs: MIN_SECS - 1, nanos: 0 }.is_wf());
    assert!(Timestamp { secs: MIN_SECS, nanos: 0 }.is_wf());
}

#[test]
fn milliseconds_since_the_epoch_are_whole() {
    assert_eq!(Timestamp { secs: 1, nanos: 999_999_999 }.timestamp_millis(), 1_999);
    assert_eq!(Timestamp { secs: -1, nanos: 500_000_000 }.timestamp_millis(), -500);
}

#[test]
fn well_formed_instants_are_those_of_the_calendar() {
    for (secs, nanos) in [
        (0, 0),
        (59, 1_500_000_000),
        (58, 1_500_000_000),
        (-1, 1_000_000_000),
        (MAX_SECS, 999_999_999),
        (MAX_SECS + 1, 0),
        (MIN_SECS, 0),
        (MIN_SECS - 1, 0),
        (0, 2_000_000_000),
    ] {
        assert_eq!(
            Timestamp { secs, nanos }.is_wf(),
            chrono::DateTime::from_timestamp(secs, nanos).is_some(),
            "{secs} {nanos}"
        );
    }
}

#[test]
fn uuids_are_hyphenated() {
    let id = Uuid { bits: 0x0123_4567_89ab_cdef_0011_2233_4455_6677 };
    assert_eq!(session_token(id), "01234567-89ab-cdef-0011-223344556677");
    assert_eq!(session_key(id), "session:01234567-89ab-cdef-0011-223344556677");
}

#[test]
fn api_tokens_are_hashed_with_sha256() {
    assert_eq!(
        hash_api_token("abc"),
        "ba7816bf8f01cfea414140de5dae2223b00361a396177a9cb410ff61f20015ad"
    );
    assert_eq!(
        hash_api_token(""),
        "e3b0c44298fc1c149afbf4c8996fb92427ae41e4649b934ca495991b7852b855"
    );
}

#[test]
fn slots_are_spaced_by_the_interval() {
    let mut limiter = RateLimiter::new(1_000, 50);
    assert_eq!(limiter.acquire(50), 0);
    assert_eq!(limiter.acquire(60), 990);
    assert_eq!(limiter.acquire(60), 1_990);
    assert_eq!(limiter.acquire(10_000), 0);
}

#[test]
fn a_penalty_holds_back_everybody() {
    let mut limiter = RateLimiter::new(1_000, 0);
    assert_eq!(limiter.acquire(0), 0);
    limiter.penalize(100, 60_000);
    assert_eq!(limiter.acquire(200), 59_900);
    // A shorter penalty takes nothing back.
    limiter.penalize(200, 10);
    assert_eq!(limiter.acquire(200), 60_900);
}

#[test]
fn a_caller_after_the_next_slot_does_not_wait() {
    let mut limiter = RateLimiter::new(1_000, 0);
    assert_eq!(limiter.acquire(5_000), 0);
    limiter.penalize(5_000, u128::MAX);
    assert_eq!(limiter.acquire(5_000), u128::MAX - 5_000);
}
