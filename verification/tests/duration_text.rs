use std::time::Duration as StdDuration;
use wrap_command::duration::{duration_text, Duration};

fn text_of(nanos: u128) -> String {
    duration_text(&Duration::from_nanos(nanos))
}

#[test]
fn duration_text_examples() {
    assert_eq!(text_of(0), "0ns");
    assert_eq!(text_of(999), "999ns");
    assert_eq!(text_of(1_000), "1\u{b5}s");
    assert_eq!(text_of(2_250), "2.25\u{b5}s");
    assert_eq!(text_of(100_000_000), "100ms");
    assert_eq!(text_of(1_500_000), "1.5ms");
    assert_eq!(text_of(1_500_000_000), "1.5s");
    assert_eq!(text_of(1_000_000_001), "1.000000001s");
    assert_eq!(text_of(3_600_000_000_000), "3600s");
}

#[test]
fn duration_text_matches_std_debug() {
    let samples: Vec<(u64, u32)> = vec![
        (0, 0),
        (0, 1),
        (0, 10),
        (0, 999),
        (0, 1_000),
        (0, 1_001),
        (0, 10_500),
        (0, 999_999),
        (0, 1_000_000),
        (0, 1_000_100),
        (0, 123_456_789),
        (0, 999_999_999),
        (1, 0),
        (1, 5),
        (1, 500_000_000),
        (59, 120_000_000),
        (86_400, 0),
        (12_345, 678_900_000),
        (u64::MAX, 999_999_999),
        (u64::MAX, 0),
    ];
    for (secs, nanos) in samples {
        let ours = duration_text(&Duration::new(secs, nanos));
        let std_text = format!("{:?}", StdDuration::new(secs, nanos));
        assert_eq!(ours, std_text, "{}s {}ns", secs, nanos);
    }
    let mut n: u128 = 1;
    while n < 10_000_000_000_000 {
        for k in [n, n * 3 + 7, n * 17 / 3] {
            let std_text = format!("{:?}", StdDuration::from_nanos(k as u64));
            assert_eq!(text_of(k), std_text, "{}", k);
        }
        n *= 10;
    }
}
