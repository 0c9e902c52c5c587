use pong::text::score_text;

#[test]
fn score_text_of_single_digits() {
    assert_eq!(score_text(0), "0");
    assert_eq!(score_text(1), "1");
    assert_eq!(score_text(9), "9");
}

#[test]
fn score_text_of_longer_numbers() {
    assert_eq!(score_text(10), "10");
    assert_eq!(score_text(42), "42");
    assert_eq!(score_text(100), "100");
    assert_eq!(score_text(9_876_543_210), "9876543210");
}

#[test]
fn score_text_of_the_largest_score() {
    assert_eq!(score_text(u64::MAX), "18446744073709551615");
}

#[test]
fn score_text_agrees_with_the_standard_formatting() {
    let mut n: u64 = 0;
    while n < 2_000 {
        assert_eq!(score_text(n), format!("{}", n));
        n += 1;
    }
    let mut big: u64 = 1;
    while big < u64::MAX / 7 {
        assert_eq!(score_text(big), format!("{}", big));
        big = big * 7 + 3;
    }
}
