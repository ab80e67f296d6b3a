use acc_best_laps::text::{
    decimal_string, difference_string, is_paddable, pad_lap_segment, pad_string, str_eq,
    try_pad_string, LINE_LENGTH,
};

#[test]
fn equal_strings_compare_equal() {
    assert!(str_eq("", ""));
    assert!(str_eq("spa", "spa"));
    assert!(str_eq("Nürburgring", "Nürburgring"));
    assert!(!str_eq("spa", "Spa"));
    assert!(!str_eq("spa", "spa "));
    assert!(!str_eq("spa", "sp"));
    assert!(!str_eq("", "a"));
    assert!(!str_eq("Nürburgring", "Nurburgring"));
}

#[test]
fn numbers_are_written_in_decimal() {
    assert_eq!(decimal_string(0), "0");
    assert_eq!(decimal_string(7), "7");
    assert_eq!(decimal_string(10), "10");
    assert_eq!(decimal_string(4322), "4322");
    assert_eq!(decimal_string(1_000_000), "1000000");
    assert_eq!(decimal_string(u64::MAX), "18446744073709551615");
    for n in [1u64, 9, 99, 100, 101, 12345, 9_876_543_210] {
        assert_eq!(decimal_string(n), n.to_string());
    }
}

#[test]
fn differences_carry_their_sign() {
    assert_eq!(difference_string(5, 3), "2");
    assert_eq!(difference_string(3, 5), "-2");
    assert_eq!(difference_string(7, 7), "0");
    assert_eq!(difference_string(110_000, 109_250), "750");
    assert_eq!(difference_string(109_250, 110_000), "-750");
    assert_eq!(difference_string(i64::MAX, i64::MIN), "18446744073709551615");
    assert_eq!(difference_string(i64::MIN, i64::MAX), "-18446744073709551615");
    assert_eq!(difference_string(i64::MIN, 0), "-9223372036854775808");
}

#[test]
fn lap_segments_are_zero_padded() {
    assert_eq!(pad_lap_segment(5, 2), "05");
    assert_eq!(pad_lap_segment(0, 2), "00");
    assert_eq!(pad_lap_segment(59, 2), "59");
    assert_eq!(pad_lap_segment(0, 3), "000");
    assert_eq!(pad_lap_segment(7, 3), "007");
    assert_eq!(pad_lap_segment(78, 3), "078");
    assert_eq!(pad_lap_segment(678, 3), "678");
}

#[test]
fn long_segments_are_left_alone() {
    assert_eq!(pad_lap_segment(4322, 3), "4322");
    assert_eq!(pad_lap_segment(123, 0), "123");
    assert_eq!(pad_lap_segment(0, 0), "0");
    assert_eq!(pad_lap_segment(0, 1), "0");
    assert_eq!(pad_lap_segment(u64::MAX, 3), "18446744073709551615");
    assert_eq!(pad_lap_segment(42, 6), "000042");
}

#[test]
fn short_lines_are_filled_with_blanks() {
    let line = pad_string("Car PB".to_string());
    assert_eq!(line.len(), LINE_LENGTH);
    assert_eq!(line, format!("{:<80}", "Car PB"));
    let empty = pad_string(String::new());
    assert_eq!(empty, " ".repeat(80));
}

#[test]
fn a_full_line_is_left_alone() {
    let full = "x".repeat(80);
    assert_eq!(pad_string(full.clone()), full);
    let almost = "y".repeat(79);
    assert_eq!(pad_string(almost.clone()), format!("{almost} "));
}

#[test]
fn long_lines_are_cut() {
    let long = format!("{}{}", "a".repeat(80), "tail");
    assert_eq!(pad_string(long), "a".repeat(80));
    let longer = "0123456789".repeat(9);
    assert_eq!(pad_string(longer), "0123456789".repeat(8));
}

#[test]
fn width_is_counted_in_bytes() {
    let line = pad_string("Nürburgring GP".to_string());
    assert_eq!(line.len(), 80);
    assert_eq!(line.chars().count(), 79);
    assert_eq!(line, format!("Nürburgring GP{}", " ".repeat(65)));
    let sign = pad_string("∞".to_string());
    assert_eq!(sign.len(), 80);
    assert_eq!(sign, format!("∞{}", " ".repeat(77)));
}

#[test]
fn a_long_line_is_cut_between_characters() {
    let text = format!("{}ü{}", "a".repeat(78), "b".repeat(10));
    assert!(is_paddable(&text));
    let line = pad_string(text);
    assert_eq!(line, format!("{}ü", "a".repeat(78)));
    assert_eq!(line.len(), 80);
}

#[test]
fn a_cut_inside_a_character_is_refused() {
    let text = format!("{}ü{}", "a".repeat(79), "b".repeat(10));
    assert!(!is_paddable(&text));
    assert_eq!(try_pad_string(text), None);
    let sign = format!("{}∞", "a".repeat(78));
    assert!(!is_paddable(&sign));
    assert_eq!(try_pad_string(sign), None);
}

#[test]
fn every_text_that_fits_can_be_padded() {
    for text in ["", "abc", "Nürburgring GP", "∞∞∞"] {
        assert!(is_paddable(text));
        let line = try_pad_string(text.to_string()).expect("fits");
        assert_eq!(line.len(), 80);
        assert!(line.starts_with(text));
        assert!(line[text.len()..].chars().all(|c| c == ' '));
    }
    let exact = format!("{}ü", "a".repeat(78));
    assert!(is_paddable(&exact));
    assert_eq!(try_pad_string(exact.clone()), Some(exact));
}
