use katex::units::{finalize_em, make_em_scaled, valid_unit, valid_unit_str, Measurement};

#[test]
fn test_valid_unit() {
    assert!(valid_unit_str("pt"));
    assert!(valid_unit_str("cm"));
    assert!(valid_unit_str("px"));
    assert!(valid_unit_str("em"));
    assert!(valid_unit_str("ex"));
    assert!(valid_unit_str("mu"));
    assert!(!valid_unit_str("bogus"));
}

#[test]
fn valid_unit_reads_the_measurement_unit() {
    let m = Measurement { number: 2u32, unit: "mu".to_string() };
    assert!(valid_unit(&m));
    let bad = Measurement { number: 2u32, unit: "au".to_string() };
    assert!(!valid_unit(&bad));
    let empty = Measurement { number: 0u32, unit: String::new() };
    assert!(!valid_unit(&empty));
}

#[test]
fn make_em_scaled_formats_whole_and_fractional_lengths() {
    assert_eq!(make_em_scaled(10000), "1em");
    assert_eq!(make_em_scaled(12346), "1.2346em");
    assert_eq!(make_em_scaled(0), "0em");
    assert_eq!(make_em_scaled(1), "0.0001em");
    assert_eq!(make_em_scaled(-1), "-0.0001em");
    assert_eq!(make_em_scaled(-15000), "-1.5em");
}

#[test]
fn make_em_scaled_trims_trailing_zero_digits() {
    assert_eq!(make_em_scaled(5000), "0.5em");
    assert_eq!(make_em_scaled(1200), "0.12em");
    assert_eq!(make_em_scaled(12340000), "1234em");
    assert_eq!(make_em_scaled(10001), "1.0001em");
    assert_eq!(make_em_scaled(-10010), "-1.001em");
}

#[test]
fn finalize_em_trims_and_normalizes() {
    assert_eq!(finalize_em("1.0000".to_string()), "1em");
    assert_eq!(finalize_em("1.2346".to_string()), "1.2346em");
    assert_eq!(finalize_em("1.2500".to_string()), "1.25em");
    assert_eq!(finalize_em("-0.0000".to_string()), "0em");
    assert_eq!(finalize_em("0.0000".to_string()), "0em");
    assert_eq!(finalize_em("12".to_string()), "12em");
    assert_eq!(finalize_em("-1.5000".to_string()), "-1.5em");
    assert_eq!(finalize_em(String::new()), "0em");
}

fn fixed4(scaled: i64) -> String {
    let sign = if scaled < 0 { "-" } else { "" };
    let a = scaled.unsigned_abs();
    format!("{sign}{}.{:04}", a / 10000, a % 10000)
}

#[test]
fn make_em_scaled_matches_trimming_the_plain_rendering() {
    let cases: [i64; 10] =
        [-12345679, -1, -5000, -10000, 0, 1, 1250, 10000, 12345679, 10000000000];
    for &scaled in &cases {
        assert_eq!(
            make_em_scaled(scaled),
            finalize_em(fixed4(scaled)),
            "scaled value: {scaled}"
        );
    }
}
