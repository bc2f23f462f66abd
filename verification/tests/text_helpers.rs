use token_use::float_bits::bits_round_to_i64;
use token_use::text::{
    i64_to_decimal, is_blank, strip_prefix, text_less, trim_trailing_zero, u64_to_decimal,
};

#[test]
fn decimal_rendering_matches_to_string() {
    for n in [0u64, 7, 10, 99, 100, 12_345, u64::MAX] {
        assert_eq!(u64_to_decimal(n), n.to_string());
    }
    for x in [0i64, -1, 42, -42, i64::MIN, i64::MAX] {
        assert_eq!(i64_to_decimal(x), x.to_string());
    }
}

#[test]
fn trailing_zero_is_trimmed() {
    assert_eq!(trim_trailing_zero("12.0".to_string()), "12");
    assert_eq!(trim_trailing_zero("12.4".to_string()), "12.4");
    assert_eq!(trim_trailing_zero("100".to_string()), "100");
    assert_eq!(trim_trailing_zero(".0".to_string()), "");
}

#[test]
fn prefix_stripping() {
    assert_eq!(strip_prefix("backend:abc", "backend:"), Some("abc".to_string()));
    assert_eq!(strip_prefix("device", "backend:"), None);
    assert_eq!(strip_prefix("backend:", "backend:"), Some(String::new()));
}

#[test]
fn blank_means_trimmed_empty() {
    for s in ["", " ", "\t\n", "\u{3000}", "\u{2003} "] {
        assert_eq!(is_blank(s), s.trim().is_empty());
    }
    for s in ["a", " token ", "\u{200B}"] {
        assert_eq!(is_blank(s), s.trim().is_empty());
    }
}

#[test]
fn lexicographic_order_matches_str_order() {
    let words = ["", "a", "ab", "b", "alice", "bob", "Bob", "é", "z"];
    for a in words {
        for b in words {
            assert_eq!(text_less(a, b), a < b, "{a} vs {b}");
        }
    }
}

#[test]
fn rounding_matches_f64_round_cast() {
    let values = [
        0.0, -0.0, 0.49, 0.5, 1.5, 2.5, -2.5, 9.0, 27.4, 1e10, -1e10, 4.5e15, 1e19, -1e19,
        f64::NAN, f64::INFINITY, f64::NEG_INFINITY, 5e-324, 0.49999999999999994,
    ];
    for v in values {
        assert_eq!(bits_round_to_i64(v.to_bits()), v.round() as i64, "{v}");
    }
}
