use comparison_app::text::{decimal_text, is_all_ascii_digits, split_first_part, str_equals, trim_matches_char};
use comparison_app::time::UtcInstant;

#[test]
fn decimal_text_matches_to_string() {
    for n in [0u64, 7, 10, 1234, u64::MAX] {
        assert_eq!(decimal_text(n), n.to_string());
    }
}

#[test]
fn strings_compare_by_characters() {
    assert!(str_equals("çay", "çay"));
    assert!(!str_equals("çay", "cay"));
    assert!(!str_equals("a", "ab"));
}

#[test]
fn digit_checks_accept_only_ascii_digits() {
    assert!(is_all_ascii_digits(""));
    assert!(is_all_ascii_digits("0123456789"));
    assert!(!is_all_ascii_digits("12 3"));
    assert!(!is_all_ascii_digits("١٢"));
}

#[test]
fn quotes_and_key_parts_are_cut_as_std_does() {
    assert_eq!(trim_matches_char("\"\"12\"\"", '"'), "12");
    assert_eq!(trim_matches_char("\"\"", '"'), "");
    assert_eq!(trim_matches_char("a\"b", '"'), "a\"b");
    assert_eq!(split_first_part("1234_11_0_0", '_'), "1234");
    assert_eq!(split_first_part("1234", '_'), "1234");
    assert_eq!(split_first_part("_x", '_'), "");
}

#[test]
fn instants_order_and_step_by_hours() {
    let a = UtcInstant::from_unix(1_000, 5).unwrap();
    let b = UtcInstant::from_unix(1_000, 6).unwrap();
    assert!(b.is_at_or_after(&a));
    assert!(!a.is_at_or_after(&b));
    assert!(a.is_at_or_after(&a));
    let later = a.add_hours(8);
    assert_eq!(later.seconds, 1_000 + 8 * 3600);
    assert_eq!(later.nanos, 5);
    assert_eq!(UtcInstant::from_unix(-1, 0).unwrap().day_number(), -1);
    assert_eq!(UtcInstant::from_unix(86_399, 0).unwrap().day_number(), 0);
    assert!(UtcInstant::from_unix(0, 1_000_000_000).is_none());
}
