use asset_service::pagination::{parse_decimal, Pagination, DEFAULT_PAGE, DEFAULT_PER_PAGE};

#[test]
fn decimal_texts_are_read() {
    assert_eq!(parse_decimal("0"), Some(0));
    assert_eq!(parse_decimal("2"), Some(2));
    assert_eq!(parse_decimal("10"), Some(10));
    assert_eq!(parse_decimal("007"), Some(7));
    assert_eq!(parse_decimal("+7"), Some(7));
    assert_eq!(parse_decimal("-3"), Some(-3));
    assert_eq!(parse_decimal("-0"), Some(0));
    assert_eq!(parse_decimal("1234567890"), Some(1234567890));
}

#[test]
fn other_texts_are_not_read() {
    for text in ["", "+", "-", "abc", "1x", "x1", " 1", "1 ", "1_000", "1.5", "--1", "+-1", "٣", "1e3"] {
        assert_eq!(parse_decimal(text), None, "{:?}", text);
    }
}

#[test]
fn decimal_range_is_that_of_64_bits() {
    assert_eq!(parse_decimal("9223372036854775807"), Some(i64::MAX));
    assert_eq!(parse_decimal("+9223372036854775807"), Some(i64::MAX));
    assert_eq!(parse_decimal("9223372036854775808"), None);
    assert_eq!(parse_decimal("-9223372036854775808"), Some(i64::MIN));
    assert_eq!(parse_decimal("-9223372036854775809"), None);
    assert_eq!(parse_decimal("99999999999999999999999999999999999999999999"), None);
    assert_eq!(parse_decimal("000000000000000000000000000000000000000000012"), Some(12));
}

#[test]
fn decimal_agrees_with_the_standard_reading() {
    let texts = [
        "0", "1", "-1", "+1", "42", "0042", "-0042", "", "+", "-", "4 2", "٤٢", "9223372036854775807",
        "9223372036854775808", "-9223372036854775808", "-9223372036854775809", "18446744073709551616",
        "1a", "a1", "++1", "1+", "１２",
    ];
    for text in texts {
        assert_eq!(parse_decimal(text), text.parse::<i64>().ok(), "{:?}", text);
    }
}

#[test]
fn missing_parameters_take_defaults() {
    assert_eq!(DEFAULT_PAGE, 1);
    assert_eq!(DEFAULT_PER_PAGE, 10);
    assert_eq!(Pagination::new(None, None), Pagination { page: 1, per_page: 10 });
    assert_eq!(Pagination::new(Some(3), None), Pagination { page: 3, per_page: 10 });
    assert_eq!(Pagination::new(None, Some(25)), Pagination { page: 1, per_page: 25 });
    assert_eq!(Pagination::from_query(None, None), Pagination { page: 1, per_page: 10 });
}

#[test]
fn unparsable_parameters_take_defaults() {
    assert_eq!(Pagination::from_query(Some("two"), Some("1")), Pagination { page: 1, per_page: 1 });
    assert_eq!(Pagination::from_query(Some("2"), Some("")), Pagination { page: 2, per_page: 10 });
    assert_eq!(
        Pagination::from_query(Some("99999999999999999999"), Some("1.5")),
        Pagination { page: 1, per_page: 10 }
    );
}

#[test]
fn parsable_parameters_are_taken_as_they_are() {
    assert_eq!(Pagination::from_query(Some("2"), Some("1")), Pagination { page: 2, per_page: 1 });
    assert_eq!(Pagination::from_query(Some("0"), Some("-5")), Pagination { page: 0, per_page: -5 });
}

#[test]
fn offset_is_rows_before_the_page() {
    assert_eq!(Pagination { page: 1, per_page: 10 }.offset(), Some(0));
    assert_eq!(Pagination { page: 2, per_page: 1 }.offset(), Some(1));
    assert_eq!(Pagination { page: 3, per_page: 10 }.offset(), Some(20));
    assert_eq!(Pagination { page: 7, per_page: 25 }.offset(), Some(150));
    assert_eq!(Pagination { page: 0, per_page: 10 }.offset(), Some(-10));
    assert_eq!(Pagination { page: -1, per_page: -3 }.offset(), Some(6));
    assert_eq!(Pagination { page: 5, per_page: 0 }.offset(), Some(0));
}

#[test]
fn offset_outside_64_bits_is_none() {
    assert_eq!(Pagination { page: i64::MAX, per_page: 2 }.offset(), None);
    assert_eq!(Pagination { page: i64::MIN, per_page: 1 }.offset(), None);
    assert_eq!(Pagination { page: i64::MIN, per_page: 0 }.offset(), Some(0));
    assert_eq!(Pagination { page: i64::MAX, per_page: 1 }.offset(), Some(i64::MAX - 1));
    assert_eq!(Pagination { page: 2, per_page: i64::MAX }.offset(), Some(i64::MAX));
    assert_eq!(Pagination { page: 3, per_page: i64::MAX }.offset(), None);
    assert_eq!(Pagination { page: 0, per_page: i64::MIN }.offset(), None);
    assert_eq!(Pagination { page: 2, per_page: i64::MIN }.offset(), Some(i64::MIN));
}

#[test]
fn limit_is_the_page_size() {
    assert_eq!(Pagination { page: 4, per_page: 17 }.limit(), 17);
    assert_eq!(Pagination { page: 4, per_page: -2 }.limit(), -2);
}

#[test]
fn total_pages_is_the_quotient_rounded_up() {
    let ten = Pagination { page: 1, per_page: 10 };
    assert_eq!(ten.total_pages(0), 0);
    assert_eq!(ten.total_pages(1), 1);
    assert_eq!(ten.total_pages(9), 1);
    assert_eq!(ten.total_pages(10), 1);
    assert_eq!(ten.total_pages(11), 2);
    assert_eq!(ten.total_pages(20), 2);
    assert_eq!(ten.total_pages(21), 3);
    let one = Pagination { page: 2, per_page: 1 };
    assert_eq!(one.total_pages(2), 2);
    assert_eq!(one.total_pages(i64::MAX), i64::MAX);
    let huge = Pagination { page: 1, per_page: i64::MAX };
    assert_eq!(huge.total_pages(i64::MAX), 1);
    assert_eq!(huge.total_pages(1), 1);
}

#[test]
fn total_pages_rounds_up_for_many_values() {
    for per_page in 1..=12i64 {
        for total in 0..=60i64 {
            let n = Pagination { page: 1, per_page }.total_pages(total);
            assert!((n - 1) * per_page < total || total == 0);
            assert!(total <= n * per_page);
            if total == 0 {
                assert_eq!(n, 0);
            }
        }
    }
}

#[test]
fn nothing_makes_a_page_without_a_positive_size_or_count() {
    assert_eq!(Pagination { page: 1, per_page: 0 }.total_pages(5), 0);
    assert_eq!(Pagination { page: 1, per_page: -3 }.total_pages(5), 0);
    assert_eq!(Pagination { page: 1, per_page: 10 }.total_pages(-1), 0);
    assert_eq!(Pagination { page: 1, per_page: i64::MIN }.total_pages(i64::MIN), 0);
}

#[test]
fn a_page_past_the_last_starts_after_the_rows() {
    for per_page in 1..=5i64 {
        for total in 0..=20i64 {
            let pages = Pagination { page: 1, per_page }.total_pages(total);
            for page in (pages + 1)..(pages + 4) {
                let offset = Pagination { page, per_page }.offset().unwrap();
                assert!(offset >= total);
            }
            if pages >= 1 {
                let last = Pagination { page: pages, per_page }.offset().unwrap();
                assert!(last < total);
            }
        }
    }
}
