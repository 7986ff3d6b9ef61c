use backend::params::{
    parse_i64, PaginationParams, SearchParams, SortDirection, SortParams, DEFAULT_LIMIT,
    DEFAULT_OFFSET,
};

fn paging(limit: Option<&str>, offset: Option<&str>) -> PaginationParams {
    PaginationParams { limit: limit.map(|s| s.to_string()), offset: offset.map(|s| s.to_string()) }
}

#[test]
fn parse_i64_reads_plain_numbers() {
    assert_eq!(parse_i64("0"), Some(0));
    assert_eq!(parse_i64("7"), Some(7));
    assert_eq!(parse_i64("42"), Some(42));
    assert_eq!(parse_i64("1234567890"), Some(1234567890));
}

#[test]
fn parse_i64_reads_signs() {
    assert_eq!(parse_i64("+5"), Some(5));
    assert_eq!(parse_i64("-5"), Some(-5));
    assert_eq!(parse_i64("-0"), Some(0));
    assert_eq!(parse_i64("+0"), Some(0));
}

#[test]
fn parse_i64_reads_leading_zeros() {
    assert_eq!(parse_i64("007"), Some(7));
    assert_eq!(parse_i64("-000123"), Some(-123));
    assert_eq!(parse_i64("00000000000000000000000000000000000001"), Some(1));
}

#[test]
fn parse_i64_reads_the_ends_of_the_range() {
    assert_eq!(parse_i64("9223372036854775807"), Some(i64::MAX));
    assert_eq!(parse_i64("-9223372036854775808"), Some(i64::MIN));
    assert_eq!(parse_i64("+9223372036854775807"), Some(i64::MAX));
}

#[test]
fn parse_i64_refuses_numbers_out_of_range() {
    assert_eq!(parse_i64("9223372036854775808"), None);
    assert_eq!(parse_i64("-9223372036854775809"), None);
    assert_eq!(parse_i64("99999999999999999999999999"), None);
    assert_eq!(parse_i64("-99999999999999999999999999"), None);
}

#[test]
fn parse_i64_refuses_what_is_no_number() {
    for bad in ["", "+", "-", " 5", "5 ", "1_000", "12a", "a12", "--5", "+-5", "5.0", "0x10", "٣", "１２", "1e3"] {
        assert_eq!(parse_i64(bad), None);
    }
}

#[test]
fn parse_i64_agrees_with_the_standard_parser() {
    for text in [
        "", "0", "-", "+", "+1", "-1", "00", "-00", "9223372036854775807", "9223372036854775808",
        "-9223372036854775808", "-9223372036854775809", "12 ", " 12", "1-2", "1+2", "++1", "１", "1２",
        "18446744073709551616", "123456789012345678", "-123456789012345678",
    ] {
        assert_eq!(parse_i64(text), text.parse::<i64>().ok());
    }
}

#[test]
fn limit_defaults_to_one_hundred() {
    assert_eq!(DEFAULT_LIMIT, 100);
    assert_eq!(paging(None, None).limit(), 100);
    assert_eq!(paging(Some("abc"), None).limit(), 100);
    assert_eq!(paging(Some(""), None).limit(), 100);
    assert_eq!(PaginationParams::default().limit(), 100);
}

#[test]
fn limit_is_the_number_written() {
    assert_eq!(paging(Some("25"), None).limit(), 25);
    assert_eq!(paging(Some("-3"), None).limit(), -3);
    assert_eq!(paging(Some("0"), Some("9")).limit(), 0);
}

#[test]
fn offset_defaults_to_zero() {
    assert_eq!(DEFAULT_OFFSET, 0);
    assert_eq!(paging(None, None).offset(), 0);
    assert_eq!(paging(None, Some("ten")).offset(), 0);
    assert_eq!(paging(Some("5"), Some("99999999999999999999")).offset(), 0);
}

#[test]
fn offset_is_the_number_written() {
    assert_eq!(paging(None, Some("40")).offset(), 40);
    assert_eq!(paging(Some("7"), Some("+3")).offset(), 3);
}

#[test]
fn direction_has_its_sql_keyword() {
    assert_eq!(SortDirection::Asc.to_sql(), "ASC");
    assert_eq!(SortDirection::Desc.to_sql(), "DESC");
}

#[test]
fn sort_params_hand_on_paging_and_sort() {
    let params: SortParams<u8> = SortParams {
        pagination: paging(Some("10"), Some("20")),
        sort: Some(3),
        sort_by: Some(SortDirection::Desc),
    };
    assert_eq!(params.limit(), 10);
    assert_eq!(params.offset(), 20);
    assert_eq!(params.sort(), Some(&3));
    assert_eq!(params.sort_by(), SortDirection::Desc);
}

#[test]
fn sort_params_default_to_ascending_without_key() {
    let params: SortParams<u8> = SortParams { pagination: paging(None, None), sort: None, sort_by: None };
    assert_eq!(params.limit(), 100);
    assert_eq!(params.offset(), 0);
    assert_eq!(params.sort(), None);
    assert_eq!(params.sort_by(), SortDirection::Asc);
}

#[test]
fn search_params_hand_on_everything() {
    let params: SearchParams<u8> = SearchParams {
        sortable: SortParams {
            pagination: paging(Some("5"), Some("x")),
            sort: Some(1),
            sort_by: None,
        },
        search: Some("rust".to_string()),
    };
    assert_eq!(params.limit(), 5);
    assert_eq!(params.offset(), 0);
    assert_eq!(params.sort(), Some(&1));
    assert_eq!(params.sort_by(), SortDirection::Asc);
    assert_eq!(params.search(), Some(&"rust".to_string()));
    assert_eq!(params.search_pattern(), Some("%rust%".to_string()));
}

#[test]
fn search_pattern_is_absent_without_a_term() {
    let params: SearchParams<u8> = SearchParams {
        sortable: SortParams { pagination: paging(None, None), sort: None, sort_by: Some(SortDirection::Desc) },
        search: None,
    };
    assert_eq!(params.search(), None);
    assert_eq!(params.search_pattern(), None);
    assert_eq!(params.sort_by(), SortDirection::Desc);
}

#[test]
fn search_pattern_keeps_the_term_as_written() {
    let params: SearchParams<u8> = SearchParams {
        sortable: SortParams { pagination: paging(None, None), sort: None, sort_by: None },
        search: Some("50% off_é".to_string()),
    };
    assert_eq!(params.search_pattern(), Some("%50% off_é%".to_string()));
    let empty: SearchParams<u8> = SearchParams {
        sortable: SortParams { pagination: paging(None, None), sort: None, sort_by: None },
        search: Some(String::new()),
    };
    assert_eq!(empty.search_pattern(), Some("%%".to_string()));
}
