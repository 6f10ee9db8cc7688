use qa_web_app::decimal::ParseFailure;
use qa_web_app::errors::Error;
use qa_web_app::infrastructure::bounds;
use qa_web_app::infrastructure::pagination::{extract_pagination, Pagination};
use qa_web_app::infrastructure::params::QueryParams;

fn query(pairs: &[(&str, &str)]) -> QueryParams {
    let mut params = QueryParams::new();
    for (name, value) in pairs {
        params.insert(name.to_string(), value.to_string());
    }
    params
}

#[test]
fn params_hold_what_was_inserted() {
    let mut params = QueryParams::new();
    assert!(params.is_empty());
    assert!(!params.contains_key("a"));
    assert_eq!(params.get("a"), None);
    params.insert("a".to_string(), "1".to_string());
    assert!(!params.is_empty());
    assert!(params.contains_key("a"));
    assert_eq!(params.get("a"), Some(&"1".to_string()));
    params.insert("a".to_string(), "2".to_string());
    assert_eq!(params.get("a"), Some(&"2".to_string()));
    assert!(!params.contains_key("b"));
}

#[test]
fn default_pagination_asks_for_nothing() {
    assert_eq!(Pagination::default(), Pagination { offset: None, limit: None });
}

#[test]
fn offset_and_limit_pass_through() {
    let pagination = extract_pagination(query(&[("offset", "0"), ("limit", "10")])).unwrap();
    assert_eq!(pagination.offset, Some(0));
    assert_eq!(pagination.limit, Some(10));
    let pagination =
        extract_pagination(query(&[("offset", "7"), ("limit", "4000000000")])).unwrap();
    assert_eq!(pagination, Pagination { offset: Some(7), limit: Some(4000000000) });
}

#[test]
fn offset_equal_to_limit_is_accepted() {
    let pagination = extract_pagination(query(&[("offset", "3"), ("limit", "3")])).unwrap();
    assert_eq!(pagination, Pagination { offset: Some(3), limit: Some(3) });
}

#[test]
fn other_parameters_do_not_matter() {
    let pagination =
        extract_pagination(query(&[("offset", "1"), ("limit", "2"), ("x", "y")])).unwrap();
    assert_eq!(pagination, Pagination { offset: Some(1), limit: Some(2) });
}

#[test]
fn offset_above_limit_is_refused() {
    let r = extract_pagination(query(&[("offset", "11"), ("limit", "10")]));
    assert!(matches!(r, Err(Error::StartGreaterThanEnd)));
}

#[test]
fn missing_offset_or_limit_is_refused() {
    for pairs in [
        vec![("offset", "1")],
        vec![("limit", "1")],
        vec![("start", "1"), ("end", "2")],
        vec![("offset", "x")],
        vec![("Offset", "1"), ("Limit", "2")],
        vec![],
    ] {
        let r = extract_pagination(query(&pairs));
        assert!(matches!(r, Err(Error::MissingParameters)), "{:?}", pairs);
    }
}

#[test]
fn unreadable_offset_or_limit_is_refused() {
    let r = extract_pagination(query(&[("offset", "a"), ("limit", "10")]));
    assert!(matches!(r, Err(Error::ParseError(ParseFailure::InvalidDigit))));
    let r = extract_pagination(query(&[("offset", "1"), ("limit", "")]));
    assert!(matches!(r, Err(Error::ParseError(ParseFailure::Empty))));
    let r = extract_pagination(query(&[("offset", "-1"), ("limit", "5")]));
    assert!(matches!(r, Err(Error::ParseError(ParseFailure::InvalidDigit))));
    let r = extract_pagination(query(&[("offset", "1"), ("limit", "4294967296")]));
    assert!(matches!(r, Err(Error::ParseError(ParseFailure::PosOverflow))));
}

#[test]
fn the_offset_is_read_before_the_limit() {
    let r = extract_pagination(query(&[("offset", ""), ("limit", "x")]));
    assert!(matches!(r, Err(Error::ParseError(ParseFailure::Empty))));
}

#[test]
fn bounds_inside_the_list_pass_through() {
    let pagination =
        bounds::extract_pagination(query(&[("start", "0"), ("end", "10")]), 100).unwrap();
    assert_eq!(pagination.start, 0);
    assert_eq!(pagination.end, 10);
}

#[test]
fn bounds_are_held_down_to_the_length() {
    let pagination =
        bounds::extract_pagination(query(&[("start", "2"), ("end", "500")]), 100).unwrap();
    assert_eq!(pagination, bounds::Pagination { start: 2, end: 100 });
    let pagination =
        bounds::extract_pagination(query(&[("start", "200"), ("end", "500")]), 100).unwrap();
    assert_eq!(pagination, bounds::Pagination { start: 100, end: 100 });
    let pagination =
        bounds::extract_pagination(query(&[("start", "0"), ("end", "1")]), 0).unwrap();
    assert_eq!(pagination, bounds::Pagination { start: 0, end: 0 });
}

#[test]
fn bounds_lie_in_the_list_for_every_length() {
    for total in [0usize, 1, 5, 9, 10, 11, 1000] {
        for (start, end) in [(0usize, 0usize), (0, 5), (5, 5), (5, 10), (10, 11), (999, 1001)] {
            let params = query(&[("start", &start.to_string()), ("end", &end.to_string())]);
            let pagination = bounds::extract_pagination(params, total).unwrap();
            assert!(pagination.start <= pagination.end);
            assert!(pagination.end <= total);
            assert_eq!(pagination.start, start.min(total));
            assert_eq!(pagination.end, end.min(total));
        }
    }
}

#[test]
fn start_above_end_is_refused_whatever_the_length() {
    for total in [0usize, 1, 5, 1000, usize::MAX] {
        let r = bounds::extract_pagination(query(&[("start", "6"), ("end", "5")]), total);
        assert!(matches!(r, Err(Error::StartGreaterThanEnd)), "{}", total);
    }
}

#[test]
fn missing_start_or_end_is_refused() {
    for pairs in [
        vec![("start", "1")],
        vec![("end", "1")],
        vec![("offset", "1"), ("limit", "2")],
        vec![("begin", "1"), ("end", "2")],
        vec![],
    ] {
        let r = bounds::extract_pagination(query(&pairs), 10);
        assert!(matches!(r, Err(Error::MissingParameters)), "{:?}", pairs);
    }
}

#[test]
fn unreadable_start_or_end_is_refused() {
    let r = bounds::extract_pagination(query(&[("start", "one"), ("end", "2")]), 10);
    assert!(matches!(r, Err(Error::ParseError(ParseFailure::InvalidDigit))));
    let r = bounds::extract_pagination(query(&[("start", "1"), ("end", "")]), 10);
    assert!(matches!(r, Err(Error::ParseError(ParseFailure::Empty))));
    let r = bounds::extract_pagination(
        query(&[("start", "1"), ("end", "999999999999999999999999")]),
        10,
    );
    assert!(matches!(r, Err(Error::ParseError(ParseFailure::PosOverflow))));
}

#[test]
fn cap_number_holds_a_number_down() {
    let cap = bounds::cap_number(10);
    assert_eq!(cap(0), 0);
    assert_eq!(cap(9), 9);
    assert_eq!(cap(10), 10);
    assert_eq!(cap(11), 10);
    assert_eq!(cap(usize::MAX), 10);
    assert_eq!(bounds::cap_number(0)(5), 0);
}
