use enma::error::{EnmaError, ErrorDetails};

#[test]
fn errors_carry_their_class_prefix_and_defaults() {
    let e = EnmaError::src_fetch_error("hianime:get_home_page", None, None);
    assert!(matches!(e, EnmaError::SrcFetchError { .. }));
    assert_eq!(e.details().provider_parser, "hianime:get_home_page");
    assert_eq!(e.details().message, "SrcFetchError: Failed to fetch raw source data");
    assert_eq!(e.details().status, 500);

    let e = EnmaError::src_parse_error("p", None, Some(502));
    assert!(matches!(e, EnmaError::SrcParseError { .. }));
    assert_eq!(e.details().message, "SrcParseError: Failed to parse fetched raw source data");
    assert_eq!(e.details().status, 502);

    let e = EnmaError::parsing_error("p", None, None);
    assert!(matches!(e, EnmaError::ParsingError { .. }));
    assert_eq!(e.details().message, "ParsingError: Something went wrong");

    let e = EnmaError::invalid_data_error("p", None, None);
    assert!(matches!(e, EnmaError::InvalidDataError { .. }));
    assert_eq!(e.details().message, "InvalidDataError: Something went wrong");

    let e = EnmaError::misc_error("p", None, None);
    assert!(matches!(e, EnmaError::MiscError { .. }));
    assert_eq!(e.details().message, "MiscError: Something went wrong");
}

#[test]
fn a_message_gets_the_prefix_once() {
    let e = EnmaError::misc_error("p", Some("invalid anime id".to_string()), Some(400));
    assert_eq!(e.details().message, "MiscError: invalid anime id");
    assert_eq!(e.details().status, 400);
    let e = EnmaError::misc_error("p", Some("MiscError: invalid anime id".to_string()), Some(400));
    assert_eq!(e.details().message, "MiscError: invalid anime id");
    let e = EnmaError::parsing_error("p", Some("MiscError: x".to_string()), None);
    assert_eq!(e.details().message, "ParsingError: MiscError: x");
    assert_eq!(
        EnmaError::get_formatted_err(None, "A: ", "b"),
        Some("A: b".to_string())
    );
    assert_eq!(
        EnmaError::get_formatted_err(Some(String::new()), "A: ", "b"),
        Some("A: ".to_string())
    );
}

#[test]
fn refusals_have_the_status_of_a_bad_request() {
    let e = EnmaError::invalid_input("hianime:get_genre_anime", "invalid genre name");
    assert!(matches!(e, EnmaError::InvalidDataError { .. }));
    assert_eq!(e.details().message, "InvalidDataError: invalid genre name");
    assert_eq!(e.details().status, 400);
    let e = EnmaError::refused_input("hianime:get_info", "invalid anime id");
    assert!(matches!(e, EnmaError::MiscError { .. }));
    assert_eq!(e.details().message, "MiscError: invalid anime id");
    let e = EnmaError::refused_text("p", "encoded string is empty");
    assert!(matches!(e, EnmaError::ParsingError { .. }));
    assert_eq!(e.details().message, "ParsingError: encoded string is empty");
    assert_eq!(e.details().status, 400);
}

#[test]
fn details_fall_back_to_the_defaults() {
    let d = ErrorDetails::new("p", None, None);
    assert_eq!(d.message, "Something went wrong");
    assert_eq!(d.status, 500);
    let d = ErrorDetails::new("p", Some("m".to_string()), Some(404));
    assert_eq!(d.message, "m");
    assert_eq!(d.status, 404);
    assert_eq!(d.provider_parser, "p");
}

#[test]
fn errors_show_as_text() {
    let e = EnmaError::misc_error("hianime:get_info", Some("invalid anime id".to_string()), Some(400));
    assert_eq!(
        e.to_text(),
        "\x1b[31m<hianime:get_info>: 400 MiscError: invalid anime id\x1b[0m"
    );
    assert_eq!(
        e.details().to_text(),
        "\x1b[31m{\n  \"provider_parser\": \"hianime:get_info\",\n  \"message\": \"MiscError: invalid anime id\",\n  \"status\": 400\n}\x1b[0m"
    );
}
