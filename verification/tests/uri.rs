use enma::error::EnmaError;
use enma::uri::EnmaUtils;

#[test]
fn header_values() {
    assert_eq!(EnmaUtils::XRequestedWithHeader.value(), "XMLHttpRequest");
    assert_eq!(EnmaUtils::AcceptEncodingHeader.value(), "gzip, deflate, br");
    assert!(EnmaUtils::UserAgentHeader.value().starts_with("Mozilla/5.0"));
    assert!(EnmaUtils::AcceptHeader.value().starts_with("text/html,"));
}

#[test]
fn a_component_is_trimmed_and_percent_encoded() {
    assert_eq!(
        EnmaUtils::encode_uri_component("p", "  one piece & co ".to_string()).unwrap(),
        "one%20piece%20%26%20co"
    );
    assert_eq!(EnmaUtils::encode_uri_component("p", "monster".to_string()).unwrap(), "monster");
    assert_eq!(EnmaUtils::encode_uri_component("p", "é".to_string()).unwrap(), "%C3%A9");
}

#[test]
fn an_empty_component_is_refused() {
    for raw in ["", "   ", "\n\t"] {
        let e = EnmaUtils::encode_uri_component("hianime:get_search_suggestions", raw.to_string())
            .unwrap_err();
        assert!(matches!(e, EnmaError::ParsingError { .. }));
        assert_eq!(e.details().provider_parser, "hianime:get_search_suggestions");
        assert_eq!(e.details().message, "ParsingError: encoded string is empty");
        assert_eq!(e.details().status, 400);
    }
}

#[test]
fn a_component_is_trimmed_and_decoded() {
    assert_eq!(
        EnmaUtils::decode_uri_component("p", " one%20piece%20%26%20co ".to_string()).unwrap(),
        "one piece & co"
    );
    assert_eq!(EnmaUtils::decode_uri_component("p", "a+b".to_string()).unwrap(), "a+b");
    assert_eq!(EnmaUtils::decode_uri_component("p", "%C3%A9".to_string()).unwrap(), "é");
    assert_eq!(EnmaUtils::decode_uri_component("p", "100%".to_string()).unwrap(), "100%");
}

#[test]
fn a_component_that_does_not_decode_is_refused() {
    let e = EnmaUtils::decode_uri_component("p", "%ff".to_string()).unwrap_err();
    assert!(matches!(e, EnmaError::ParsingError { .. }));
    assert_eq!(e.details().message, "ParsingError: failed to parse raw string");
    assert_eq!(e.details().status, 400);
    let e = EnmaUtils::decode_uri_component("p", "  ".to_string()).unwrap_err();
    assert_eq!(e.details().message, "ParsingError: decoded string is empty");
    let e = EnmaUtils::decoded_component("p", None).unwrap_err();
    assert_eq!(e.details().message, "ParsingError: failed to parse raw string");
    let e = EnmaUtils::decoded_component("p", Some(String::new())).unwrap_err();
    assert_eq!(e.details().message, "ParsingError: decoded string is empty");
    assert_eq!(EnmaUtils::decoded_component("p", Some("x".to_string())).unwrap(), "x");
}

#[test]
fn unreserved_bytes_stand_for_themselves_and_others_are_escaped_in_upper_case() {
    assert_eq!(
        EnmaUtils::encode_uri_component("p", "AZaz09-._~".to_string()).unwrap(),
        "AZaz09-._~"
    );
    assert_eq!(
        EnmaUtils::encode_uri_component("p", "a/b?c=d&e+f%g".to_string()).unwrap(),
        "a%2Fb%3Fc%3Dd%26e%2Bf%25g"
    );
    assert_eq!(
        EnmaUtils::encode_uri_component("p", "\u{7f}\u{1F600}".to_string()).unwrap(),
        "%7F%F0%9F%98%80"
    );
}
