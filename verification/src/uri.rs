//! Request headers, and percent-encoding of the texts that go into
//! addresses. The encoding is the work of the `urlencoding` crate.

use crate::error::{parsing_message, EnmaError, BAD_REQUEST};
use crate::text::{chars_of, string_of, trim, trimmed};
use std::string::FromUtf8Error;
use vstd::prelude::*;

verus! {

#[verifier::external_type_specification]
#[verifier::external_body]
pub struct ExFromUtf8Error(FromUtf8Error);

/// The values of the request headers that every request carries.
#[derive(Debug, Clone, Copy, PartialEq, Eq, Structural)]
pub enum EnmaUtils {
    AcceptHeader,
    UserAgentHeader,
    AcceptEncodingHeader,
    XRequestedWithHeader,
}

/// The bytes that stand for themselves in a percent-encoded text: the
/// letters and digits of ASCII, and `-`, `.`, `_` and `~`.
pub open spec fn is_unreserved(b: u8) -> bool {
    ||| 0x30 <= b <= 0x39
    ||| 0x41 <= b <= 0x5A
    ||| 0x61 <= b <= 0x7A
    ||| b == 0x2D
    ||| b == 0x2E
    ||| b == 0x5F
    ||| b == 0x7E
}

/// The digit, in upper case, of a number below sixteen.
pub open spec fn hex_digit(n: u8) -> char {
    if n < 10 {
        ((0x30 + n) as u8) as char
    } else {
        ((0x41 - 10 + n) as u8) as char
    }
}

/// A byte as it stands in a percent-encoded text: itself where it is
/// unreserved, and `%` with its two hexadecimal digits otherwise.
pub open spec fn escaped(b: u8) -> Seq<char> {
    if is_unreserved(b) {
        seq![b as char]
    } else {
        seq!['%', hex_digit(b / 16), hex_digit(b % 16)]
    }
}

/// The bytes of `bytes` as they stand in a percent-encoded text.
pub open spec fn escaped_all(bytes: Seq<u8>) -> Seq<char>
    decreases bytes.len(),
{
    if bytes.len() == 0 {
        Seq::empty()
    } else {
        escaped_all(bytes.drop_last()) + escaped(bytes.last())
    }
}

/// The percent-encoding of a text: that of the bytes of its UTF-8 form.
pub open spec fn percent_encoded(text: Seq<char>) -> Seq<char> {
    escaped_all(vstd::utf8::encode_utf8(text))
}

/// The percent-encoding of a text is empty for the empty text only.
pub proof fn lemma_percent_encoded_empty(text: Seq<char>)
    ensures
        percent_encoded(text).len() == 0 <==> text.len() == 0,
{
    let bytes = vstd::utf8::encode_utf8(text);
    if text.len() > 0 {
        assert(vstd::utf8::encode_scalar(text[0] as u32).len() > 0);
        assert(bytes.len() > 0);
        assert(escaped(bytes.last()).len() > 0);
    }
}

/// The text that `urlencoding::decode` makes of `text`, where it makes one.
pub uninterp spec fn percent_decoded(text: Seq<char>) -> Option<Seq<char>>;

/// Calls `urlencoding::encode`, which keeps the unreserved bytes of the
/// UTF-8 form of its input and writes every other byte as `%` and two
/// hexadecimal digits in upper case.
#[verifier::external_body]
pub(crate) fn percent_encode(text: &str) -> (r: String)
    ensures
        r@ == percent_encoded(text@),
{
    urlencoding::encode(text).into_owned()
}

/// Calls `urlencoding::decode`, which fails where the decoded bytes are no
/// UTF-8. The contract only names the result.
#[verifier::external_body]
pub(crate) fn percent_decode(text: &str) -> (r: Result<String, FromUtf8Error>)
    ensures
        match r {
            Ok(s) => percent_decoded(text@) == Some(s@),
            Err(_) => percent_decoded(text@) is None,
        },
{
    match urlencoding::decode(text) {
        Ok(decoded) => Ok(decoded.into_owned()),
        Err(e) => Err(e),
    }
}

impl EnmaUtils {
    pub open spec fn header(self) -> Seq<char> {
        match self {
            EnmaUtils::AcceptHeader => "text/html,application/xhtml+xml,application/xml;q=0.9,image/avif,image/webp,image/apng,*/*;q=0.8,application/signed-exchange;v=b3;q=0.9"@,
            EnmaUtils::UserAgentHeader => "Mozilla/5.0 (Windows NT 10.0; Win64; x64) AppleWebKit/537.36 (KHTML, like Gecko) Chrome/131.0.0.0 Safari/537.36"@,
            EnmaUtils::AcceptEncodingHeader => "gzip, deflate, br"@,
            EnmaUtils::XRequestedWithHeader => "XMLHttpRequest"@,
        }
    }

    pub fn value(&self) -> (r: &'static str)
        ensures
            r@ == self.header(),
    {
        match self {
            EnmaUtils::AcceptHeader => "text/html,application/xhtml+xml,application/xml;q=0.9,image/avif,image/webp,image/apng,*/*;q=0.8,application/signed-exchange;v=b3;q=0.9",
            EnmaUtils::UserAgentHeader => "Mozilla/5.0 (Windows NT 10.0; Win64; x64) AppleWebKit/537.36 (KHTML, like Gecko) Chrome/131.0.0.0 Safari/537.36",
            EnmaUtils::AcceptEncodingHeader => "gzip, deflate, br",
            EnmaUtils::XRequestedWithHeader => "XMLHttpRequest",
        }
    }

    /// The trimmed text, percent-encoded. A text that is empty once trimmed
    /// is refused.
    pub fn encode_uri_component(provider_parser: &'static str, raw_string: String) -> (r: Result<
        String,
        EnmaError,
    >)
        ensures
            match r {
                Ok(s) => trimmed(raw_string@).len() > 0 && s@ == percent_encoded(
                    trimmed(raw_string@),
                ),
                Err(e) => trimmed(raw_string@).len() == 0 && e is ParsingError && e.carries(
                    provider_parser@,
                    parsing_message("encoded string is empty"@),
                    BAD_REQUEST,
                ),
            },
    {
        let clean = string_of(&trim(&chars_of(raw_string.as_str())));
        let encoded = percent_encode(clean.as_str());
        proof {
            lemma_percent_encoded_empty(clean@);
        }
        if encoded.as_str().is_empty() {
            Err(EnmaError::refused_text(provider_parser, "encoded string is empty"))
        } else {
            Ok(encoded)
        }
    }

    /// Decodes the result of a call of `urlencoding::decode` on a trimmed
    /// text: the text decoded, unless there is none or it is empty.
    pub fn decoded_component(
        provider_parser: &'static str,
        decoded: Option<String>,
    ) -> (r: Result<String, EnmaError>)
        ensures
            match r {
                Ok(s) => decoded.deep_view() == Some(s@) && s@.len() > 0,
                Err(e) => e is ParsingError && match decoded {
                    Some(s) => s@.len() == 0 && e.carries(
                        provider_parser@,
                        parsing_message("decoded string is empty"@),
                        BAD_REQUEST,
                    ),
                    None => e.carries(
                        provider_parser@,
                        parsing_message("failed to parse raw string"@),
                        BAD_REQUEST,
                    ),
                },
            },
    {
        match decoded {
            Some(s) => {
                if s.as_str().is_empty() {
                    Err(EnmaError::refused_text(provider_parser, "decoded string is empty"))
                } else {
                    Ok(s)
                }
            },
            None => Err(EnmaError::refused_text(provider_parser, "failed to parse raw string")),
        }
    }

    /// The trimmed text with its percent-encoding undone. A text that does
    /// not decode, or decodes to nothing, is refused.
    pub fn decode_uri_component(provider_parser: &'static str, raw_string: String) -> (r: Result<
        String,
        EnmaError,
    >)
        ensures
            match r {
                Ok(s) => percent_decoded(trimmed(raw_string@)) == Some(s@) && s@.len() > 0,
                Err(e) => e is ParsingError && match percent_decoded(trimmed(raw_string@)) {
                    Some(s) => s.len() == 0 && e.carries(
                        provider_parser@,
                        parsing_message("decoded string is empty"@),
                        BAD_REQUEST,
                    ),
                    None => e.carries(
                        provider_parser@,
                        parsing_message("failed to parse raw string"@),
                        BAD_REQUEST,
                    ),
                },
            },
    {
        let clean = string_of(&trim(&chars_of(raw_string.as_str())));
        let decoded = match percent_decode(clean.as_str()) {
            Ok(s) => Some(s),
            Err(_) => None,
        };
        Self::decoded_component(provider_parser, decoded)
    }

}

} // verus!
