//! Classified errors. Every error names the operation that raised it and
//! carries a message and a status in the manner of HTTP.

use crate::number::{decimal, push_decimal};
use crate::split::{begins_with, starts_with};
use crate::text::{append_str, append_text, chars_of, string_of};
use vstd::prelude::*;

verus! {

pub const ANSI_ESC_CODE_COLOR_RED: &'static str = "\x1b[31m";

pub const ANSI_ESC_CODE_COLOR_RESET: &'static str = "\x1b[0m";

pub const DEFAULT_ERROR_MESSAGE: &'static str = "Something went wrong";

/// The status of an error that was given none.
pub const DEFAULT_ERROR_STATUS: u16 = 500;

/// The status of an error that the caller's input caused.
pub const BAD_REQUEST: u16 = 400;

/// What every error carries.
#[derive(Debug, PartialEq, Eq)]
pub struct ErrorDetails {
    /// the operation that raised the error, written as
    /// `provider_name:parser_name`
    pub provider_parser: &'static str,
    /// what went wrong
    pub message: String,
    /// a status in the manner of HTTP
    pub status: u16,
}

/// An error, classified by where it arose.
#[derive(Debug, PartialEq, Eq)]
pub enum EnmaError {
    /// the source could not be fetched
    SrcFetchError { details: ErrorDetails },
    /// what was fetched could not be read
    SrcParseError { details: ErrorDetails },
    /// a value could not be parsed
    ParsingError { details: ErrorDetails },
    /// the caller's input was refused
    InvalidDataError { details: ErrorDetails },
    /// any other error
    MiscError { details: ErrorDetails },
}

/// The message of an error: the one given, with the prefix of its class put
/// before it unless it has it already; without one, the prefix and the
/// default message of the class.
pub open spec fn formatted_message(
    message: Option<Seq<char>>,
    prefix: Seq<char>,
    default_message: Seq<char>,
) -> Seq<char> {
    match message {
        Some(m) => if begins_with(m, prefix) {
            m
        } else {
            prefix + m
        },
        None => prefix + default_message,
    }
}

/// The message of a parsing error raised for the given reason.
pub open spec fn parsing_message(reason: Seq<char>) -> Seq<char> {
    formatted_message(Some(reason), "ParsingError: "@, DEFAULT_ERROR_MESSAGE@)
}

/// The message of an error about invalid data raised for the given reason.
pub open spec fn invalid_data_message(reason: Seq<char>) -> Seq<char> {
    formatted_message(Some(reason), "InvalidDataError: "@, DEFAULT_ERROR_MESSAGE@)
}

/// The message of a miscellaneous error raised for the given reason.
pub open spec fn misc_message(reason: Seq<char>) -> Seq<char> {
    formatted_message(Some(reason), "MiscError: "@, DEFAULT_ERROR_MESSAGE@)
}

/// The status given, or the default one.
pub open spec fn status_or_default(status: Option<u16>) -> u16 {
    match status {
        Some(s) => s,
        None => DEFAULT_ERROR_STATUS,
    }
}

pub open spec fn message_or_default(message: Option<Seq<char>>) -> Seq<char> {
    match message {
        Some(m) => m,
        None => DEFAULT_ERROR_MESSAGE@,
    }
}

impl ErrorDetails {
    pub fn new(provider_parser: &'static str, err_msg: Option<String>, status: Option<u16>) -> (r:
        Self)
        ensures
            r.provider_parser@ == provider_parser@,
            r.message@ == message_or_default(err_msg.deep_view()),
            r.status == status_or_default(status),
    {
        let message = match err_msg {
            Some(m) => m,
            None => string_of(&chars_of(DEFAULT_ERROR_MESSAGE)),
        };
        let status = match status {
            Some(s) => s,
            None => DEFAULT_ERROR_STATUS,
        };
        ErrorDetails { provider_parser, message, status }
    }

    /// The text that shows the details, field by field.
    pub open spec fn shown(self) -> Seq<char> {
        ANSI_ESC_CODE_COLOR_RED@ + "{\n  \"provider_parser\": \""@ + self.provider_parser@
            + "\",\n  \"message\": \""@ + self.message@ + "\",\n  \"status\": "@ + decimal(
            self.status as nat,
        ) + "\n}"@ + ANSI_ESC_CODE_COLOR_RESET@
    }

    /// Shows the details, field by field.
    pub fn to_text(&self) -> (r: String)
        ensures
            r@ == self.shown(),
    {
        let mut out: Vec<char> = Vec::new();
        append_str(&mut out, ANSI_ESC_CODE_COLOR_RED);
        append_str(&mut out, "{\n  \"provider_parser\": \"");
        append_str(&mut out, self.provider_parser);
        append_str(&mut out, "\",\n  \"message\": \"");
        append_str(&mut out, self.message.as_str());
        append_str(&mut out, "\",\n  \"status\": ");
        push_decimal(&mut out, self.status as u64);
        append_str(&mut out, "\n}");
        append_str(&mut out, ANSI_ESC_CODE_COLOR_RESET);
        assert(out@ == self.shown());
        string_of(&out)
    }
}

impl EnmaError {
    pub open spec fn spec_details(self) -> ErrorDetails {
        match self {
            EnmaError::MiscError { details } => details,
            EnmaError::ParsingError { details } => details,
            EnmaError::SrcFetchError { details } => details,
            EnmaError::SrcParseError { details } => details,
            EnmaError::InvalidDataError { details } => details,
        }
    }

    /// Whether the error carries the given operation, message and status.
    pub open spec fn carries(self, provider_parser: Seq<char>, message: Seq<char>, status: u16) -> bool {
        &&& self.spec_details().provider_parser@ == provider_parser
        &&& self.spec_details().message@ == message
        &&& self.spec_details().status == status
    }

    pub fn details(&self) -> (r: &ErrorDetails)
        ensures
            *r == self.spec_details(),
    {
        match self {
            EnmaError::MiscError { details } => details,
            EnmaError::ParsingError { details } => details,
            EnmaError::SrcFetchError { details } => details,
            EnmaError::SrcParseError { details } => details,
            EnmaError::InvalidDataError { details } => details,
        }
    }

    pub fn src_fetch_error(
        provider_parser: &'static str,
        err_msg: Option<String>,
        status: Option<u16>,
    ) -> (r: Self)
        ensures
            r is SrcFetchError,
            r.carries(
                provider_parser@,
                formatted_message(
                    err_msg.deep_view(),
                    "SrcFetchError: "@,
                    "Failed to fetch raw source data"@,
                ),
                status_or_default(status),
            ),
    {
        let err_msg = Self::get_formatted_err(
            err_msg,
            "SrcFetchError: ",
            "Failed to fetch raw source data",
        );
        EnmaError::SrcFetchError { details: ErrorDetails::new(provider_parser, err_msg, status) }
    }

    pub fn src_parse_error(
        provider_parser: &'static str,
        err_msg: Option<String>,
        status: Option<u16>,
    ) -> (r: Self)
        ensures
            r is SrcParseError,
            r.carries(
                provider_parser@,
                formatted_message(
                    err_msg.deep_view(),
                    "SrcParseError: "@,
                    "Failed to parse fetched raw source data"@,
                ),
                status_or_default(status),
            ),
    {
        let err_msg = Self::get_formatted_err(
            err_msg,
            "SrcParseError: ",
            "Failed to parse fetched raw source data",
        );
        EnmaError::SrcParseError { details: ErrorDetails::new(provider_parser, err_msg, status) }
    }

    pub fn parsing_error(
        provider_parser: &'static str,
        err_msg: Option<String>,
        status: Option<u16>,
    ) -> (r: Self)
        ensures
            r is ParsingError,
            r.carries(
                provider_parser@,
                formatted_message(err_msg.deep_view(), "ParsingError: "@, DEFAULT_ERROR_MESSAGE@),
                status_or_default(status),
            ),
    {
        let err_msg = Self::get_formatted_err(err_msg, "ParsingError: ", DEFAULT_ERROR_MESSAGE);
        EnmaError::ParsingError { details: ErrorDetails::new(provider_parser, err_msg, status) }
    }

    pub fn invalid_data_error(
        provider_parser: &'static str,
        err_msg: Option<String>,
        status: Option<u16>,
    ) -> (r: Self)
        ensures
            r is InvalidDataError,
            r.carries(
                provider_parser@,
                formatted_message(
                    err_msg.deep_view(),
                    "InvalidDataError: "@,
                    DEFAULT_ERROR_MESSAGE@,
                ),
                status_or_default(status),
            ),
    {
        let err_msg = Self::get_formatted_err(err_msg, "InvalidDataError: ", DEFAULT_ERROR_MESSAGE);
        EnmaError::InvalidDataError { details: ErrorDetails::new(provider_parser, err_msg, status) }
    }

    pub fn misc_error(
        provider_parser: &'static str,
        err_msg: Option<String>,
        status: Option<u16>,
    ) -> (r: Self)
        ensures
            r is MiscError,
            r.carries(
                provider_parser@,
                formatted_message(err_msg.deep_view(), "MiscError: "@, DEFAULT_ERROR_MESSAGE@),
                status_or_default(status),
            ),
    {
        let err_msg = Self::get_formatted_err(err_msg, "MiscError: ", DEFAULT_ERROR_MESSAGE);
        EnmaError::MiscError { details: ErrorDetails::new(provider_parser, err_msg, status) }
    }

    /// Puts the prefix of a class before a message, or makes the default
    /// message of the class.
    pub fn get_formatted_err(
        err_message: Option<String>,
        err_prefix: &'static str,
        default_err_message: &'static str,
    ) -> (r: Option<String>)
        ensures
            r.deep_view() == Some(
                formatted_message(err_message.deep_view(), err_prefix@, default_err_message@),
            ),
    {
        let prefix = chars_of(err_prefix);
        match err_message {
            Some(msg) => {
                let m = chars_of(msg.as_str());
                if starts_with(&m, &prefix) {
                    Some(msg)
                } else {
                    let mut out = prefix;
                    append_text(&mut out, &m);
                    Some(string_of(&out))
                }
            },
            None => {
                let mut out = prefix;
                append_str(&mut out, default_err_message);
                Some(string_of(&out))
            },
        }
    }

    /// The error that refuses a caller's input for the given reason.
    pub fn invalid_input(provider_parser: &'static str, reason: &'static str) -> (e: EnmaError)
        ensures
            e is InvalidDataError,
            e.carries(provider_parser@, invalid_data_message(reason@), BAD_REQUEST),
    {
        let message = string_of(&chars_of(reason));
        EnmaError::invalid_data_error(provider_parser, Some(message), Some(BAD_REQUEST))
    }

    /// The miscellaneous error that refuses a caller's input for the given
    /// reason.
    pub fn refused_input(provider_parser: &'static str, reason: &'static str) -> (e: EnmaError)
        ensures
            e is MiscError,
            e.carries(provider_parser@, misc_message(reason@), BAD_REQUEST),
    {
        let message = string_of(&chars_of(reason));
        EnmaError::misc_error(provider_parser, Some(message), Some(BAD_REQUEST))
    }

    /// The parsing error that refuses a text for the given reason.
    pub fn refused_text(provider_parser: &'static str, reason: &'static str) -> (e: EnmaError)
        ensures
            e is ParsingError,
            e.carries(provider_parser@, parsing_message(reason@), BAD_REQUEST),
    {
        let message = string_of(&chars_of(reason));
        EnmaError::parsing_error(provider_parser, Some(message), Some(BAD_REQUEST))
    }

    /// The text that shows the error on one line.
    pub open spec fn shown(self) -> Seq<char> {
        ANSI_ESC_CODE_COLOR_RED@ + "<"@ + self.spec_details().provider_parser@ + ">: "@ + decimal(
            self.spec_details().status as nat,
        ) + " "@ + self.spec_details().message@ + ANSI_ESC_CODE_COLOR_RESET@
    }

    /// Shows the error on one line.
    pub fn to_text(&self) -> (r: String)
        ensures
            r@ == self.shown(),
    {
        let details = self.details();
        let mut out: Vec<char> = Vec::new();
        append_str(&mut out, ANSI_ESC_CODE_COLOR_RED);
        append_str(&mut out, "<");
        append_str(&mut out, details.provider_parser);
        append_str(&mut out, ">: ");
        push_decimal(&mut out, details.status as u64);
        append_str(&mut out, " ");
        append_str(&mut out, details.message.as_str());
        append_str(&mut out, ANSI_ESC_CODE_COLOR_RESET);
        assert(out@ == self.shown());
        string_of(&out)
    }
}

} // verus!
