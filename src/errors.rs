use vstd::prelude::*;
use vstd::string::*;

use crate::route::{decimal, push_decimal};

verus! {

#[verifier::external_type_specification]
#[verifier::external_body]
pub struct ExParseError(url::ParseError);

/// The one error that every call of the client reports.
#[derive(Debug, PartialEq)]
pub enum BoticordError {
    /// The request did not complete (connection, TLS, timeout); holds the
    /// transport's description of the failure.
    Transport(String),
    /// The server answered with a status outside `200..=299`.
    Status(u16),
    /// The response body did not decode into the expected record; holds the
    /// decoder's description of the mismatch.
    Decode(String),
    /// The request URL was refused by the URL parser.
    Url(url::ParseError),
}

/// The description `url::ParseError` gives of itself.
pub uninterp spec fn parse_error_text(e: url::ParseError) -> Seq<char>;

/// Relies on `url::ParseError`'s `Display`: a fixed sentence for each kind
/// of parse failure.
#[verifier::external_body]
fn describe_parse_error(e: &url::ParseError) -> (r: String)
    ensures
        r@ == parse_error_text(*e),
{
    e.to_string()
}

impl BoticordError {
    /// A human-readable account of the error.
    pub open spec fn message_text(&self) -> Seq<char> {
        match self {
            BoticordError::Transport(m) => m@,
            BoticordError::Status(code) => "HTTP status "@ + decimal(*code as nat),
            BoticordError::Decode(m) => m@,
            BoticordError::Url(e) => parse_error_text(*e),
        }
    }

    /// A human-readable account of the error.
    pub fn message(&self) -> (r: String)
        ensures
            r@ == self.message_text(),
    {
        match self {
            BoticordError::Transport(m) => m.clone(),
            BoticordError::Status(code) => {
                let mut r = String::from_str("HTTP status ");
                push_decimal(&mut r, *code as u64);
                r
            },
            BoticordError::Decode(m) => m.clone(),
            BoticordError::Url(e) => describe_parse_error(e),
        }
    }

    /// The HTTP status code carried by the error, where there is one.
    pub open spec fn status_code(&self) -> Option<u16> {
        match self {
            BoticordError::Status(code) => Some(*code),
            _ => None,
        }
    }

    /// The HTTP status code carried by the error, where there is one.
    pub fn status(&self) -> (r: Option<u16>)
        ensures
            r == self.status_code(),
    {
        match self {
            BoticordError::Status(code) => Some(*code),
            _ => None,
        }
    }
}

/// Whether `status` is a success status (`2xx`).
pub open spec fn is_success(status: u16) -> bool {
    200 <= status <= 299
}

/// What a response with the given status means for the call: success
/// statuses let it go on, every other status ends it with an error that
/// carries the code.
pub open spec fn status_outcome(status: u16) -> Result<(), BoticordError> {
    if is_success(status) {
        Ok(())
    } else {
        Err(BoticordError::Status(status))
    }
}

/// Decides whether a response status lets the call go on.
pub fn check_status(status: u16) -> (r: Result<(), BoticordError>)
    ensures
        r == status_outcome(status),
{
    if 200 <= status && status <= 299 {
        Ok(())
    } else {
        Err(BoticordError::Status(status))
    }
}

/// The result of a call whose response came back with `status` and whose
/// body the transport decoded into `decoded` (or failed to, with a
/// description of why).
pub open spec fn response_outcome<T>(status: u16, decoded: Result<T, String>) -> Result<T, BoticordError> {
    if !is_success(status) {
        Err(BoticordError::Status(status))
    } else {
        match decoded {
            Ok(v) => Ok(v),
            Err(msg) => Err(BoticordError::Decode(msg)),
        }
    }
}

/// Completes a call that expects a decoded body: a failing status wins over
/// the body, then a body that did not decode is reported as a decode error.
pub fn finish_response<T>(status: u16, decoded: Result<T, String>) -> (r: Result<T, BoticordError>)
    ensures
        r == response_outcome(status, decoded),
{
    match check_status(status) {
        Err(e) => Err(e),
        Ok(()) => match decoded {
            Ok(v) => Ok(v),
            Err(msg) => Err(BoticordError::Decode(msg)),
        },
    }
}

/// Every status outside `2xx` ends the call with an error whose status code
/// is that status.
pub proof fn lemma_failing_status_reported(status: u16)
    requires
        !is_success(status),
    ensures
        status_outcome(status) is Err,
        status_outcome(status)->Err_0.status_code() == Some(status),
        forall|decoded: Result<(), String>| #[trigger] response_outcome(status, decoded) == Err::<(), BoticordError>(BoticordError::Status(status)),
{
}

} // verus!
