//! How a response is turned into a result: the status decides whether the
//! body is decoded or read as text for an error.
use vstd::prelude::*;

verus! {

/// What went wrong in a call to the service.
#[derive(Debug)]
pub enum ClientError {
    /// The service answered with a status outside the success range. `body`
    /// is the text of its answer, or empty where that could not be read.
    RequestFailed { status: u16, body: String },
    /// The request could not be sent, or a successful answer could not be
    /// decoded into the expected type.
    DeserializationError(reqwest::Error),
}

impl From<reqwest::Error> for ClientError {
    fn from(e: reqwest::Error) -> (r: ClientError)
        ensures
            r == ClientError::DeserializationError(e),
    {
        ClientError::DeserializationError(e)
    }
}

impl vstd::std_specs::convert::FromSpecImpl<reqwest::Error> for ClientError {
    open spec fn obeys_from_spec() -> bool {
        true
    }

    open spec fn from_spec(e: reqwest::Error) -> ClientError {
        ClientError::DeserializationError(e)
    }
}

/// A status in the conventional success range.
pub open spec fn is_success_status(status: u16) -> bool {
    200 <= status && status < 300
}

/// Whether `status` is in the success range.
pub fn is_success(status: u16) -> (r: bool)
    ensures
        r == is_success_status(status),
{
    200 <= status && status < 300
}

/// What is done with the body of a response once its status is known.
#[derive(Clone, Copy, Debug, PartialEq, Eq, Structural)]
pub enum ResponseStep {
    /// Decode the body as JSON into the expected type.
    DecodeBody,
    /// Read the body as text, to report a failed request with `status`.
    ReadBodyText { status: u16 },
}

/// The step that a response with `status` calls for: only a success status
/// has its body decoded; any other has it read as text, never decoded.
pub fn check_is_success(status: u16) -> (r: ResponseStep)
    ensures
        is_success_status(status) ==> r == ResponseStep::DecodeBody,
        !is_success_status(status) ==> r == (ResponseStep::ReadBodyText { status }),
{
    if is_success(status) {
        ResponseStep::DecodeBody
    } else {
        ResponseStep::ReadBodyText { status }
    }
}

/// The body text that a failed request reports: what was read, or nothing
/// where reading failed.
pub open spec fn reported_body<E>(text: Result<String, E>) -> Seq<char> {
    match text {
        Ok(t) => t@,
        Err(_) => Seq::empty(),
    }
}

/// The error of a request answered with `status`, whose body text came out as
/// `text`. A failure to read the body is not passed on: the body is empty.
pub fn request_failed<E>(status: u16, text: Result<String, E>) -> (r: ClientError)
    ensures
        r matches ClientError::RequestFailed { status: s, body } && s == status && body@
            == reported_body(text),
{
    let body = match text {
        Ok(t) => t,
        Err(_) => String::new(),
    };
    ClientError::RequestFailed { status, body }
}

/// The result of decoding the body of a successful response: the value, or a
/// deserialization error with its cause.
pub fn check_decoded<T>(decoded: Result<T, reqwest::Error>) -> (r: Result<T, ClientError>)
    ensures
        match decoded {
            Ok(v) => r == Ok::<T, ClientError>(v),
            Err(e) => r == Err::<T, ClientError>(ClientError::DeserializationError(e)),
        },
{
    match decoded {
        Ok(v) => Ok(v),
        Err(e) => Err(ClientError::from(e)),
    }
}

} // verus!
