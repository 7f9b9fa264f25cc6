//! The uniform API response wrapper handed back to callers of the
//! session flows, and the classification of a refused API call into
//! a response. Statuses, messages and error details are pinned by
//! contract for every input.

use crate::json::json_top;
use crate::api_auth::{append_bytes, dec_rep, u16_to_dec};
use vstd::prelude::*;

verus! {

/// The bytes of `Success`.
pub open spec fn lit_success_default() -> Seq<u8> {
    seq![0x53u8, 0x75, 0x63, 0x63, 0x65, 0x73, 0x73]
}

/// The bytes of `: `.
pub open spec fn lit_sep_colon() -> Seq<u8> {
    seq![0x3au8, 0x20]
}

/// The bytes of `error in response: status code `.
pub open spec fn lit_err_response() -> Seq<u8> {
    seq![0x65u8, 0x72, 0x72, 0x6f, 0x72, 0x20, 0x69, 0x6e, 0x20, 0x72, 0x65, 0x73, 0x70, 0x6f, 0x6e, 0x73, 0x65, 0x3a, 0x20, 0x73, 0x74, 0x61, 0x74, 0x75, 0x73, 0x20, 0x63, 0x6f, 0x64, 0x65, 0x20]
}

/// The bytes of `error in reqwest: `.
pub open spec fn lit_err_reqwest() -> Seq<u8> {
    seq![0x65u8, 0x72, 0x72, 0x6f, 0x72, 0x20, 0x69, 0x6e, 0x20, 0x72, 0x65, 0x71, 0x77, 0x65, 0x73, 0x74, 0x3a, 0x20]
}

/// Owned bytes of `Success`.
pub fn lit_success_default_x() -> (k: Vec<u8>)
    ensures
        k@ == lit_success_default(),
{
    let k: Vec<u8> = vec![0x53u8, 0x75, 0x63, 0x63, 0x65, 0x73, 0x73];
    proof {
        assert(k@ =~= lit_success_default());
    }
    k
}

/// Owned bytes of `: `.
pub fn lit_sep_colon_x() -> (k: Vec<u8>)
    ensures
        k@ == lit_sep_colon(),
{
    let k: Vec<u8> = vec![0x3au8, 0x20];
    proof {
        assert(k@ =~= lit_sep_colon());
    }
    k
}

/// Owned bytes of `error in response: status code `.
pub fn lit_err_response_x() -> (k: Vec<u8>)
    ensures
        k@ == lit_err_response(),
{
    let k: Vec<u8> = vec![0x65u8, 0x72, 0x72, 0x6f, 0x72, 0x20, 0x69, 0x6e, 0x20, 0x72, 0x65, 0x73, 0x70, 0x6f, 0x6e, 0x73, 0x65, 0x3a, 0x20, 0x73, 0x74, 0x61, 0x74, 0x75, 0x73, 0x20, 0x63, 0x6f, 0x64, 0x65, 0x20];
    proof {
        assert(k@ =~= lit_err_response());
    }
    k
}

/// Owned bytes of `error in reqwest: `.
pub fn lit_err_reqwest_x() -> (k: Vec<u8>)
    ensures
        k@ == lit_err_reqwest(),
{
    let k: Vec<u8> = vec![0x65u8, 0x72, 0x72, 0x6f, 0x72, 0x20, 0x69, 0x6e, 0x20, 0x72, 0x65, 0x71, 0x77, 0x65, 0x73, 0x74, 0x3a, 0x20];
    proof {
        assert(k@ =~= lit_err_reqwest());
    }
    k
}


/// Spec-level error details of a failed call.
pub enum ErrorDetailsData {
    /// The refused response's own body, itself one JSON value.
    JsonBody(Seq<u8>),
    /// The refused response's body when it is not JSON, with the
    /// response status beside it.
    RawContent { raw_content: Seq<u8>, status: u16 },
    /// A transport-level failure, by its rendered message.
    TransportError { message: Seq<u8> },
    /// Any other failure, by its rendered message.
    OtherError { message: Seq<u8> },
}

/// Structured details of a failed call, carried in a response.
pub enum ErrorDetails {
    JsonBody(Vec<u8>),
    RawContent { raw_content: Vec<u8>, status: u16 },
    TransportError { message: Vec<u8> },
    OtherError { message: Vec<u8> },
}

impl View for ErrorDetails {
    type V = ErrorDetailsData;

    open spec fn view(&self) -> ErrorDetailsData {
        match self {
            ErrorDetails::JsonBody(b) => ErrorDetailsData::JsonBody(b@),
            ErrorDetails::RawContent { raw_content, status } => ErrorDetailsData::RawContent {
                raw_content: raw_content@,
                status: *status,
            },
            ErrorDetails::TransportError { message } => ErrorDetailsData::TransportError {
                message: message@,
            },
            ErrorDetails::OtherError { message } => ErrorDetailsData::OtherError {
                message: message@,
            },
        }
    }
}

/// View of optional details.
pub open spec fn opt_details_view(d: Option<ErrorDetails>) -> Option<ErrorDetailsData> {
    match d {
        Some(x) => Some(x@),
        None => None,
    }
}

/// A failed API call, as the library models the client's error type:
/// the service refused (with its status and raw body), the transport
/// failed (with an optional status), or something else went wrong.
pub enum ApiErrorKind {
    ResponseError { status: u16, content: Vec<u8> },
    Transport { status: Option<u16>, message: Vec<u8> },
    Other { message: Vec<u8> },
}

/// Spec-level failed API call.
pub enum ApiErrorKindData {
    ResponseError { status: u16, content: Seq<u8> },
    Transport { status: Option<u16>, message: Seq<u8> },
    Other { message: Seq<u8> },
}

impl View for ApiErrorKind {
    type V = ApiErrorKindData;

    open spec fn view(&self) -> ApiErrorKindData {
        match self {
            ApiErrorKind::ResponseError { status, content } => ApiErrorKindData::ResponseError {
                status: *status,
                content: content@,
            },
            ApiErrorKind::Transport { status, message } => ApiErrorKindData::Transport {
                status: *status,
                message: message@,
            },
            ApiErrorKind::Other { message } => ApiErrorKindData::Other { message: message@ },
        }
    }
}

/// The status a failed call reports: the service's own status when it
/// answered, else 500.
pub open spec fn error_status(k: ApiErrorKindData) -> u16 {
    match k {
        ApiErrorKindData::ResponseError { status, content } => status,
        ApiErrorKindData::Transport { status, message } => match status {
            Some(s) => s,
            None => 500,
        },
        ApiErrorKindData::Other { message } => 500,
    }
}

/// The details a failed call reports: the body as JSON when it is
/// JSON, else the raw body with its status; transport and other
/// failures carry their message.
pub open spec fn error_details_spec(k: ApiErrorKindData) -> ErrorDetailsData {
    match k {
        ApiErrorKindData::ResponseError { status, content } => if json_top(content) is Some {
            ErrorDetailsData::JsonBody(content)
        } else {
            ErrorDetailsData::RawContent { raw_content: content, status }
        },
        ApiErrorKindData::Transport { status, message } => ErrorDetailsData::TransportError {
            message,
        },
        ApiErrorKindData::Other { message } => ErrorDetailsData::OtherError { message },
    }
}

/// The rendered line of a failed call.
pub open spec fn error_text(k: ApiErrorKindData) -> Seq<u8> {
    match k {
        ApiErrorKindData::ResponseError { status, content } => lit_err_response() + dec_rep(
            status as int,
        ),
        ApiErrorKindData::Transport { status, message } => lit_err_reqwest() + message,
        ApiErrorKindData::Other { message } => message,
    }
}

/// The uniform wrapper around every flow result handed to callers.
pub struct ApiResponse<T> {
    pub status: u16,
    pub success: bool,
    pub data: Option<T>,
    pub message: Vec<u8>,
    pub error_details: Option<ErrorDetails>,
}

impl<T> ApiResponse<T> {
    /// A successful response: status 200, the data, and the given
    /// message (or `Success` when none is given).
    pub fn success(data: T, message: Option<Vec<u8>>) -> (r: ApiResponse<T>)
        ensures
            r.status == 200,
            r.success,
            r.data == Some(data),
            r.message@ == (match message {
                Some(m) => m@,
                None => lit_success_default(),
            }),
            r.error_details is None,
    {
        let m: Vec<u8> = match message {
            Some(m) => m,
            None => lit_success_default_x(),
        };
        ApiResponse { status: 200, success: true, data: Some(data), message: m, error_details: None }
    }

    /// A failed response with the given status, message and details.
    pub fn error(status: u16, message: Vec<u8>, details: Option<ErrorDetails>) -> (r: ApiResponse<
        T,
    >)
        ensures
            r.status == status,
            !r.success,
            r.data is None,
            r.message@ == message@,
            opt_details_view(r.error_details) == opt_details_view(details),
    {
        ApiResponse { status, success: false, data: None, message, error_details: details }
    }

    /// A failed response with no structured details.
    pub fn simple_error(status: u16, message: Vec<u8>) -> (r: ApiResponse<T>)
        ensures
            r.status == status,
            !r.success,
            r.data is None,
            r.message@ == message@,
            r.error_details is None,
    {
        Self::error(status, message, None)
    }
}

/// Turn a failed API call into the uniform response: the status the
/// failure carries, the message `base: rendered failure`, and the
/// structured details.
pub fn create_error_response<T>(error: &ApiErrorKind, base_message: &[u8]) -> (r: ApiResponse<T>)
    ensures
        r.status == error_status(error@),
        !r.success,
        r.data is None,
        r.message@ == base_message@ + lit_sep_colon() + error_text(error@),
        opt_details_view(r.error_details) == Some(error_details_spec(error@)),
{
    let mut m = vstd::slice::slice_to_vec(base_message);
    append_bytes(&mut m, lit_sep_colon_x().as_slice());
    match error {
        ApiErrorKind::ResponseError { status, content } => {
            append_bytes(&mut m, lit_err_response_x().as_slice());
            let digits = u16_to_dec(*status);
            append_bytes(&mut m, digits.as_slice());
            let details = if crate::json::parse_top(content.as_slice()).is_some() {
                ErrorDetails::JsonBody(crate::json::copy_bytes(content))
            } else {
                ErrorDetails::RawContent {
                    raw_content: crate::json::copy_bytes(content),
                    status: *status,
                }
            };
            ApiResponse::error(*status, m, Some(details))
        },
        ApiErrorKind::Transport { status, message } => {
            append_bytes(&mut m, lit_err_reqwest_x().as_slice());
            append_bytes(&mut m, message.as_slice());
            let st: u16 = match status {
                Some(s) => *s,
                None => 500,
            };
            ApiResponse::error(
                st,
                m,
                Some(ErrorDetails::TransportError { message: crate::json::copy_bytes(message) }),
            )
        },
        ApiErrorKind::Other { message } => {
            append_bytes(&mut m, message.as_slice());
            ApiResponse::error(
                500,
                m,
                Some(ErrorDetails::OtherError { message: crate::json::copy_bytes(message) }),
            )
        },
    }
}

} // verus!
