//! The client's error taxonomy (see the error handling design):
//! transport, decode, API refusal, authentication, cookie parsing,
//! input and internal failures, each carrying the text that renders
//! it. Rendered lines are pinned by contract.

use crate::api_auth::{append_bytes, dec_rep, u16_to_dec};
use vstd::prelude::*;

verus! {

/// The bytes of `Network error: `.
pub open spec fn pre_network() -> Seq<u8> {
    seq![0x4eu8, 0x65, 0x74, 0x77, 0x6f, 0x72, 0x6b, 0x20, 0x65, 0x72, 0x72, 0x6f, 0x72, 0x3a, 0x20]
}

/// The bytes of `Json parse error: `.
pub open spec fn pre_json_parse() -> Seq<u8> {
    seq![0x4au8, 0x73, 0x6f, 0x6e, 0x20, 0x70, 0x61, 0x72, 0x73, 0x65, 0x20, 0x65, 0x72, 0x72, 0x6f, 0x72, 0x3a, 0x20]
}

/// The bytes of `API error: `.
pub open spec fn pre_api_error() -> Seq<u8> {
    seq![0x41u8, 0x50, 0x49, 0x20, 0x65, 0x72, 0x72, 0x6f, 0x72, 0x3a, 0x20]
}

/// The bytes of `Authentication error: `.
pub open spec fn pre_auth_failed() -> Seq<u8> {
    seq![0x41u8, 0x75, 0x74, 0x68, 0x65, 0x6e, 0x74, 0x69, 0x63, 0x61, 0x74, 0x69, 0x6f, 0x6e, 0x20, 0x65, 0x72, 0x72, 0x6f, 0x72, 0x3a, 0x20]
}

/// The bytes of `Parse cookie error: `.
pub open spec fn pre_cookie() -> Seq<u8> {
    seq![0x50u8, 0x61, 0x72, 0x73, 0x65, 0x20, 0x63, 0x6f, 0x6f, 0x6b, 0x69, 0x65, 0x20, 0x65, 0x72, 0x72, 0x6f, 0x72, 0x3a, 0x20]
}

/// The bytes of `Not authenticated`.
pub open spec fn lit_not_authenticated() -> Seq<u8> {
    seq![0x4eu8, 0x6f, 0x74, 0x20, 0x61, 0x75, 0x74, 0x68, 0x65, 0x6e, 0x74, 0x69, 0x63, 0x61, 0x74, 0x65, 0x64]
}

/// The bytes of `InvalidInput: `.
pub open spec fn pre_invalid_input() -> Seq<u8> {
    seq![0x49u8, 0x6e, 0x76, 0x61, 0x6c, 0x69, 0x64, 0x49, 0x6e, 0x70, 0x75, 0x74, 0x3a, 0x20]
}

/// The bytes of `Internal error: `.
pub open spec fn pre_internal() -> Seq<u8> {
    seq![0x49u8, 0x6e, 0x74, 0x65, 0x72, 0x6e, 0x61, 0x6c, 0x20, 0x65, 0x72, 0x72, 0x6f, 0x72, 0x3a, 0x20]
}

/// The bytes of ` - `.
pub open spec fn lit_dash_sep() -> Seq<u8> {
    seq![0x20u8, 0x2d, 0x20]
}

/// Owned bytes of `Network error: `.
pub fn pre_network_x() -> (k: Vec<u8>)
    ensures
        k@ == pre_network(),
{
    let k: Vec<u8> = vec![0x4eu8, 0x65, 0x74, 0x77, 0x6f, 0x72, 0x6b, 0x20, 0x65, 0x72, 0x72, 0x6f, 0x72, 0x3a, 0x20];
    proof {
        assert(k@ =~= pre_network());
    }
    k
}

/// Owned bytes of `Json parse error: `.
pub fn pre_json_parse_x() -> (k: Vec<u8>)
    ensures
        k@ == pre_json_parse(),
{
    let k: Vec<u8> = vec![0x4au8, 0x73, 0x6f, 0x6e, 0x20, 0x70, 0x61, 0x72, 0x73, 0x65, 0x20, 0x65, 0x72, 0x72, 0x6f, 0x72, 0x3a, 0x20];
    proof {
        assert(k@ =~= pre_json_parse());
    }
    k
}

/// Owned bytes of `API error: `.
pub fn pre_api_error_x() -> (k: Vec<u8>)
    ensures
        k@ == pre_api_error(),
{
    let k: Vec<u8> = vec![0x41u8, 0x50, 0x49, 0x20, 0x65, 0x72, 0x72, 0x6f, 0x72, 0x3a, 0x20];
    proof {
        assert(k@ =~= pre_api_error());
    }
    k
}

/// Owned bytes of `Authentication error: `.
pub fn pre_auth_failed_x() -> (k: Vec<u8>)
    ensures
        k@ == pre_auth_failed(),
{
    let k: Vec<u8> = vec![0x41u8, 0x75, 0x74, 0x68, 0x65, 0x6e, 0x74, 0x69, 0x63, 0x61, 0x74, 0x69, 0x6f, 0x6e, 0x20, 0x65, 0x72, 0x72, 0x6f, 0x72, 0x3a, 0x20];
    proof {
        assert(k@ =~= pre_auth_failed());
    }
    k
}

/// Owned bytes of `Parse cookie error: `.
pub fn pre_cookie_x() -> (k: Vec<u8>)
    ensures
        k@ == pre_cookie(),
{
    let k: Vec<u8> = vec![0x50u8, 0x61, 0x72, 0x73, 0x65, 0x20, 0x63, 0x6f, 0x6f, 0x6b, 0x69, 0x65, 0x20, 0x65, 0x72, 0x72, 0x6f, 0x72, 0x3a, 0x20];
    proof {
        assert(k@ =~= pre_cookie());
    }
    k
}

/// Owned bytes of `Not authenticated`.
pub fn lit_not_authenticated_x() -> (k: Vec<u8>)
    ensures
        k@ == lit_not_authenticated(),
{
    let k: Vec<u8> = vec![0x4eu8, 0x6f, 0x74, 0x20, 0x61, 0x75, 0x74, 0x68, 0x65, 0x6e, 0x74, 0x69, 0x63, 0x61, 0x74, 0x65, 0x64];
    proof {
        assert(k@ =~= lit_not_authenticated());
    }
    k
}

/// Owned bytes of `InvalidInput: `.
pub fn pre_invalid_input_x() -> (k: Vec<u8>)
    ensures
        k@ == pre_invalid_input(),
{
    let k: Vec<u8> = vec![0x49u8, 0x6e, 0x76, 0x61, 0x6c, 0x69, 0x64, 0x49, 0x6e, 0x70, 0x75, 0x74, 0x3a, 0x20];
    proof {
        assert(k@ =~= pre_invalid_input());
    }
    k
}

/// Owned bytes of `Internal error: `.
pub fn pre_internal_x() -> (k: Vec<u8>)
    ensures
        k@ == pre_internal(),
{
    let k: Vec<u8> = vec![0x49u8, 0x6e, 0x74, 0x65, 0x72, 0x6e, 0x61, 0x6c, 0x20, 0x65, 0x72, 0x72, 0x6f, 0x72, 0x3a, 0x20];
    proof {
        assert(k@ =~= pre_internal());
    }
    k
}

/// Owned bytes of ` - `.
pub fn lit_dash_sep_x() -> (k: Vec<u8>)
    ensures
        k@ == lit_dash_sep(),
{
    let k: Vec<u8> = vec![0x20u8, 0x2d, 0x20];
    proof {
        assert(k@ =~= lit_dash_sep());
    }
    k
}


/// Everything that can go wrong in the client, as one taxonomy.
#[derive(Debug)]
pub enum VRCError {
    /// The transport failed; the rendered transport error.
    NetworkError(Vec<u8>),
    /// A payload did not parse as JSON; the rendered parse error.
    JsonParseError(Vec<u8>),
    /// The service refused a call.
    ApiError { status_code: u16, message: Vec<u8>, raw_body: Option<Vec<u8>> },
    AuthenticationFailed(Vec<u8>),
    CookieExtractionFailed(Vec<u8>),
    NotAuthenticated,
    InvalidInput(Vec<u8>),
    InternalError(Vec<u8>),
}

/// The rendered line of each error kind.
pub open spec fn vrc_error_text_spec(e: &VRCError) -> Seq<u8> {
    match e {
        VRCError::NetworkError(m) => pre_network() + m@,
        VRCError::JsonParseError(m) => pre_json_parse() + m@,
        VRCError::ApiError { status_code, message, raw_body } => pre_api_error() + dec_rep(
            *status_code as int,
        ) + lit_dash_sep() + message@,
        VRCError::AuthenticationFailed(m) => pre_auth_failed() + m@,
        VRCError::CookieExtractionFailed(m) => pre_cookie() + m@,
        VRCError::NotAuthenticated => lit_not_authenticated(),
        VRCError::InvalidInput(m) => pre_invalid_input() + m@,
        VRCError::InternalError(m) => pre_internal() + m@,
    }
}

impl VRCError {
    /// Render the error line.
    pub fn describe(&self) -> (r: Vec<u8>)
        ensures
            r@ == vrc_error_text_spec(self),
    {
        match self {
            VRCError::NetworkError(m) => {
                let mut out = pre_network_x();
                append_bytes(&mut out, m.as_slice());
                out
            },
            VRCError::JsonParseError(m) => {
                let mut out = pre_json_parse_x();
                append_bytes(&mut out, m.as_slice());
                out
            },
            VRCError::ApiError { status_code, message, raw_body: _raw_body } => {
                let mut out = pre_api_error_x();
                let digits = u16_to_dec(*status_code);
                append_bytes(&mut out, digits.as_slice());
                append_bytes(&mut out, lit_dash_sep_x().as_slice());
                append_bytes(&mut out, message.as_slice());
                out
            },
            VRCError::AuthenticationFailed(m) => {
                let mut out = pre_auth_failed_x();
                append_bytes(&mut out, m.as_slice());
                out
            },
            VRCError::CookieExtractionFailed(m) => {
                let mut out = pre_cookie_x();
                append_bytes(&mut out, m.as_slice());
                out
            },
            VRCError::NotAuthenticated => lit_not_authenticated_x(),
            VRCError::InvalidInput(m) => {
                let mut out = pre_invalid_input_x();
                append_bytes(&mut out, m.as_slice());
                out
            },
            VRCError::InternalError(m) => {
                let mut out = pre_internal_x();
                append_bytes(&mut out, m.as_slice());
                out
            },
        }
    }
}

} // verus!
