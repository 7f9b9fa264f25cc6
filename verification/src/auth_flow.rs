//! Login flow: the decisions of the interactive session bootstrap.
//! Fetching the current user, prompting for and verifying a second
//! factor, and starting the pipeline are actions the surrounding
//! runtime performs; which action comes next, and which response ends
//! the flow, is decided here and only here.

use crate::json::bytes_eq;
use crate::models::{
    EitherTwoFactorAuthCodeType, TwoFactorAuthCode, TwoFactorEmailCode, TwoFactorVerifyResult,
};
use crate::response::ApiResponse;
use vstd::prelude::*;

verus! {

/// The bytes of `2fa`.
pub open spec fn tag_totp() -> Seq<u8> {
    seq![0x32u8, 0x66, 0x61]
}

/// The bytes of `email`.
pub open spec fn tag_email() -> Seq<u8> {
    seq![0x65u8, 0x6d, 0x61, 0x69, 0x6c]
}

/// The bytes of `Invalid code type for auth verification`.
pub open spec fn msg_bad_auth_code_type() -> Seq<u8> {
    seq![0x49u8, 0x6e, 0x76, 0x61, 0x6c, 0x69, 0x64, 0x20, 0x63, 0x6f, 0x64, 0x65, 0x20, 0x74, 0x79, 0x70, 0x65, 0x20, 0x66, 0x6f, 0x72, 0x20, 0x61, 0x75, 0x74, 0x68, 0x20, 0x76, 0x65, 0x72, 0x69, 0x66, 0x69, 0x63, 0x61, 0x74, 0x69, 0x6f, 0x6e]
}

/// The bytes of `Invalid code type for email verification`.
pub open spec fn msg_bad_email_code_type() -> Seq<u8> {
    seq![0x49u8, 0x6e, 0x76, 0x61, 0x6c, 0x69, 0x64, 0x20, 0x63, 0x6f, 0x64, 0x65, 0x20, 0x74, 0x79, 0x70, 0x65, 0x20, 0x66, 0x6f, 0x72, 0x20, 0x65, 0x6d, 0x61, 0x69, 0x6c, 0x20, 0x76, 0x65, 0x72, 0x69, 0x66, 0x69, 0x63, 0x61, 0x74, 0x69, 0x6f, 0x6e]
}

/// The bytes of `Unknown two-factor type`.
pub open spec fn msg_unknown_two_factor() -> Seq<u8> {
    seq![0x55u8, 0x6e, 0x6b, 0x6e, 0x6f, 0x77, 0x6e, 0x20, 0x74, 0x77, 0x6f, 0x2d, 0x66, 0x61, 0x63, 0x74, 0x6f, 0x72, 0x20, 0x74, 0x79, 0x70, 0x65]
}

/// The bytes of `Login successful`.
pub open spec fn msg_login_ok() -> Seq<u8> {
    seq![0x4cu8, 0x6f, 0x67, 0x69, 0x6e, 0x20, 0x73, 0x75, 0x63, 0x63, 0x65, 0x73, 0x73, 0x66, 0x75, 0x6c]
}

/// The bytes of `2FA verification successful`.
pub open spec fn msg_2fa_ok() -> Seq<u8> {
    seq![0x32u8, 0x46, 0x41, 0x20, 0x76, 0x65, 0x72, 0x69, 0x66, 0x69, 0x63, 0x61, 0x74, 0x69, 0x6f, 0x6e, 0x20, 0x73, 0x75, 0x63, 0x63, 0x65, 0x73, 0x73, 0x66, 0x75, 0x6c]
}

/// The bytes of `Email 2FA verification successful`.
pub open spec fn msg_email_2fa_ok() -> Seq<u8> {
    seq![0x45u8, 0x6d, 0x61, 0x69, 0x6c, 0x20, 0x32, 0x46, 0x41, 0x20, 0x76, 0x65, 0x72, 0x69, 0x66, 0x69, 0x63, 0x61, 0x74, 0x69, 0x6f, 0x6e, 0x20, 0x73, 0x75, 0x63, 0x63, 0x65, 0x73, 0x73, 0x66, 0x75, 0x6c]
}

/// The bytes of `Failed to read 2FA code from stdin`.
pub open spec fn msg_stdin_failed() -> Seq<u8> {
    seq![0x46u8, 0x61, 0x69, 0x6c, 0x65, 0x64, 0x20, 0x74, 0x6f, 0x20, 0x72, 0x65, 0x61, 0x64, 0x20, 0x32, 0x46, 0x41, 0x20, 0x63, 0x6f, 0x64, 0x65, 0x20, 0x66, 0x72, 0x6f, 0x6d, 0x20, 0x73, 0x74, 0x64, 0x69, 0x6e]
}

/// The bytes of `2FA verification failed`.
pub open spec fn msg_2fa_failed() -> Seq<u8> {
    seq![0x32u8, 0x46, 0x41, 0x20, 0x76, 0x65, 0x72, 0x69, 0x66, 0x69, 0x63, 0x61, 0x74, 0x69, 0x6f, 0x6e, 0x20, 0x66, 0x61, 0x69, 0x6c, 0x65, 0x64]
}

/// The bytes of `Failed to login`.
pub open spec fn msg_login_failed() -> Seq<u8> {
    seq![0x46u8, 0x61, 0x69, 0x6c, 0x65, 0x64, 0x20, 0x74, 0x6f, 0x20, 0x6c, 0x6f, 0x67, 0x69, 0x6e]
}

/// Owned bytes of `2fa`.
pub fn tag_totp_x() -> (k: Vec<u8>)
    ensures
        k@ == tag_totp(),
{
    let k: Vec<u8> = vec![0x32u8, 0x66, 0x61];
    proof {
        assert(k@ =~= tag_totp());
    }
    k
}

/// Owned bytes of `email`.
pub fn tag_email_x() -> (k: Vec<u8>)
    ensures
        k@ == tag_email(),
{
    let k: Vec<u8> = vec![0x65u8, 0x6d, 0x61, 0x69, 0x6c];
    proof {
        assert(k@ =~= tag_email());
    }
    k
}

/// Owned bytes of `Invalid code type for auth verification`.
pub fn msg_bad_auth_code_type_x() -> (k: Vec<u8>)
    ensures
        k@ == msg_bad_auth_code_type(),
{
    let k: Vec<u8> = vec![0x49u8, 0x6e, 0x76, 0x61, 0x6c, 0x69, 0x64, 0x20, 0x63, 0x6f, 0x64, 0x65, 0x20, 0x74, 0x79, 0x70, 0x65, 0x20, 0x66, 0x6f, 0x72, 0x20, 0x61, 0x75, 0x74, 0x68, 0x20, 0x76, 0x65, 0x72, 0x69, 0x66, 0x69, 0x63, 0x61, 0x74, 0x69, 0x6f, 0x6e];
    proof {
        assert(k@ =~= msg_bad_auth_code_type());
    }
    k
}

/// Owned bytes of `Invalid code type for email verification`.
pub fn msg_bad_email_code_type_x() -> (k: Vec<u8>)
    ensures
        k@ == msg_bad_email_code_type(),
{
    let k: Vec<u8> = vec![0x49u8, 0x6e, 0x76, 0x61, 0x6c, 0x69, 0x64, 0x20, 0x63, 0x6f, 0x64, 0x65, 0x20, 0x74, 0x79, 0x70, 0x65, 0x20, 0x66, 0x6f, 0x72, 0x20, 0x65, 0x6d, 0x61, 0x69, 0x6c, 0x20, 0x76, 0x65, 0x72, 0x69, 0x66, 0x69, 0x63, 0x61, 0x74, 0x69, 0x6f, 0x6e];
    proof {
        assert(k@ =~= msg_bad_email_code_type());
    }
    k
}

/// Owned bytes of `Unknown two-factor type`.
pub fn msg_unknown_two_factor_x() -> (k: Vec<u8>)
    ensures
        k@ == msg_unknown_two_factor(),
{
    let k: Vec<u8> = vec![0x55u8, 0x6e, 0x6b, 0x6e, 0x6f, 0x77, 0x6e, 0x20, 0x74, 0x77, 0x6f, 0x2d, 0x66, 0x61, 0x63, 0x74, 0x6f, 0x72, 0x20, 0x74, 0x79, 0x70, 0x65];
    proof {
        assert(k@ =~= msg_unknown_two_factor());
    }
    k
}

/// Owned bytes of `Login successful`.
pub fn msg_login_ok_x() -> (k: Vec<u8>)
    ensures
        k@ == msg_login_ok(),
{
    let k: Vec<u8> = vec![0x4cu8, 0x6f, 0x67, 0x69, 0x6e, 0x20, 0x73, 0x75, 0x63, 0x63, 0x65, 0x73, 0x73, 0x66, 0x75, 0x6c];
    proof {
        assert(k@ =~= msg_login_ok());
    }
    k
}

/// Owned bytes of `2FA verification successful`.
pub fn msg_2fa_ok_x() -> (k: Vec<u8>)
    ensures
        k@ == msg_2fa_ok(),
{
    let k: Vec<u8> = vec![0x32u8, 0x46, 0x41, 0x20, 0x76, 0x65, 0x72, 0x69, 0x66, 0x69, 0x63, 0x61, 0x74, 0x69, 0x6f, 0x6e, 0x20, 0x73, 0x75, 0x63, 0x63, 0x65, 0x73, 0x73, 0x66, 0x75, 0x6c];
    proof {
        assert(k@ =~= msg_2fa_ok());
    }
    k
}

/// Owned bytes of `Email 2FA verification successful`.
pub fn msg_email_2fa_ok_x() -> (k: Vec<u8>)
    ensures
        k@ == msg_email_2fa_ok(),
{
    let k: Vec<u8> = vec![0x45u8, 0x6d, 0x61, 0x69, 0x6c, 0x20, 0x32, 0x46, 0x41, 0x20, 0x76, 0x65, 0x72, 0x69, 0x66, 0x69, 0x63, 0x61, 0x74, 0x69, 0x6f, 0x6e, 0x20, 0x73, 0x75, 0x63, 0x63, 0x65, 0x73, 0x73, 0x66, 0x75, 0x6c];
    proof {
        assert(k@ =~= msg_email_2fa_ok());
    }
    k
}

/// Owned bytes of `Failed to read 2FA code from stdin`.
pub fn msg_stdin_failed_x() -> (k: Vec<u8>)
    ensures
        k@ == msg_stdin_failed(),
{
    let k: Vec<u8> = vec![0x46u8, 0x61, 0x69, 0x6c, 0x65, 0x64, 0x20, 0x74, 0x6f, 0x20, 0x72, 0x65, 0x61, 0x64, 0x20, 0x32, 0x46, 0x41, 0x20, 0x63, 0x6f, 0x64, 0x65, 0x20, 0x66, 0x72, 0x6f, 0x6d, 0x20, 0x73, 0x74, 0x64, 0x69, 0x6e];
    proof {
        assert(k@ =~= msg_stdin_failed());
    }
    k
}

/// Owned bytes of `2FA verification failed`.
pub fn msg_2fa_failed_x() -> (k: Vec<u8>)
    ensures
        k@ == msg_2fa_failed(),
{
    let k: Vec<u8> = vec![0x32u8, 0x46, 0x41, 0x20, 0x76, 0x65, 0x72, 0x69, 0x66, 0x69, 0x63, 0x61, 0x74, 0x69, 0x6f, 0x6e, 0x20, 0x66, 0x61, 0x69, 0x6c, 0x65, 0x64];
    proof {
        assert(k@ =~= msg_2fa_failed());
    }
    k
}

/// Owned bytes of `Failed to login`.
pub fn msg_login_failed_x() -> (k: Vec<u8>)
    ensures
        k@ == msg_login_failed(),
{
    let k: Vec<u8> = vec![0x46u8, 0x61, 0x69, 0x6c, 0x65, 0x64, 0x20, 0x74, 0x6f, 0x20, 0x6c, 0x6f, 0x67, 0x69, 0x6e];
    proof {
        assert(k@ =~= msg_login_failed());
    }
    k
}


/// What a two-factor verification request asks for: one of the two
/// API calls, or an immediate rejection.
pub enum TwoFactorPlan {
    CallAuthApi(TwoFactorAuthCode),
    CallEmailApi(TwoFactorEmailCode),
    Reject(ApiResponse<TwoFactorVerifyResult>),
}

/// Decide what a two-factor verification request leads to:
/// - kind `2fa` with a time-based code calls the auth-code API;
/// - kind `email` with an email code calls the email-code API;
/// - a code of the wrong kind, or an unknown kind, is rejected with
///   status 400 and the matching message, and no call is made.
pub fn plan_two_factor_verification(two_fa_type: &[u8], code: EitherTwoFactorAuthCodeType) -> (p:
    TwoFactorPlan)
    ensures
        ({
            match p {
                TwoFactorPlan::CallAuthApi(c) => two_fa_type@ == tag_totp() && code
                    == EitherTwoFactorAuthCodeType::IsA(c),
                TwoFactorPlan::CallEmailApi(c) => two_fa_type@ == tag_email() && code
                    == EitherTwoFactorAuthCodeType::IsB(c),
                TwoFactorPlan::Reject(r) => !r.success && r.status == 400 && r.data is None
                    && r.error_details is None && r.message@ == (if two_fa_type@ == tag_totp() {
                    msg_bad_auth_code_type()
                } else if two_fa_type@ == tag_email() {
                    msg_bad_email_code_type()
                } else {
                    msg_unknown_two_factor()
                }),
            }
        }),
        two_fa_type@ == tag_totp() && code is IsA ==> p is CallAuthApi,
        two_fa_type@ == tag_email() && code is IsB ==> p is CallEmailApi,
{
    if bytes_eq(two_fa_type, tag_totp_x().as_slice()) {
        match code {
            EitherTwoFactorAuthCodeType::IsA(c) => TwoFactorPlan::CallAuthApi(c),
            EitherTwoFactorAuthCodeType::IsB(_c) => TwoFactorPlan::Reject(
                ApiResponse::simple_error(400, msg_bad_auth_code_type_x()),
            ),
        }
    } else if bytes_eq(two_fa_type, tag_email_x().as_slice()) {
        match code {
            EitherTwoFactorAuthCodeType::IsB(c) => TwoFactorPlan::CallEmailApi(c),
            EitherTwoFactorAuthCodeType::IsA(_c) => TwoFactorPlan::Reject(
                ApiResponse::simple_error(400, msg_bad_email_code_type_x()),
            ),
        }
    } else {
        TwoFactorPlan::Reject(ApiResponse::simple_error(400, msg_unknown_two_factor_x()))
    }
}

/// Pick the code kind a worker configuration names: `email` selects
/// an email code, anything else a time-based code.
pub fn select_two_factor_code(kind: &[u8], code: String) -> (c: EitherTwoFactorAuthCodeType)
    ensures
        kind@ == tag_email() ==> c == EitherTwoFactorAuthCodeType::IsB(
            TwoFactorEmailCode { code },
        ),
        kind@ != tag_email() ==> c == EitherTwoFactorAuthCodeType::IsA(
            TwoFactorAuthCode { code },
        ),
{
    if bytes_eq(kind, tag_email_x().as_slice()) {
        EitherTwoFactorAuthCodeType::IsB(TwoFactorEmailCode { code })
    } else {
        EitherTwoFactorAuthCodeType::IsA(TwoFactorAuthCode { code })
    }
}

/// Where the login flow stands.
#[derive(Clone, Copy, PartialEq, Eq, Structural, Debug)]
pub enum LoginState {
    /// The current-user request is in flight (or about to be).
    FetchingUser,
    /// A second factor is required; a code must be read.
    AwaitingCode,
    /// A read code is being verified.
    VerifyingCode,
    /// A response has been returned; the flow is over.
    Finished,
}

/// What the runtime reports back to the flow.
#[derive(Clone, Copy, PartialEq, Eq, Structural, Debug)]
pub enum LoginEvent {
    /// The current-user request returned the user.
    GotCurrentUser,
    /// The current-user request asks for a second factor.
    TwoFactorRequired,
    /// The current-user request failed; terminal.
    FetchFailed,
    /// A code was read from the operator.
    CodeRead,
    /// Reading the code failed; terminal.
    CodeReadFailed,
    /// The code verified; the login is retried.
    VerifySucceeded,
    /// The code did not verify; terminal.
    VerifyFailed,
}

/// What the runtime must do next.
#[derive(Clone, Copy, PartialEq, Eq, Structural, Debug)]
pub enum LoginDirective {
    /// Issue the current-user request.
    FetchUser,
    /// Read a second-factor code.
    ReadCode,
    /// Verify the read code.
    VerifyCode,
    /// Authorize the stream, start the pipeline, and return success
    /// (a pipeline start failure is logged, never surfaced).
    StartPipelineAndSucceed,
    /// Return the fetch failure as the flow's response.
    ReturnFetchError,
    /// Return status 500: the code could not be read.
    ReturnCodeReadError,
    /// Return status 401: the code did not verify.
    ReturnVerifyError,
    /// Nothing: the event does not belong to this state.
    Stay,
}

/// The login flow's state machine. It loops fetch -> two-factor ->
/// fetch until the service returns the user or a terminal failure.
pub struct LoginFlow {
    state: LoginState,
}

impl LoginFlow {
    pub closed spec fn state(&self) -> LoginState {
        self.state
    }

    /// A fresh flow: the first action is the current-user request.
    pub fn new() -> (f: LoginFlow)
        ensures
            f.state() == LoginState::FetchingUser,
    {
        LoginFlow { state: LoginState::FetchingUser }
    }

    /// Drive the flow by one event. The contract pins every
    /// transition; an event foreign to the current state changes
    /// nothing.
    pub fn step(&mut self, event: LoginEvent) -> (d: LoginDirective)
        ensures
            old(self).state() == LoginState::FetchingUser && event == LoginEvent::GotCurrentUser
                ==> final(self).state() == LoginState::Finished && d
                == LoginDirective::StartPipelineAndSucceed,
            old(self).state() == LoginState::FetchingUser && event == LoginEvent::TwoFactorRequired
                ==> final(self).state() == LoginState::AwaitingCode && d
                == LoginDirective::ReadCode,
            old(self).state() == LoginState::FetchingUser && event == LoginEvent::FetchFailed
                ==> final(self).state() == LoginState::Finished && d
                == LoginDirective::ReturnFetchError,
            old(self).state() == LoginState::AwaitingCode && event == LoginEvent::CodeRead
                ==> final(self).state() == LoginState::VerifyingCode && d
                == LoginDirective::VerifyCode,
            old(self).state() == LoginState::AwaitingCode && event == LoginEvent::CodeReadFailed
                ==> final(self).state() == LoginState::Finished && d
                == LoginDirective::ReturnCodeReadError,
            old(self).state() == LoginState::VerifyingCode && event == LoginEvent::VerifySucceeded
                ==> final(self).state() == LoginState::FetchingUser && d
                == LoginDirective::FetchUser,
            old(self).state() == LoginState::VerifyingCode && event == LoginEvent::VerifyFailed
                ==> final(self).state() == LoginState::Finished && d
                == LoginDirective::ReturnVerifyError,
            login_stalled(old(self).state(), event) ==> final(self).state() == old(self).state()
                && d == LoginDirective::Stay,
    {
        match (self.state, event) {
            (LoginState::FetchingUser, LoginEvent::GotCurrentUser) => {
                self.state = LoginState::Finished;
                LoginDirective::StartPipelineAndSucceed
            },
            (LoginState::FetchingUser, LoginEvent::TwoFactorRequired) => {
                self.state = LoginState::AwaitingCode;
                LoginDirective::ReadCode
            },
            (LoginState::FetchingUser, LoginEvent::FetchFailed) => {
                self.state = LoginState::Finished;
                LoginDirective::ReturnFetchError
            },
            (LoginState::AwaitingCode, LoginEvent::CodeRead) => {
                self.state = LoginState::VerifyingCode;
                LoginDirective::VerifyCode
            },
            (LoginState::AwaitingCode, LoginEvent::CodeReadFailed) => {
                self.state = LoginState::Finished;
                LoginDirective::ReturnCodeReadError
            },
            (LoginState::VerifyingCode, LoginEvent::VerifySucceeded) => {
                self.state = LoginState::FetchingUser;
                LoginDirective::FetchUser
            },
            (LoginState::VerifyingCode, LoginEvent::VerifyFailed) => {
                self.state = LoginState::Finished;
                LoginDirective::ReturnVerifyError
            },
            _ => LoginDirective::Stay,
        }
    }
}

/// State/event pairs on which the flow does not move.
pub open spec fn login_stalled(state: LoginState, event: LoginEvent) -> bool {
    match (state, event) {
        (LoginState::FetchingUser, LoginEvent::GotCurrentUser) => false,
        (LoginState::FetchingUser, LoginEvent::TwoFactorRequired) => false,
        (LoginState::FetchingUser, LoginEvent::FetchFailed) => false,
        (LoginState::AwaitingCode, LoginEvent::CodeRead) => false,
        (LoginState::AwaitingCode, LoginEvent::CodeReadFailed) => false,
        (LoginState::VerifyingCode, LoginEvent::VerifySucceeded) => false,
        (LoginState::VerifyingCode, LoginEvent::VerifyFailed) => false,
        _ => true,
    }
}

} // verus!
