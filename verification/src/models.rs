//! Shared request/response models of the session flows: login
//! credentials, the two second-factor code kinds the service accepts,
//! and the verification result both code paths reduce to.

use vstd::prelude::*;

verus! {

/// Login credentials as the desktop flows carry them.
pub struct LoginCredentials {
    pub username: String,
    pub password: Option<String>,
    pub auto_login_user_id: Option<String>,
}

/// A time-based one-time code.
pub struct TwoFactorAuthCode {
    pub code: String,
}

/// A code sent by email.
pub struct TwoFactorEmailCode {
    pub code: String,
}

/// One of the two second-factor code kinds.
pub enum EitherTwoFactorAuthCodeType {
    IsA(TwoFactorAuthCode),
    IsB(TwoFactorEmailCode),
}

/// Result of verifying a time-based code.
pub struct Verify2FaResult {
    pub verified: bool,
    pub enabled: Option<bool>,
}

/// Result of verifying an email code.
pub struct Verify2FaEmailCodeResult {
    pub verified: bool,
}

/// One of the two verification result kinds.
pub enum EitherTwoFactorResultType {
    IsA(Verify2FaResult),
    IsB(Verify2FaEmailCodeResult),
}

/// The single result shape both verification paths reduce to.
pub struct TwoFactorVerifyResult {
    pub verified: bool,
    pub enabled: Option<bool>,
}

impl From<Verify2FaResult> for TwoFactorVerifyResult {
    fn from(result: Verify2FaResult) -> (t: TwoFactorVerifyResult) {
        TwoFactorVerifyResult { verified: result.verified, enabled: result.enabled }
    }
}

impl vstd::std_specs::convert::FromSpecImpl<Verify2FaResult> for TwoFactorVerifyResult {
    open spec fn obeys_from_spec() -> bool {
        true
    }

    open spec fn from_spec(result: Verify2FaResult) -> TwoFactorVerifyResult {
        TwoFactorVerifyResult { verified: result.verified, enabled: result.enabled }
    }
}

impl From<Verify2FaEmailCodeResult> for TwoFactorVerifyResult {
    fn from(result: Verify2FaEmailCodeResult) -> (t: TwoFactorVerifyResult) {
        TwoFactorVerifyResult { verified: result.verified, enabled: None }
    }
}

impl vstd::std_specs::convert::FromSpecImpl<Verify2FaEmailCodeResult> for TwoFactorVerifyResult {
    open spec fn obeys_from_spec() -> bool {
        true
    }

    open spec fn from_spec(result: Verify2FaEmailCodeResult) -> TwoFactorVerifyResult {
        TwoFactorVerifyResult { verified: result.verified, enabled: None }
    }
}

} // verus!
