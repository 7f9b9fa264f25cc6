use botan_core::api_auth::{
    classify_auth_response, encode_vrchat_credentials, extract_auth_cookie_value, u16_to_dec,
    AuthError,
};
use botan_core::auth_flow::{
    plan_two_factor_verification, select_two_factor_code, LoginDirective, LoginEvent, LoginFlow,
    TwoFactorPlan,
};
use botan_core::models::{
    EitherTwoFactorAuthCodeType, TwoFactorAuthCode, TwoFactorEmailCode, TwoFactorVerifyResult,
    Verify2FaEmailCodeResult, Verify2FaResult,
};
use botan_core::response::{create_error_response, ApiErrorKind, ApiResponse, ErrorDetails};
use botan_core::error::VRCError;
use botan_core::worker::prepare_connection;

#[test]
fn encodes_plain_credentials() {
    let r = encode_vrchat_credentials(b"user", b"pass");
    assert_eq!(r, "dXNlcjpwYXNz");
}

#[test]
fn percent_encodes_before_base64() {
    // "a b" -> "a%20b", "p@ss" -> "p%40ss"; base64("a%20b:p%40ss")
    let r = encode_vrchat_credentials(b"a b", b"p@ss");
    assert_eq!(r, "YSUyMGI6cCU0MHNz");
}

#[test]
fn encodes_empty_credentials() {
    // percent-encoding leaves nothing; base64 of ":" alone
    assert_eq!(encode_vrchat_credentials(b"", b""), "Og==");
}

#[test]
fn extracts_auth_cookie() {
    let headers = vec![b"auth=tok123; Path=/; HttpOnly".to_vec()];
    assert_eq!(extract_auth_cookie_value(&headers), Some(b"tok123".to_vec()));
}

#[test]
fn cookie_part_may_come_later_and_is_trimmed() {
    let headers = vec![
        b"theme=dark; Path=/".to_vec(),
        b"session=x;  auth=tok456 ; Secure".to_vec(),
    ];
    assert_eq!(extract_auth_cookie_value(&headers), Some(b"tok456".to_vec()));
}

#[test]
fn empty_auth_value_yields_no_cookie() {
    let headers = vec![b"auth=; Path=/".to_vec(), b"auth=other".to_vec()];
    assert_eq!(extract_auth_cookie_value(&headers), None);
}

#[test]
fn no_auth_part_yields_no_cookie() {
    let headers = vec![b"theme=dark".to_vec(), b"other=1; x=2".to_vec()];
    assert_eq!(extract_auth_cookie_value(&headers), None);
}

#[test]
fn classify_grants_context_on_200_with_cookie() {
    let body = br#"{"id":"usr_1","displayName":"Ann","requiresTwoFactorAuth":[]}"#;
    let ctx = classify_auth_response(200, body, Some(b"tok".to_vec())).unwrap();
    assert_eq!(ctx.auth_cookie_value, b"tok".to_vec());
    assert_eq!(ctx.user.id, Some(b"usr_1".to_vec()));
    assert_eq!(ctx.user.display_name, Some(b"Ann".to_vec()));
    assert_eq!(ctx.user.requires_two_factor_auth, Vec::<Vec<u8>>::new());
}

#[test]
fn classify_reads_pending_two_factor_methods() {
    let body = br#"{"requiresTwoFactorAuth":["emailOtp"],"emailVerified":true}"#;
    let ctx = classify_auth_response(200, body, Some(b"tok".to_vec())).unwrap();
    assert_eq!(ctx.user.requires_two_factor_auth, vec![b"emailOtp".to_vec()]);
    assert_eq!(ctx.user.email_verified, Some(true));
    assert_eq!(ctx.user.id, None);
}

#[test]
fn classify_refuses_200_without_cookie() {
    let body = br#"{"requiresTwoFactorAuth":[]}"#;
    let err = classify_auth_response(200, body, None).unwrap_err();
    assert_eq!(
        err.message,
        b"Auth cookie not found or invalid in response headers despite 200 OK.".to_vec()
    );
    assert_eq!(err.auth_cookie_value, None);
}

#[test]
fn classify_refuses_unreadable_user_body() {
    let err = classify_auth_response(200, b"{]", Some(b"tok".to_vec())).unwrap_err();
    assert_eq!(
        err.message,
        b"200 OK, but failed to parse user data. Body was: '{]'".to_vec()
    );
    assert_eq!(err.auth_cookie_value, Some(b"tok".to_vec()));
}

#[test]
fn classify_reports_service_error_detail() {
    let body = br#"{"error":{"message":"Invalid Username/Email or Password","status_code":401}}"#;
    let err = classify_auth_response(401, body, None).unwrap_err();
    assert_eq!(
        err.message,
        b"VRChat API error (401): Invalid Username/Email or Password".to_vec()
    );
}

#[test]
fn classify_quotes_non_json_error_body() {
    let err = classify_auth_response(502, b"Bad Gateway", None).unwrap_err();
    assert_eq!(
        err.message,
        b"VRChat API returned status 502 with non-JSON error body. Body: 'Bad Gateway'".to_vec()
    );
}

#[test]
fn auth_error_description_names_the_cookie() {
    let with_cookie = AuthError {
        message: b"boom".to_vec(),
        auth_cookie_value: Some(b"tok".to_vec()),
    };
    assert_eq!(with_cookie.describe(), b"boom (Auth Cookie found: tok)".to_vec());
    let without = AuthError { message: b"boom".to_vec(), auth_cookie_value: None };
    assert_eq!(without.describe(), b"boom (No valid Auth Cookie found in headers)".to_vec());
}

#[test]
fn renders_decimal_digits() {
    assert_eq!(u16_to_dec(0), b"0".to_vec());
    assert_eq!(u16_to_dec(7), b"7".to_vec());
    assert_eq!(u16_to_dec(65535), b"65535".to_vec());
}

#[test]
fn two_factor_plan_matches_kind_and_code() {
    let auth_code = EitherTwoFactorAuthCodeType::IsA(TwoFactorAuthCode { code: "123456".into() });
    match plan_two_factor_verification(b"2fa", auth_code) {
        TwoFactorPlan::CallAuthApi(c) => assert_eq!(c.code, "123456"),
        other => panic!("unexpected plan: {:?}", plan_name(&other)),
    }
    let email_code = EitherTwoFactorAuthCodeType::IsB(TwoFactorEmailCode { code: "99".into() });
    match plan_two_factor_verification(b"email", email_code) {
        TwoFactorPlan::CallEmailApi(c) => assert_eq!(c.code, "99"),
        other => panic!("unexpected plan: {:?}", plan_name(&other)),
    }
}

fn plan_name(p: &TwoFactorPlan) -> &'static str {
    match p {
        TwoFactorPlan::CallAuthApi(_) => "CallAuthApi",
        TwoFactorPlan::CallEmailApi(_) => "CallEmailApi",
        TwoFactorPlan::Reject(_) => "Reject",
    }
}

#[test]
fn two_factor_plan_rejects_mismatched_codes() {
    let email_code = EitherTwoFactorAuthCodeType::IsB(TwoFactorEmailCode { code: "99".into() });
    match plan_two_factor_verification(b"2fa", email_code) {
        TwoFactorPlan::Reject(r) => {
            assert_eq!(r.status, 400);
            assert_eq!(r.message, b"Invalid code type for auth verification".to_vec());
        }
        other => panic!("unexpected plan: {:?}", plan_name(&other)),
    }
    let auth_code = EitherTwoFactorAuthCodeType::IsA(TwoFactorAuthCode { code: "1".into() });
    match plan_two_factor_verification(b"email", auth_code) {
        TwoFactorPlan::Reject(r) => {
            assert_eq!(r.message, b"Invalid code type for email verification".to_vec());
        }
        other => panic!("unexpected plan: {:?}", plan_name(&other)),
    }
    let auth_code = EitherTwoFactorAuthCodeType::IsA(TwoFactorAuthCode { code: "1".into() });
    match plan_two_factor_verification(b"sms", auth_code) {
        TwoFactorPlan::Reject(r) => {
            assert_eq!(r.message, b"Unknown two-factor type".to_vec());
        }
        other => panic!("unexpected plan: {:?}", plan_name(&other)),
    }
}

#[test]
fn selects_code_kind_from_configuration() {
    match select_two_factor_code(b"email", "11".into()) {
        EitherTwoFactorAuthCodeType::IsB(c) => assert_eq!(c.code, "11"),
        EitherTwoFactorAuthCodeType::IsA(_) => panic!("expected email code"),
    }
    match select_two_factor_code(b"2fa", "22".into()) {
        EitherTwoFactorAuthCodeType::IsA(c) => assert_eq!(c.code, "22"),
        EitherTwoFactorAuthCodeType::IsB(_) => panic!("expected auth code"),
    }
}

#[test]
fn verify_results_reduce_to_single_shape() {
    let a = TwoFactorVerifyResult::from(Verify2FaResult { verified: true, enabled: Some(true) });
    assert!(a.verified);
    assert_eq!(a.enabled, Some(true));
    let b = TwoFactorVerifyResult::from(Verify2FaEmailCodeResult { verified: false });
    assert!(!b.verified);
    assert_eq!(b.enabled, None);
}

#[test]
fn api_response_constructors_fill_fields() {
    let ok: ApiResponse<u32> = ApiResponse::success(7, None);
    assert_eq!(ok.status, 200);
    assert!(ok.success);
    assert_eq!(ok.data, Some(7));
    assert_eq!(ok.message, b"Success".to_vec());
    let ok2: ApiResponse<u32> = ApiResponse::success(8, Some(b"Login successful".to_vec()));
    assert_eq!(ok2.message, b"Login successful".to_vec());
    let err: ApiResponse<u32> = ApiResponse::simple_error(401, b"2FA verification failed".to_vec());
    assert_eq!(err.status, 401);
    assert!(!err.success);
    assert!(err.data.is_none());
}

#[test]
fn error_response_keeps_service_status_and_body() {
    let kind = ApiErrorKind::ResponseError { status: 403, content: br#"{"oops":1}"#.to_vec() };
    let r: ApiResponse<u32> = create_error_response(&kind, b"Failed to login");
    assert_eq!(r.status, 403);
    assert_eq!(r.message, b"Failed to login: error in response: status code 403".to_vec());
    match r.error_details {
        Some(ErrorDetails::JsonBody(b)) => assert_eq!(b, br#"{"oops":1}"#.to_vec()),
        other => panic!("unexpected details: {:?}", other.is_some()),
    }
}

#[test]
fn error_response_wraps_non_json_body() {
    let kind = ApiErrorKind::ResponseError { status: 500, content: b"<html>".to_vec() };
    let r: ApiResponse<u32> = create_error_response(&kind, b"Failed to login");
    match r.error_details {
        Some(ErrorDetails::RawContent { raw_content, status }) => {
            assert_eq!(raw_content, b"<html>".to_vec());
            assert_eq!(status, 500);
        }
        other => panic!("unexpected details: {:?}", other.is_some()),
    }
}

#[test]
fn transport_error_defaults_to_500() {
    let kind = ApiErrorKind::Transport { status: None, message: b"connection reset".to_vec() };
    let r: ApiResponse<u32> = create_error_response(&kind, b"Failed to login");
    assert_eq!(r.status, 500);
    assert_eq!(r.message, b"Failed to login: error in reqwest: connection reset".to_vec());
}

#[test]
fn login_flow_follows_two_factor_loop() {
    let mut flow = LoginFlow::new();
    assert_eq!(flow.step(LoginEvent::TwoFactorRequired), LoginDirective::ReadCode);
    assert_eq!(flow.step(LoginEvent::CodeRead), LoginDirective::VerifyCode);
    assert_eq!(flow.step(LoginEvent::VerifySucceeded), LoginDirective::FetchUser);
    assert_eq!(flow.step(LoginEvent::GotCurrentUser), LoginDirective::StartPipelineAndSucceed);
}

#[test]
fn login_flow_terminal_failures() {
    let mut flow = LoginFlow::new();
    assert_eq!(flow.step(LoginEvent::FetchFailed), LoginDirective::ReturnFetchError);
    let mut flow = LoginFlow::new();
    flow.step(LoginEvent::TwoFactorRequired);
    assert_eq!(flow.step(LoginEvent::CodeReadFailed), LoginDirective::ReturnCodeReadError);
    let mut flow = LoginFlow::new();
    flow.step(LoginEvent::TwoFactorRequired);
    flow.step(LoginEvent::CodeRead);
    assert_eq!(flow.step(LoginEvent::VerifyFailed), LoginDirective::ReturnVerifyError);
    // events foreign to the state do nothing
    assert_eq!(flow.step(LoginEvent::CodeRead), LoginDirective::Stay);
}

#[test]
fn connection_request_embeds_token() {
    let req = prepare_connection("tok123").unwrap();
    assert_eq!(req.url, "wss://pipeline.vrchat.cloud/?authToken=tok123");
    assert_eq!(req.user_agent, "botan_core/0.1.0");
}

#[test]
fn vrc_error_lines_render_each_kind() {
    assert_eq!(
        VRCError::NetworkError(b"timed out".to_vec()).describe(),
        b"Network error: timed out".to_vec()
    );
    assert_eq!(
        VRCError::JsonParseError(b"eof".to_vec()).describe(),
        b"Json parse error: eof".to_vec()
    );
    assert_eq!(
        VRCError::ApiError {
            status_code: 429,
            message: b"slow down".to_vec(),
            raw_body: None,
        }
        .describe(),
        b"API error: 429 - slow down".to_vec()
    );
    assert_eq!(
        VRCError::AuthenticationFailed(b"bad token".to_vec()).describe(),
        b"Authentication error: bad token".to_vec()
    );
    assert_eq!(
        VRCError::CookieExtractionFailed(b"no header".to_vec()).describe(),
        b"Parse cookie error: no header".to_vec()
    );
    assert_eq!(VRCError::NotAuthenticated.describe(), b"Not authenticated".to_vec());
    assert_eq!(
        VRCError::InvalidInput(b"empty id".to_vec()).describe(),
        b"InvalidInput: empty id".to_vec()
    );
    assert_eq!(
        VRCError::InternalError(b"oops".to_vec()).describe(),
        b"Internal error: oops".to_vec()
    );
}
