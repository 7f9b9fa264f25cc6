//! Session bootstrap against the remote HTTP API: credential
//! encoding, auth-cookie extraction from response headers, and the
//! classification of a login response into an authenticated context
//! or a described failure. The HTTP exchange itself lives outside;
//! this module owns every decision about its bytes.

use crate::json::{
    all_digits, bytes_eq, bytes_list_view, copy_bytes, dec_val, json_top, obj_lookup, parse_str_list,
    parse_top, str_list, FieldData, JsonField, JsonObj, JsonTop, TopData,
};
use crate::json::obj_get;
use crate::events::{opt_bytes_view, opt_str};
use vstd::prelude::*;

verus! {

/// The bytes of `auth=`.
pub open spec fn auth_eq_prefix() -> Seq<u8> {
    seq![0x61u8, 0x75, 0x74, 0x68, 0x3d]
}

/// The bytes of `Auth cookie not found or invalid in response headers despite 200 OK.`.
pub open spec fn msg_no_cookie() -> Seq<u8> {
    seq![0x41u8, 0x75, 0x74, 0x68, 0x20, 0x63, 0x6f, 0x6f, 0x6b, 0x69, 0x65, 0x20, 0x6e, 0x6f, 0x74, 0x20, 0x66, 0x6f, 0x75, 0x6e, 0x64, 0x20, 0x6f, 0x72, 0x20, 0x69, 0x6e, 0x76, 0x61, 0x6c, 0x69, 0x64, 0x20, 0x69, 0x6e, 0x20, 0x72, 0x65, 0x73, 0x70, 0x6f, 0x6e, 0x73, 0x65, 0x20, 0x68, 0x65, 0x61, 0x64, 0x65, 0x72, 0x73, 0x20, 0x64, 0x65, 0x73, 0x70, 0x69, 0x74, 0x65, 0x20, 0x32, 0x30, 0x30, 0x20, 0x4f, 0x4b, 0x2e]
}

/// The bytes of `200 OK, but failed to parse user data. Body was: '`.
pub open spec fn lit_parse_fail_prefix() -> Seq<u8> {
    seq![0x32u8, 0x30, 0x30, 0x20, 0x4f, 0x4b, 0x2c, 0x20, 0x62, 0x75, 0x74, 0x20, 0x66, 0x61, 0x69, 0x6c, 0x65, 0x64, 0x20, 0x74, 0x6f, 0x20, 0x70, 0x61, 0x72, 0x73, 0x65, 0x20, 0x75, 0x73, 0x65, 0x72, 0x20, 0x64, 0x61, 0x74, 0x61, 0x2e, 0x20, 0x42, 0x6f, 0x64, 0x79, 0x20, 0x77, 0x61, 0x73, 0x3a, 0x20, 0x27]
}

/// The bytes of `VRChat API error (`.
pub open spec fn lit_api_error_prefix() -> Seq<u8> {
    seq![0x56u8, 0x52, 0x43, 0x68, 0x61, 0x74, 0x20, 0x41, 0x50, 0x49, 0x20, 0x65, 0x72, 0x72, 0x6f, 0x72, 0x20, 0x28]
}

/// The bytes of `): `.
pub open spec fn lit_api_error_mid() -> Seq<u8> {
    seq![0x29u8, 0x3a, 0x20]
}

/// The bytes of `VRChat API returned status `.
pub open spec fn lit_non_json_prefix() -> Seq<u8> {
    seq![0x56u8, 0x52, 0x43, 0x68, 0x61, 0x74, 0x20, 0x41, 0x50, 0x49, 0x20, 0x72, 0x65, 0x74, 0x75, 0x72, 0x6e, 0x65, 0x64, 0x20, 0x73, 0x74, 0x61, 0x74, 0x75, 0x73, 0x20]
}

/// The bytes of ` with non-JSON error body. Body: '`.
pub open spec fn lit_non_json_mid() -> Seq<u8> {
    seq![0x20u8, 0x77, 0x69, 0x74, 0x68, 0x20, 0x6e, 0x6f, 0x6e, 0x2d, 0x4a, 0x53, 0x4f, 0x4e, 0x20, 0x65, 0x72, 0x72, 0x6f, 0x72, 0x20, 0x62, 0x6f, 0x64, 0x79, 0x2e, 0x20, 0x42, 0x6f, 0x64, 0x79, 0x3a, 0x20, 0x27]
}

/// The bytes of `'`.
pub open spec fn lit_quote_end() -> Seq<u8> {
    seq![0x27u8]
}

/// The bytes of ` (Auth Cookie found: `.
pub open spec fn lit_cookie_found() -> Seq<u8> {
    seq![0x20u8, 0x28, 0x41, 0x75, 0x74, 0x68, 0x20, 0x43, 0x6f, 0x6f, 0x6b, 0x69, 0x65, 0x20, 0x66, 0x6f, 0x75, 0x6e, 0x64, 0x3a, 0x20]
}

/// The bytes of `)`.
pub open spec fn lit_close_paren() -> Seq<u8> {
    seq![0x29u8]
}

/// The bytes of ` (No valid Auth Cookie found in headers)`.
pub open spec fn lit_no_valid_cookie() -> Seq<u8> {
    seq![0x20u8, 0x28, 0x4e, 0x6f, 0x20, 0x76, 0x61, 0x6c, 0x69, 0x64, 0x20, 0x41, 0x75, 0x74, 0x68, 0x20, 0x43, 0x6f, 0x6f, 0x6b, 0x69, 0x65, 0x20, 0x66, 0x6f, 0x75, 0x6e, 0x64, 0x20, 0x69, 0x6e, 0x20, 0x68, 0x65, 0x61, 0x64, 0x65, 0x72, 0x73, 0x29]
}

/// The bytes of `id`.
pub open spec fn k_id() -> Seq<u8> {
    seq![0x69u8, 0x64]
}

/// The bytes of `username`.
pub open spec fn k_username() -> Seq<u8> {
    seq![0x75u8, 0x73, 0x65, 0x72, 0x6e, 0x61, 0x6d, 0x65]
}

/// The bytes of `displayName`.
pub open spec fn k_display_name() -> Seq<u8> {
    seq![0x64u8, 0x69, 0x73, 0x70, 0x6c, 0x61, 0x79, 0x4e, 0x61, 0x6d, 0x65]
}

/// The bytes of `bio`.
pub open spec fn k_bio() -> Seq<u8> {
    seq![0x62u8, 0x69, 0x6f]
}

/// The bytes of `currentAvatarThumbnailImageUrl`.
pub open spec fn k_thumbnail() -> Seq<u8> {
    seq![0x63u8, 0x75, 0x72, 0x72, 0x65, 0x6e, 0x74, 0x41, 0x76, 0x61, 0x74, 0x61, 0x72, 0x54, 0x68, 0x75, 0x6d, 0x62, 0x6e, 0x61, 0x69, 0x6c, 0x49, 0x6d, 0x61, 0x67, 0x65, 0x55, 0x72, 0x6c]
}

/// The bytes of `status`.
pub open spec fn k_status() -> Seq<u8> {
    seq![0x73u8, 0x74, 0x61, 0x74, 0x75, 0x73]
}

/// The bytes of `lastLogin`.
pub open spec fn k_last_login() -> Seq<u8> {
    seq![0x6cu8, 0x61, 0x73, 0x74, 0x4c, 0x6f, 0x67, 0x69, 0x6e]
}

/// The bytes of `emailVerified`.
pub open spec fn k_email_verified() -> Seq<u8> {
    seq![0x65u8, 0x6d, 0x61, 0x69, 0x6c, 0x56, 0x65, 0x72, 0x69, 0x66, 0x69, 0x65, 0x64]
}

/// The bytes of `requiresTwoFactorAuth`.
pub open spec fn k_requires_2fa() -> Seq<u8> {
    seq![0x72u8, 0x65, 0x71, 0x75, 0x69, 0x72, 0x65, 0x73, 0x54, 0x77, 0x6f, 0x46, 0x61, 0x63, 0x74, 0x6f, 0x72, 0x41, 0x75, 0x74, 0x68]
}

/// The bytes of `error`.
pub open spec fn k_error() -> Seq<u8> {
    seq![0x65u8, 0x72, 0x72, 0x6f, 0x72]
}

/// The bytes of `message`.
pub open spec fn k_message() -> Seq<u8> {
    seq![0x6du8, 0x65, 0x73, 0x73, 0x61, 0x67, 0x65]
}

/// The bytes of `status_code`.
pub open spec fn k_status_code() -> Seq<u8> {
    seq![0x73u8, 0x74, 0x61, 0x74, 0x75, 0x73, 0x5f, 0x63, 0x6f, 0x64, 0x65]
}

/// Owned bytes of `auth=`.
pub fn auth_eq_prefix_x() -> (k: Vec<u8>)
    ensures
        k@ == auth_eq_prefix(),
{
    let k: Vec<u8> = vec![0x61u8, 0x75, 0x74, 0x68, 0x3d];
    proof {
        assert(k@ =~= auth_eq_prefix());
    }
    k
}

/// Owned bytes of `Auth cookie not found or invalid in response headers despite 200 OK.`.
pub fn msg_no_cookie_x() -> (k: Vec<u8>)
    ensures
        k@ == msg_no_cookie(),
{
    let k: Vec<u8> = vec![0x41u8, 0x75, 0x74, 0x68, 0x20, 0x63, 0x6f, 0x6f, 0x6b, 0x69, 0x65, 0x20, 0x6e, 0x6f, 0x74, 0x20, 0x66, 0x6f, 0x75, 0x6e, 0x64, 0x20, 0x6f, 0x72, 0x20, 0x69, 0x6e, 0x76, 0x61, 0x6c, 0x69, 0x64, 0x20, 0x69, 0x6e, 0x20, 0x72, 0x65, 0x73, 0x70, 0x6f, 0x6e, 0x73, 0x65, 0x20, 0x68, 0x65, 0x61, 0x64, 0x65, 0x72, 0x73, 0x20, 0x64, 0x65, 0x73, 0x70, 0x69, 0x74, 0x65, 0x20, 0x32, 0x30, 0x30, 0x20, 0x4f, 0x4b, 0x2e];
    proof {
        assert(k@ =~= msg_no_cookie());
    }
    k
}

/// Owned bytes of `200 OK, but failed to parse user data. Body was: '`.
pub fn lit_parse_fail_prefix_x() -> (k: Vec<u8>)
    ensures
        k@ == lit_parse_fail_prefix(),
{
    let k: Vec<u8> = vec![0x32u8, 0x30, 0x30, 0x20, 0x4f, 0x4b, 0x2c, 0x20, 0x62, 0x75, 0x74, 0x20, 0x66, 0x61, 0x69, 0x6c, 0x65, 0x64, 0x20, 0x74, 0x6f, 0x20, 0x70, 0x61, 0x72, 0x73, 0x65, 0x20, 0x75, 0x73, 0x65, 0x72, 0x20, 0x64, 0x61, 0x74, 0x61, 0x2e, 0x20, 0x42, 0x6f, 0x64, 0x79, 0x20, 0x77, 0x61, 0x73, 0x3a, 0x20, 0x27];
    proof {
        assert(k@ =~= lit_parse_fail_prefix());
    }
    k
}

/// Owned bytes of `VRChat API error (`.
pub fn lit_api_error_prefix_x() -> (k: Vec<u8>)
    ensures
        k@ == lit_api_error_prefix(),
{
    let k: Vec<u8> = vec![0x56u8, 0x52, 0x43, 0x68, 0x61, 0x74, 0x20, 0x41, 0x50, 0x49, 0x20, 0x65, 0x72, 0x72, 0x6f, 0x72, 0x20, 0x28];
    proof {
        assert(k@ =~= lit_api_error_prefix());
    }
    k
}

/// Owned bytes of `): `.
pub fn lit_api_error_mid_x() -> (k: Vec<u8>)
    ensures
        k@ == lit_api_error_mid(),
{
    let k: Vec<u8> = vec![0x29u8, 0x3a, 0x20];
    proof {
        assert(k@ =~= lit_api_error_mid());
    }
    k
}

/// Owned bytes of `VRChat API returned status `.
pub fn lit_non_json_prefix_x() -> (k: Vec<u8>)
    ensures
        k@ == lit_non_json_prefix(),
{
    let k: Vec<u8> = vec![0x56u8, 0x52, 0x43, 0x68, 0x61, 0x74, 0x20, 0x41, 0x50, 0x49, 0x20, 0x72, 0x65, 0x74, 0x75, 0x72, 0x6e, 0x65, 0x64, 0x20, 0x73, 0x74, 0x61, 0x74, 0x75, 0x73, 0x20];
    proof {
        assert(k@ =~= lit_non_json_prefix());
    }
    k
}

/// Owned bytes of ` with non-JSON error body. Body: '`.
pub fn lit_non_json_mid_x() -> (k: Vec<u8>)
    ensures
        k@ == lit_non_json_mid(),
{
    let k: Vec<u8> = vec![0x20u8, 0x77, 0x69, 0x74, 0x68, 0x20, 0x6e, 0x6f, 0x6e, 0x2d, 0x4a, 0x53, 0x4f, 0x4e, 0x20, 0x65, 0x72, 0x72, 0x6f, 0x72, 0x20, 0x62, 0x6f, 0x64, 0x79, 0x2e, 0x20, 0x42, 0x6f, 0x64, 0x79, 0x3a, 0x20, 0x27];
    proof {
        assert(k@ =~= lit_non_json_mid());
    }
    k
}

/// Owned bytes of `'`.
pub fn lit_quote_end_x() -> (k: Vec<u8>)
    ensures
        k@ == lit_quote_end(),
{
    let k: Vec<u8> = vec![0x27u8];
    proof {
        assert(k@ =~= lit_quote_end());
    }
    k
}

/// Owned bytes of ` (Auth Cookie found: `.
pub fn lit_cookie_found_x() -> (k: Vec<u8>)
    ensures
        k@ == lit_cookie_found(),
{
    let k: Vec<u8> = vec![0x20u8, 0x28, 0x41, 0x75, 0x74, 0x68, 0x20, 0x43, 0x6f, 0x6f, 0x6b, 0x69, 0x65, 0x20, 0x66, 0x6f, 0x75, 0x6e, 0x64, 0x3a, 0x20];
    proof {
        assert(k@ =~= lit_cookie_found());
    }
    k
}

/// Owned bytes of `)`.
pub fn lit_close_paren_x() -> (k: Vec<u8>)
    ensures
        k@ == lit_close_paren(),
{
    let k: Vec<u8> = vec![0x29u8];
    proof {
        assert(k@ =~= lit_close_paren());
    }
    k
}

/// Owned bytes of ` (No valid Auth Cookie found in headers)`.
pub fn lit_no_valid_cookie_x() -> (k: Vec<u8>)
    ensures
        k@ == lit_no_valid_cookie(),
{
    let k: Vec<u8> = vec![0x20u8, 0x28, 0x4e, 0x6f, 0x20, 0x76, 0x61, 0x6c, 0x69, 0x64, 0x20, 0x41, 0x75, 0x74, 0x68, 0x20, 0x43, 0x6f, 0x6f, 0x6b, 0x69, 0x65, 0x20, 0x66, 0x6f, 0x75, 0x6e, 0x64, 0x20, 0x69, 0x6e, 0x20, 0x68, 0x65, 0x61, 0x64, 0x65, 0x72, 0x73, 0x29];
    proof {
        assert(k@ =~= lit_no_valid_cookie());
    }
    k
}

/// Owned bytes of `id`.
pub fn k_id_x() -> (k: Vec<u8>)
    ensures
        k@ == k_id(),
{
    let k: Vec<u8> = vec![0x69u8, 0x64];
    proof {
        assert(k@ =~= k_id());
    }
    k
}

/// Owned bytes of `username`.
pub fn k_username_x() -> (k: Vec<u8>)
    ensures
        k@ == k_username(),
{
    let k: Vec<u8> = vec![0x75u8, 0x73, 0x65, 0x72, 0x6e, 0x61, 0x6d, 0x65];
    proof {
        assert(k@ =~= k_username());
    }
    k
}

/// Owned bytes of `displayName`.
pub fn k_display_name_x() -> (k: Vec<u8>)
    ensures
        k@ == k_display_name(),
{
    let k: Vec<u8> = vec![0x64u8, 0x69, 0x73, 0x70, 0x6c, 0x61, 0x79, 0x4e, 0x61, 0x6d, 0x65];
    proof {
        assert(k@ =~= k_display_name());
    }
    k
}

/// Owned bytes of `bio`.
pub fn k_bio_x() -> (k: Vec<u8>)
    ensures
        k@ == k_bio(),
{
    let k: Vec<u8> = vec![0x62u8, 0x69, 0x6f];
    proof {
        assert(k@ =~= k_bio());
    }
    k
}

/// Owned bytes of `currentAvatarThumbnailImageUrl`.
pub fn k_thumbnail_x() -> (k: Vec<u8>)
    ensures
        k@ == k_thumbnail(),
{
    let k: Vec<u8> = vec![0x63u8, 0x75, 0x72, 0x72, 0x65, 0x6e, 0x74, 0x41, 0x76, 0x61, 0x74, 0x61, 0x72, 0x54, 0x68, 0x75, 0x6d, 0x62, 0x6e, 0x61, 0x69, 0x6c, 0x49, 0x6d, 0x61, 0x67, 0x65, 0x55, 0x72, 0x6c];
    proof {
        assert(k@ =~= k_thumbnail());
    }
    k
}

/// Owned bytes of `status`.
pub fn k_status_x() -> (k: Vec<u8>)
    ensures
        k@ == k_status(),
{
    let k: Vec<u8> = vec![0x73u8, 0x74, 0x61, 0x74, 0x75, 0x73];
    proof {
        assert(k@ =~= k_status());
    }
    k
}

/// Owned bytes of `lastLogin`.
pub fn k_last_login_x() -> (k: Vec<u8>)
    ensures
        k@ == k_last_login(),
{
    let k: Vec<u8> = vec![0x6cu8, 0x61, 0x73, 0x74, 0x4c, 0x6f, 0x67, 0x69, 0x6e];
    proof {
        assert(k@ =~= k_last_login());
    }
    k
}

/// Owned bytes of `emailVerified`.
pub fn k_email_verified_x() -> (k: Vec<u8>)
    ensures
        k@ == k_email_verified(),
{
    let k: Vec<u8> = vec![0x65u8, 0x6d, 0x61, 0x69, 0x6c, 0x56, 0x65, 0x72, 0x69, 0x66, 0x69, 0x65, 0x64];
    proof {
        assert(k@ =~= k_email_verified());
    }
    k
}

/// Owned bytes of `requiresTwoFactorAuth`.
pub fn k_requires_2fa_x() -> (k: Vec<u8>)
    ensures
        k@ == k_requires_2fa(),
{
    let k: Vec<u8> = vec![0x72u8, 0x65, 0x71, 0x75, 0x69, 0x72, 0x65, 0x73, 0x54, 0x77, 0x6f, 0x46, 0x61, 0x63, 0x74, 0x6f, 0x72, 0x41, 0x75, 0x74, 0x68];
    proof {
        assert(k@ =~= k_requires_2fa());
    }
    k
}

/// Owned bytes of `error`.
pub fn k_error_x() -> (k: Vec<u8>)
    ensures
        k@ == k_error(),
{
    let k: Vec<u8> = vec![0x65u8, 0x72, 0x72, 0x6f, 0x72];
    proof {
        assert(k@ =~= k_error());
    }
    k
}

/// Owned bytes of `message`.
pub fn k_message_x() -> (k: Vec<u8>)
    ensures
        k@ == k_message(),
{
    let k: Vec<u8> = vec![0x6du8, 0x65, 0x73, 0x73, 0x61, 0x67, 0x65];
    proof {
        assert(k@ =~= k_message());
    }
    k
}

/// Owned bytes of `status_code`.
pub fn k_status_code_x() -> (k: Vec<u8>)
    ensures
        k@ == k_status_code(),
{
    let k: Vec<u8> = vec![0x73u8, 0x74, 0x61, 0x74, 0x75, 0x73, 0x5f, 0x63, 0x6f, 0x64, 0x65];
    proof {
        assert(k@ =~= k_status_code());
    }
    k
}


/// Append a byte slice to a vector.
pub fn append_bytes(dst: &mut Vec<u8>, src: &[u8])
    ensures
        final(dst)@ == old(dst)@ + src@,
{
    let mut idx: usize = 0;
    while idx < src.len()
        invariant
            idx <= src.len(),
            dst@ == old(dst)@ + src@.subrange(0, idx as int),
        decreases src.len() - idx,
    {
        dst.push(src[idx]);
        proof {
            assert(old(dst)@ + src@.subrange(0, idx as int) + seq![src@[idx as int]] =~= old(
                dst,
            )@ + src@.subrange(0, idx + 1));
        }
        idx = idx + 1;
    }
    proof {
        assert(src@.subrange(0, src@.len() as int) =~= src@);
    }
}

/// Decimal representation of a nonnegative number.
pub open spec fn dec_rep(n: int) -> Seq<u8>
    decreases n,
{
    if n < 10 {
        seq![(0x30 + n) as u8]
    } else {
        dec_rep(n / 10) + seq![(0x30 + n % 10) as u8]
    }
}

/// Decimal digits of a `u16`.
pub fn u16_to_dec(n: u16) -> (r: Vec<u8>)
    ensures
        r@ == dec_rep(n as int),
    decreases n,
{
    if n < 10 {
        let r: Vec<u8> = vec![0x30 + (n as u8)];
        proof {
            assert(r@ =~= dec_rep(n as int));
        }
        r
    } else {
        let mut r = u16_to_dec(n / 10);
        r.push(0x30 + ((n % 10) as u8));
        proof {
            assert(dec_rep((n / 10) as int) + seq![(0x30 + (n as int) % 10) as u8] =~= r@);
        }
        r
    }
}

/// An ASCII alphanumeric byte.
pub open spec fn is_alnum(b: u8) -> bool {
    (0x30 <= b <= 0x39) || (0x41 <= b <= 0x5a) || (0x61 <= b <= 0x7a)
}

/// Uppercase hex digit byte of a value below 16.
pub open spec fn hex_upper(n: int) -> u8 {
    if n < 10 {
        (0x30 + n) as u8
    } else {
        (0x41 + (n - 10)) as u8
    }
}

/// What percent-encoding with the non-alphanumeric set makes of one
/// byte: alphanumerics pass, everything else becomes `%XX` uppercase.
pub open spec fn pct_byte(b: u8) -> Seq<u8> {
    if is_alnum(b) {
        seq![b]
    } else {
        seq![0x25u8, hex_upper(b as int / 16), hex_upper(b as int % 16)]
    }
}

/// Percent-encoding of a whole byte string.
pub open spec fn percent_encode_all(s: Seq<u8>) -> Seq<u8>
    decreases s.len(),
{
    if s.len() == 0 {
        Seq::empty()
    } else {
        pct_byte(s[0]) + percent_encode_all(s.subrange(1, s.len() as int))
    }
}

/// Relies on percent_encoding::percent_encode with NON_ALPHANUMERIC:
/// every byte outside ASCII alphanumerics is written as `%XX` with
/// uppercase hex digits, alphanumerics pass through unchanged.
#[verifier::external_body]
fn percent_encode_non_alnum(b: &[u8]) -> (r: Vec<u8>)
    ensures
        r@ == percent_encode_all(b@),
{
    percent_encoding::percent_encode(b, percent_encoding::NON_ALPHANUMERIC).to_string().into_bytes()
}

/// What the standard base64 engine returns for given bytes. The
/// encoding is a function of the input alone; it is not written out
/// here, only named.
pub uninterp spec fn base64_standard_of(b: Seq<u8>) -> Seq<char>;

/// Relies on base64's general_purpose::STANDARD engine: the result
/// depends on the input bytes alone, and with padding its length is
/// four characters for every started group of three bytes.
#[verifier::external_body]
fn base64_standard(b: &[u8]) -> (r: String)
    ensures
        r@ == base64_standard_of(b@),
        r@.len() == 4 * ((b@.len() + 2) / 3),
{
    base64::Engine::encode(&base64::engine::general_purpose::STANDARD, b)
}

/// The credential line the remote API's basic-auth scheme expects:
/// base64 over `percent(username) : percent(password)`.
pub open spec fn encoded_credentials(username: Seq<u8>, password: Seq<u8>) -> Seq<char> {
    base64_standard_of(
        percent_encode_all(username) + seq![0x3au8] + percent_encode_all(password),
    )
}

/// Percent-encode both credential parts, join them with `:`, and
/// base64-encode the result.
pub fn encode_vrchat_credentials(username: &[u8], password: &[u8]) -> (r: String)
    ensures
        r@ == encoded_credentials(username@, password@),
{
    let eu = percent_encode_non_alnum(username);
    let ep = percent_encode_non_alnum(password);
    let mut combined: Vec<u8> = eu;
    combined.push(0x3a);
    append_bytes(&mut combined, ep.as_slice());
    proof {
        assert(combined@ =~= percent_encode_all(username@) + seq![0x3au8] + percent_encode_all(
            password@,
        ));
    }
    base64_standard(combined.as_slice())
}

/// Whitespace as the cookie parser trims it: ASCII tab through
/// carriage return, and space.
pub open spec fn is_trim_ws(b: u8) -> bool {
    (0x09 <= b <= 0x0d) || b == 0x20
}

/// First index at or after `i` holding `b`, else the length.
pub open spec fn find_byte(s: Seq<u8>, i: int, b: u8) -> int
    decreases s.len() - i,
{
    if 0 <= i < s.len() {
        if s[i] == b {
            i
        } else {
            find_byte(s, i + 1, b)
        }
    } else {
        i
    }
}

/// First non-whitespace index in `[a, b)` starting from the left.
pub open spec fn trim_front(s: Seq<u8>, a: int, b: int) -> int
    decreases b - a,
{
    if a < b && 0 <= a < s.len() && is_trim_ws(s[a]) {
        trim_front(s, a + 1, b)
    } else {
        a
    }
}

/// Index after the last non-whitespace byte in `[a, b)`.
pub open spec fn trim_back(s: Seq<u8>, a: int, b: int) -> int
    decreases b - a,
{
    if a < b && 0 <= b - 1 < s.len() && is_trim_ws(s[b - 1]) {
        trim_back(s, a, b - 1)
    } else {
        b
    }
}

/// Value of the first `auth=` part of one Set-Cookie header, scanning
/// parts split on `;` from `i`, each part trimmed at both ends. The
/// value may be empty.
pub open spec fn header_auth(s: Seq<u8>, i: int) -> Option<Seq<u8>>
    decreases s.len() - i,
{
    if !(0 <= i <= s.len()) {
        None
    } else {
        let j = find_byte(s, i, 0x3b);
        if j < i || j > s.len() {
            None
        } else {
            let a = trim_front(s, i, j);
            let b = trim_back(s, a, j);
            if i <= a <= b <= j && b - a >= 5 && s.subrange(a, a + 5) == auth_eq_prefix() {
                Some(s.subrange(a + 5, b))
            } else if j >= s.len() {
                None
            } else {
                header_auth(s, j + 1)
            }
        }
    }
}

/// Value of the auth cookie over a list of Set-Cookie headers: the
/// first header holding an `auth=` part decides; its value stands if
/// non-empty, else there is no cookie at all.
pub open spec fn extract_cookie_spec(hs: Seq<Seq<u8>>, i: int) -> Option<Seq<u8>>
    decreases hs.len() - i,
{
    if !(0 <= i < hs.len()) {
        None
    } else {
        match header_auth(hs[i], 0) {
            Some(v) => if v.len() > 0 {
                Some(v)
            } else {
                None
            },
            None => extract_cookie_spec(hs, i + 1),
        }
    }
}

/// First index at or after `i` holding `b`, else the length.
fn find_byte_x(s: &[u8], i: usize, b: u8) -> (r: usize)
    requires
        i <= s.len(),
    ensures
        r == find_byte(s@, i as int, b),
        i <= r <= s.len(),
{
    let mut cur: usize = i;
    loop
        invariant
            i <= cur <= s.len(),
            find_byte(s@, i as int, b) == find_byte(s@, cur as int, b),
        decreases s.len() - cur,
    {
        if cur < s.len() {
            if s[cur] == b {
                return cur;
            }
            cur = cur + 1;
        } else {
            return cur;
        }
    }
}

/// Scan one Set-Cookie header for its `auth=` part.
fn header_auth_x(s: &[u8]) -> (r: Option<Vec<u8>>)
    ensures
        match r {
            Some(v) => header_auth(s@, 0) == Some(v@),
            None => header_auth(s@, 0) is None,
        },
{
    let mut cur: usize = 0;
    loop
        invariant
            cur <= s.len(),
            header_auth(s@, 0) == header_auth(s@, cur as int),
        decreases s.len() - cur + 1,
    {
        let j = find_byte_x(s, cur, 0x3b);
        let mut a: usize = cur;
        while a < j && (0x09 <= s[a] && s[a] <= 0x0d || s[a] == 0x20)
            invariant
                cur <= a <= j <= s.len(),
                trim_front(s@, cur as int, j as int) == trim_front(s@, a as int, j as int),
            decreases j - a,
        {
            a = a + 1;
        }
        let mut b: usize = j;
        while b > a && (0x09 <= s[b - 1] && s[b - 1] <= 0x0d || s[b - 1] == 0x20)
            invariant
                a <= b <= j,
                a <= s.len(),
                j <= s.len(),
                trim_back(s@, a as int, j as int) == trim_back(s@, a as int, b as int),
            decreases b - a,
        {
            b = b - 1;
        }
        let prefix = auth_eq_prefix_x();
        if b - a >= 5 && bytes_eq(
            vstd::slice::slice_subrange(s, a, a + 5),
            prefix.as_slice(),
        ) {
            let v = vstd::slice::slice_to_vec(vstd::slice::slice_subrange(s, a + 5, b));
            return Some(v);
        }
        if j >= s.len() {
            return None;
        }
        cur = j + 1;
    }
}

/// Find the auth session cookie among the response's Set-Cookie
/// headers: the first header with an `auth=` part decides, and its
/// value counts only if non-empty.
pub fn extract_auth_cookie_value(headers: &Vec<Vec<u8>>) -> (r: Option<Vec<u8>>)
    ensures
        match r {
            Some(v) => extract_cookie_spec(bytes_list_view(headers@), 0) == Some(v@) && v@.len()
                > 0,
            None => extract_cookie_spec(bytes_list_view(headers@), 0) is None,
        },
{
    let ghost hs = bytes_list_view(headers@);
    let mut idx: usize = 0;
    while idx < headers.len()
        invariant
            idx <= headers.len(),
            hs == bytes_list_view(headers@),
            extract_cookie_spec(hs, 0) == extract_cookie_spec(hs, idx as int),
        decreases headers.len() - idx,
    {
        match header_auth_x(headers[idx].as_slice()) {
            Some(v) => {
                if v.len() > 0 {
                    return Some(v);
                } else {
                    return None;
                }
            },
            None => {},
        }
        idx = idx + 1;
    }
    None
}

/// Optional boolean member: absent or null is accepted absence, a
/// boolean is its value, any other shape is a mismatch.
pub open spec fn opt_bool(f: Seq<(Seq<u8>, FieldData)>, key: Seq<u8>) -> Option<Option<bool>> {
    match obj_lookup(f, key) {
        None => Some(None),
        Some(FieldData::Null) => Some(None),
        Some(FieldData::Bool(b)) => Some(Some(b)),
        Some(_) => None,
    }
}

/// Required array-of-strings member.
pub open spec fn str_list_member(f: Seq<(Seq<u8>, FieldData)>, key: Seq<u8>) -> Option<
    Seq<Seq<u8>>,
> {
    match obj_lookup(f, key) {
        Some(FieldData::Composite(raw)) => str_list(raw),
        _ => None,
    }
}

/// Spec-level snapshot of the current-user payload.
pub struct VRCCurrentUserView {
    pub id: Option<Seq<u8>>,
    pub username: Option<Seq<u8>>,
    pub display_name: Option<Seq<u8>>,
    pub bio: Option<Seq<u8>>,
    pub current_avatar_thumbnail_image_url: Option<Seq<u8>>,
    pub status: Option<Seq<u8>>,
    pub last_login: Option<Seq<u8>>,
    pub email_verified: Option<bool>,
    pub requires_two_factor_auth: Seq<Seq<u8>>,
}

/// The slice of the current-user payload this client reads.
#[derive(Debug)]
pub struct VRCCurrentUser {
    pub id: Option<Vec<u8>>,
    pub username: Option<Vec<u8>>,
    pub display_name: Option<Vec<u8>>,
    pub bio: Option<Vec<u8>>,
    pub current_avatar_thumbnail_image_url: Option<Vec<u8>>,
    pub status: Option<Vec<u8>>,
    /// ISO 8601 date-time string, as the service sends it.
    pub last_login: Option<Vec<u8>>,
    pub email_verified: Option<bool>,
    /// Pending second-factor methods; empty when none is required.
    pub requires_two_factor_auth: Vec<Vec<u8>>,
}

impl View for VRCCurrentUser {
    type V = VRCCurrentUserView;

    open spec fn view(&self) -> VRCCurrentUserView {
        VRCCurrentUserView {
            id: opt_bytes_view(self.id),
            username: opt_bytes_view(self.username),
            display_name: opt_bytes_view(self.display_name),
            bio: opt_bytes_view(self.bio),
            current_avatar_thumbnail_image_url: opt_bytes_view(
                self.current_avatar_thumbnail_image_url,
            ),
            status: opt_bytes_view(self.status),
            last_login: opt_bytes_view(self.last_login),
            email_verified: self.email_verified,
            requires_two_factor_auth: bytes_list_view(self.requires_two_factor_auth@),
        }
    }
}

/// Spec-level authenticated context.
pub struct AuthContextView {
    pub user: VRCCurrentUserView,
    pub auth_cookie_value: Seq<u8>,
}

/// A successfully authenticated session: the current user and the
/// session cookie that proves it.
#[derive(Debug)]
pub struct AuthContext {
    pub user: VRCCurrentUser,
    pub auth_cookie_value: Vec<u8>,
}

impl View for AuthContext {
    type V = AuthContextView;

    open spec fn view(&self) -> AuthContextView {
        AuthContextView { user: self.user@, auth_cookie_value: self.auth_cookie_value@ }
    }
}

/// Spec-level authentication failure.
pub struct AuthErrorView {
    pub message: Seq<u8>,
    pub auth_cookie_value: Option<Seq<u8>>,
}

/// Why authentication failed, with the auth cookie if one was seen.
#[derive(Debug)]
pub struct AuthError {
    pub message: Vec<u8>,
    pub auth_cookie_value: Option<Vec<u8>>,
}

impl View for AuthError {
    type V = AuthErrorView;

    open spec fn view(&self) -> AuthErrorView {
        AuthErrorView {
            message: self.message@,
            auth_cookie_value: opt_bytes_view(self.auth_cookie_value),
        }
    }
}

/// The failure line as it is reported: the message, then whether a
/// cookie was seen.
pub open spec fn auth_error_text(e: AuthErrorView) -> Seq<u8> {
    match e.auth_cookie_value {
        Some(c) => e.message + lit_cookie_found() + c + lit_close_paren(),
        None => e.message + lit_no_valid_cookie(),
    }
}

impl AuthError {
    /// Render the failure line.
    pub fn describe(&self) -> (r: Vec<u8>)
        ensures
            r@ == auth_error_text(self@),
    {
        let mut m = copy_bytes(&self.message);
        match &self.auth_cookie_value {
            Some(c) => {
                append_bytes(&mut m, lit_cookie_found_x().as_slice());
                append_bytes(&mut m, c.as_slice());
                append_bytes(&mut m, lit_close_paren_x().as_slice());
            },
            None => {
                append_bytes(&mut m, lit_no_valid_cookie_x().as_slice());
            },
        }
        m
    }
}

/// Raw login credentials as the HTTP basic flow takes them.
pub struct LoginCredentials {
    pub username: String,
    pub password: String,
}

/// Spec-level error detail of a refused API call.
pub struct VRCErrorDetailView {
    pub message: Seq<u8>,
    pub status_code: u16,
}

/// Error detail of a refused API call.
pub struct VRCErrorDetail {
    pub message: Vec<u8>,
    pub status_code: u16,
}

impl View for VRCErrorDetail {
    type V = VRCErrorDetailView;

    open spec fn view(&self) -> VRCErrorDetailView {
        VRCErrorDetailView { message: self.message@, status_code: self.status_code }
    }
}

/// Error body of a refused API call.
pub struct VRCErrorResponse {
    pub error: VRCErrorDetail,
}

impl View for VRCErrorResponse {
    type V = VRCErrorDetailView;

    open spec fn view(&self) -> VRCErrorDetailView {
        self.error@
    }
}

/// The current-user snapshot a response body describes, if it fits
/// the schema: one JSON object, optional string fields, an optional
/// boolean, and a required array of strings for the pending
/// second-factor methods.
pub open spec fn vrc_user_of(body: Seq<u8>) -> Option<VRCCurrentUserView> {
    match json_top(body) {
        Some(TopData::Obj(f)) => vrc_user_of_fields(f),
        _ => None,
    }
}

/// The error detail a refused response body describes, if it fits:
/// `{"error": {"message": <string>, "status_code": <number>}}` with a
/// status code that fits a `u16`.
pub open spec fn err_detail_of(body: Seq<u8>) -> Option<VRCErrorDetailView> {
    match json_top(body) {
        Some(TopData::Obj(f)) => match obj_lookup(f, k_error()) {
            Some(FieldData::Composite(raw)) => match json_top(raw) {
                Some(TopData::Obj(ef)) => match (
                    obj_lookup(ef, k_message()),
                    obj_lookup(ef, k_status_code()),
                ) {
                    (Some(FieldData::Str(m)), Some(FieldData::Num(d))) => if d.len() > 0
                        && all_digits(d) && dec_val(d) <= u16::MAX {
                        Some(VRCErrorDetailView { message: m, status_code: dec_val(d) as u16 })
                    } else {
                        None
                    },
                    _ => None,
                },
                _ => None,
            },
            _ => None,
        },
        _ => None,
    }
}

/// Message reported when a 200 body does not parse as a user.
pub open spec fn msg_parse_fail(body: Seq<u8>) -> Seq<u8> {
    lit_parse_fail_prefix() + body + lit_quote_end()
}

/// Message reported when the API refused with a readable error body.
pub open spec fn msg_api_error(code: u16, m: Seq<u8>) -> Seq<u8> {
    lit_api_error_prefix() + dec_rep(code as int) + lit_api_error_mid() + m
}

/// Message reported when the API refused with an unreadable body.
pub open spec fn msg_non_json(status: u16, body: Seq<u8>) -> Seq<u8> {
    lit_non_json_prefix() + dec_rep(status as int) + lit_non_json_mid() + body + lit_quote_end()
}

/// Everything the login-response classifier can come to.
pub enum ClassifyData {
    Granted(AuthContextView),
    Refused(AuthErrorView),
}

/// The whole classification of a login response, from its status
/// code, raw body and extracted cookie:
/// - 200 with a readable user and a cookie grants a context;
/// - 200 without a cookie, or with an unreadable user, is refused
///   with the matching message and whatever cookie was seen;
/// - any other status is refused, with the service's own error detail
///   when the body carries one, else with the raw body quoted.
pub open spec fn classify_spec(status: u16, body: Seq<u8>, cookie: Option<Seq<u8>>) -> ClassifyData {
    if status == 200 {
        match vrc_user_of(body) {
            Some(u) => match cookie {
                Some(c) => ClassifyData::Granted(
                    AuthContextView { user: u, auth_cookie_value: c },
                ),
                None => ClassifyData::Refused(
                    AuthErrorView { message: msg_no_cookie(), auth_cookie_value: None },
                ),
            },
            None => ClassifyData::Refused(
                AuthErrorView { message: msg_parse_fail(body), auth_cookie_value: cookie },
            ),
        }
    } else {
        match err_detail_of(body) {
            Some(d) => ClassifyData::Refused(
                AuthErrorView {
                    message: msg_api_error(d.status_code, d.message),
                    auth_cookie_value: cookie,
                },
            ),
            None => ClassifyData::Refused(
                AuthErrorView { message: msg_non_json(status, body), auth_cookie_value: cookie },
            ),
        }
    }
}

/// Read the current-user snapshot out of a parsed response object.
pub fn vrc_user_from_obj(o: &JsonObj) -> (r: Option<VRCCurrentUser>)
    ensures
        match r {
            Some(u) => vrc_user_of_fields(o@) == Some(u@),
            None => vrc_user_of_fields(o@) is None,
        },
{
    let id = get_opt_member(o, k_id_x().as_slice());
    let un = get_opt_member(o, k_username_x().as_slice());
    let dn = get_opt_member(o, k_display_name_x().as_slice());
    let bio = get_opt_member(o, k_bio_x().as_slice());
    let th = get_opt_member(o, k_thumbnail_x().as_slice());
    let st = get_opt_member(o, k_status_x().as_slice());
    let ll = get_opt_member(o, k_last_login_x().as_slice());
    let ev = get_opt_bool(o, k_email_verified_x().as_slice());
    let tf = get_str_list_member(o, k_requires_2fa_x().as_slice());
    match (id, un, dn, bio, th) {
        (Some(id), Some(un), Some(dn), Some(bio), Some(th)) => match (st, ll, ev, tf) {
            (Some(st), Some(ll), Some(ev), Some(tf)) => Some(
                VRCCurrentUser {
                    id,
                    username: un,
                    display_name: dn,
                    bio,
                    current_avatar_thumbnail_image_url: th,
                    status: st,
                    last_login: ll,
                    email_verified: ev,
                    requires_two_factor_auth: tf,
                },
            ),
            _ => None,
        },
        _ => None,
    }
}

/// The member-level part of `vrc_user_of`, over an already parsed
/// object.
pub open spec fn vrc_user_of_fields(f: Seq<(Seq<u8>, FieldData)>) -> Option<VRCCurrentUserView> {
    match (
        opt_str(f, k_id()),
        opt_str(f, k_username()),
        opt_str(f, k_display_name()),
        opt_str(f, k_bio()),
        opt_str(f, k_thumbnail()),
    ) {
        (Some(id), Some(un), Some(dn), Some(bio), Some(th)) => match (
            opt_str(f, k_status()),
            opt_str(f, k_last_login()),
            opt_bool(f, k_email_verified()),
            str_list_member(f, k_requires_2fa()),
        ) {
            (Some(st), Some(ll), Some(ev), Some(tf)) => Some(
                VRCCurrentUserView {
                    id: id,
                    username: un,
                    display_name: dn,
                    bio: bio,
                    current_avatar_thumbnail_image_url: th,
                    status: st,
                    last_login: ll,
                    email_verified: ev,
                    requires_two_factor_auth: tf,
                },
            ),
            _ => None,
        },
        _ => None,
    }
}

/// Optional string member of a parsed object.
fn get_opt_member(o: &JsonObj, key: &[u8]) -> (r: Option<Option<Vec<u8>>>)
    ensures
        match r {
            Some(v) => opt_str(o@, key@) == Some(opt_bytes_view(v)),
            None => opt_str(o@, key@) is None,
        },
{
    match obj_get(o, key) {
        None => Some(None),
        Some(JsonField::Null) => Some(None),
        Some(JsonField::Str(v)) => Some(Some(copy_bytes(v))),
        Some(_) => None,
    }
}

/// Optional boolean member of a parsed object.
fn get_opt_bool(o: &JsonObj, key: &[u8]) -> (r: Option<Option<bool>>)
    ensures
        match r {
            Some(v) => opt_bool(o@, key@) == Some(v),
            None => opt_bool(o@, key@) is None,
        },
{
    match obj_get(o, key) {
        None => Some(None),
        Some(JsonField::Null) => Some(None),
        Some(JsonField::Bool(b)) => Some(Some(*b)),
        Some(_) => None,
    }
}

/// Required array-of-strings member of a parsed object.
fn get_str_list_member(o: &JsonObj, key: &[u8]) -> (r: Option<Vec<Vec<u8>>>)
    ensures
        match r {
            Some(v) => str_list_member(o@, key@) == Some(bytes_list_view(v@)),
            None => str_list_member(o@, key@) is None,
        },
{
    match obj_get(o, key) {
        Some(JsonField::Composite(raw)) => parse_str_list(raw.as_slice()),
        _ => None,
    }
}

/// Classify one login response into an authenticated context or a
/// described failure, exactly as `classify_spec` says.
pub fn classify_auth_response(status: u16, body: &[u8], cookie: Option<Vec<u8>>) -> (r: Result<
    AuthContext,
    AuthError,
>)
    ensures
        match r {
            Ok(ctx) => classify_spec(status, body@, opt_bytes_view(cookie))
                == ClassifyData::Granted(ctx@),
            Err(e) => classify_spec(status, body@, opt_bytes_view(cookie))
                == ClassifyData::Refused(e@),
        },
{
    if status == 200 {
        let user = match parse_top(body) {
            Some(JsonTop::Obj(o)) => vrc_user_from_obj(&o),
            _ => None,
        };
        match user {
            Some(u) => match cookie {
                Some(c) => Ok(AuthContext { user: u, auth_cookie_value: c }),
                None => Err(
                    AuthError { message: msg_no_cookie_x(), auth_cookie_value: None },
                ),
            },
            None => {
                let mut m = lit_parse_fail_prefix_x();
                append_bytes(&mut m, body);
                append_bytes(&mut m, lit_quote_end_x().as_slice());
                proof {
                    assert(m@ =~= msg_parse_fail(body@));
                }
                Err(AuthError { message: m, auth_cookie_value: cookie })
            },
        }
    } else {
        let detail = match parse_top(body) {
            Some(JsonTop::Obj(o)) => match obj_get(&o, k_error_x().as_slice()) {
                Some(JsonField::Composite(raw)) => match parse_top(raw.as_slice()) {
                    Some(JsonTop::Obj(eo)) => {
                        let m = match obj_get(&eo, k_message_x().as_slice()) {
                            Some(JsonField::Str(mv)) => Some(copy_bytes(mv)),
                            _ => None,
                        };
                        let c = match obj_get(&eo, k_status_code_x().as_slice()) {
                            Some(JsonField::Num(d)) => crate::json::parse_u16(d.as_slice()),
                            _ => None,
                        };
                        match (m, c) {
                            (Some(mv), Some(cv)) => Some(
                                VRCErrorDetail { message: mv, status_code: cv },
                            ),
                            _ => None,
                        }
                    },
                    _ => None,
                },
                _ => None,
            },
            _ => None,
        };
        match detail {
            Some(d) => {
                let mut m = lit_api_error_prefix_x();
                let digits = u16_to_dec(d.status_code);
                append_bytes(&mut m, digits.as_slice());
                append_bytes(&mut m, lit_api_error_mid_x().as_slice());
                append_bytes(&mut m, d.message.as_slice());
                proof {
                    assert(m@ =~= msg_api_error(d.status_code, d.message@));
                }
                Err(AuthError { message: m, auth_cookie_value: cookie })
            },
            None => {
                let mut m = lit_non_json_prefix_x();
                let digits = u16_to_dec(status);
                append_bytes(&mut m, digits.as_slice());
                append_bytes(&mut m, lit_non_json_mid_x().as_slice());
                append_bytes(&mut m, body);
                append_bytes(&mut m, lit_quote_end_x().as_slice());
                proof {
                    assert(m@ =~= msg_non_json(status, body@));
                }
                Err(AuthError { message: m, auth_cookie_value: cookie })
            },
        }
    }
}

} // verus!
