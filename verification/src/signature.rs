use crate::api::{api_error, refusal, ApiError, ApiErrorModel};
use crate::registration::{is_within_window, within_window};
use crate::text::{joined, opt_text, parse_u64, parsed_u64, text_eq};
use vstd::prelude::*;

verus! {

/// How long the nonce of a signed request is remembered.
pub const NONCE_TTL_MILLIS: u64 = 60_000;

/// The headers of a request that a device signed, where they are there and can be read.
#[derive(Debug, PartialEq, Eq)]
pub struct SignatureHeaders {
    pub device_id: Option<String>,
    pub timestamp: Option<String>,
    pub nonce: Option<String>,
    pub signature: Option<String>,
}

/// Whether a header is there and not empty.
pub open spec fn header_given(value: Option<Seq<char>>) -> bool {
    value is Some && value->0.len() > 0
}

/// The refusal of a request without a header that it needs.
pub open spec fn missing_header(name: Seq<char>, request_id: Seq<char>) -> ApiErrorModel {
    api_error(
        400,
        "missing_device_signature_header"@,
        "missing required header "@ + name,
        request_id,
    )
}

/// Gives a header that a signed request needs.
pub fn required_signature_header<'a>(
    value: &'a Option<String>,
    name: &str,
    request_id: &str,
) -> (result: Result<&'a str, ApiError>)
    ensures
        result is Ok <==> header_given(opt_text(*value)),
        result is Ok ==> result->Ok_0@ == opt_text(*value)->0,
        result is Err ==> result->Err_0@ == missing_header(name@, request_id@),
{
    if let Some(text) = value {
        if !text.as_str().is_empty() {
            return Ok(text.as_str());
        }
    }
    Err(
        ApiError::bad_request(
            "missing_device_signature_header",
            joined("missing required header ", name).as_str(),
            request_id,
        ),
    )
}

/// Why the headers of a signed request are refused, before its signature is verified.
pub open spec fn signature_refusal(
    headers: SignatureHeaders,
    device_id: Seq<char>,
    mismatch: Seq<char>,
    bad_timestamp: Seq<char>,
    now: u64,
    request_id: Seq<char>,
) -> Option<ApiErrorModel> {
    let timestamp = opt_text(headers.timestamp);
    if !header_given(opt_text(headers.device_id)) {
        Some(missing_header("x-rctl-device-id"@, request_id))
    } else if opt_text(headers.device_id) != Some(device_id) {
        Some(api_error(403, "device_signature_mismatch"@, mismatch, request_id))
    } else if !header_given(timestamp) {
        Some(missing_header("x-rctl-timestamp"@, request_id))
    } else if parsed_u64(timestamp->0) is None {
        Some(api_error(400, "invalid_device_signature"@, bad_timestamp, request_id))
    } else if !within_window(now, parsed_u64(timestamp->0)->0) {
        Some(
            api_error(
                403,
                "device_signature_expired"@,
                "device signature timestamp is outside the 30 second window"@,
                request_id,
            ),
        )
    } else if !header_given(opt_text(headers.nonce)) {
        Some(missing_header("x-rctl-api-nonce"@, request_id))
    } else if !header_given(opt_text(headers.signature)) {
        Some(missing_header("x-rctl-device-signature"@, request_id))
    } else {
        None
    }
}

/// What the headers of a signed request hold.
#[derive(Debug, PartialEq, Eq)]
pub struct SignatureFields {
    pub timestamp_epoch_millis: u64,
    pub nonce: String,
    pub signature: String,
}

/// Checks the headers of a signed request of a device, before its signature is verified.
pub fn check_signature_headers(
    headers: &SignatureHeaders,
    device_id: &str,
    mismatch: &str,
    bad_timestamp: &str,
    now: u64,
    request_id: &str,
) -> (result: Result<SignatureFields, ApiError>)
    ensures
        refusal(result) == signature_refusal(
            *headers,
            device_id@,
            mismatch@,
            bad_timestamp@,
            now,
            request_id@,
        ),
        result is Ok ==> Some(result->Ok_0.timestamp_epoch_millis) == parsed_u64(
            opt_text(headers.timestamp)->0,
        ),
        result is Ok ==> Some(result->Ok_0.nonce@) == opt_text(headers.nonce),
        result is Ok ==> Some(result->Ok_0.signature@) == opt_text(headers.signature),
{
    let signed_device = required_signature_header(
        &headers.device_id,
        "x-rctl-device-id",
        request_id,
    )?;
    if !text_eq(signed_device, device_id) {
        return Err(ApiError::forbidden("device_signature_mismatch", mismatch, request_id));
    }
    let timestamp_text = required_signature_header(
        &headers.timestamp,
        "x-rctl-timestamp",
        request_id,
    )?;
    let timestamp_epoch_millis: u64 = match parse_u64(timestamp_text) {
        Some(timestamp) => timestamp,
        None => {
            return Err(
                ApiError::bad_request("invalid_device_signature", bad_timestamp, request_id),
            );
        },
    };
    if !is_within_window(now, timestamp_epoch_millis) {
        return Err(
            ApiError::forbidden(
                "device_signature_expired",
                "device signature timestamp is outside the 30 second window",
                request_id,
            ),
        );
    }
    let nonce = required_signature_header(&headers.nonce, "x-rctl-api-nonce", request_id)?;
    let signature = required_signature_header(
        &headers.signature,
        "x-rctl-device-signature",
        request_id,
    )?;
    Ok(
        SignatureFields {
            timestamp_epoch_millis,
            nonce: nonce.to_owned(),
            signature: signature.to_owned(),
        },
    )
}

/// Decides a signed request whose headers stand: the signature has to be the device's, and the
/// nonce new.
pub fn check_signature(signature_valid: bool, nonce_new: bool, request_id: &str) -> (result: Result<
    (),
    ApiError,
>)
    ensures
        refusal(result) == if !signature_valid {
            Some(
                api_error(
                    403,
                    "invalid_device_signature"@,
                    "proof of device private key failed"@,
                    request_id@,
                ),
            )
        } else if !nonce_new {
            Some(
                api_error(
                    409,
                    "device_nonce_replayed"@,
                    "device request nonce has already been used"@,
                    request_id@,
                ),
            )
        } else {
            None
        },
{
    if !signature_valid {
        return Err(
            ApiError::forbidden(
                "invalid_device_signature",
                "proof of device private key failed",
                request_id,
            ),
        );
    }
    if !nonce_new {
        return Err(
            ApiError::conflict(
                "device_nonce_replayed",
                "device request nonce has already been used",
                request_id,
            ),
        );
    }
    Ok(())
}

/// The key under which the nonce of a signed request is remembered.
pub fn nonce_key(account_id: &str, device_id: &str, nonce: &str) -> (key: String)
    ensures
        key@ == account_id@ + ":"@ + device_id@ + ":"@ + nonce@,
{
    let mut key = account_id.to_owned();
    key.append(":");
    key.append(device_id);
    key.append(":");
    key.append(nonce);
    key
}

/// The key under which the nonce of a signed login is remembered, apart from those of other
/// requests.
pub fn login_nonce_key(account_id: &str, device_id: &str, nonce: &str) -> (key: String)
    ensures
        key@ == "login-finish:"@ + (account_id@ + ":"@ + device_id@ + ":"@ + nonce@),
{
    joined("login-finish:", nonce_key(account_id, device_id, nonce).as_str())
}

} // verus!
