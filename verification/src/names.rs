use crate::account::AccountStatus;
use crate::challenge::{LoginDeviceState, RiskChallengeStatus};
use crate::device::{Architecture, DeviceLifecycleStatus, Platform, TrustedDeviceStatus};
use crate::session::{AuthMethod, SessionStatus};
use crate::text::{joined, opt_text, text_eq};
use vstd::prelude::*;

verus! {

/// What tells a name from the others of its kind: its length and its first two characters.
spec fn mark(name: Seq<char>) -> (nat, char, char) {
    (name.len(), name[0], name[1])
}

/// The stored name of an account status.
pub open spec fn account_status_text(status: AccountStatus) -> Seq<char> {
    match status {
        AccountStatus::Active => "active"@,
        AccountStatus::Disabled => "disabled"@,
    }
}

/// The stored name of an account status.
pub fn account_status(status: AccountStatus) -> (name: &'static str)
    ensures
        name@ == account_status_text(status),
{
    match status {
        AccountStatus::Active => "active",
        AccountStatus::Disabled => "disabled",
    }
}

/// The stored name of a login device state.
pub open spec fn login_device_state_text(state: LoginDeviceState) -> Seq<char> {
    match state {
        LoginDeviceState::Registered => "registered"@,
        LoginDeviceState::PendingEnrollment => "pending_enrollment"@,
    }
}

/// The stored name of a login device state.
pub fn login_device_state_name(state: LoginDeviceState) -> (name: &'static str)
    ensures
        name@ == login_device_state_text(state),
{
    match state {
        LoginDeviceState::Registered => "registered",
        LoginDeviceState::PendingEnrollment => "pending_enrollment",
    }
}

/// The login device state that a stored name stands for, if there is one.
pub open spec fn login_device_state_of(name: Seq<char>) -> Option<LoginDeviceState> {
    if name == "registered"@ {
        Some(LoginDeviceState::Registered)
    } else if name == "pending_enrollment"@ {
        Some(LoginDeviceState::PendingEnrollment)
    } else {
        None
    }
}

/// Reads a stored name as a login device state.
pub fn parse_login_device_state(value: &str) -> (result: Result<LoginDeviceState, String>)
    ensures
        result is Ok <==> login_device_state_of(value@) is Some,
        result is Ok ==> login_device_state_of(value@) == Some(result->Ok_0),
        result is Err ==> result->Err_0@ == "account_risk_challenges.login_device_state contains unsupported value "@ + value@,
{
    if text_eq(value, "registered") {
        Ok(LoginDeviceState::Registered)
    } else if text_eq(value, "pending_enrollment") {
        Ok(LoginDeviceState::PendingEnrollment)
    } else {
        Err(joined("account_risk_challenges.login_device_state contains unsupported value ", value))
    }
}

/// Every login device state reads back from its name, and no other name reads as it.
pub proof fn login_device_state_names_round_trip(state: LoginDeviceState, name: Seq<char>)
    ensures
        login_device_state_of(login_device_state_text(state)) == Some(state),
        login_device_state_of(name) == Some(state) <==> name == login_device_state_text(state),
{
    reveal_strlit("registered");
    reveal_strlit("pending_enrollment");
    assert(mark("registered"@) == (10nat, 'r', 'e'));
    assert(mark("pending_enrollment"@) == (18nat, 'p', 'e'));
}

/// The stored name of a platform.
pub open spec fn platform_text(platform: Platform) -> Seq<char> {
    match platform {
        Platform::Windows => "windows"@,
        Platform::Ubuntu => "ubuntu"@,
        Platform::Ios => "ios"@,
    }
}

/// The stored name of a platform.
pub fn platform_name(platform: &Platform) -> (name: &'static str)
    ensures
        name@ == platform_text(*platform),
{
    match platform {
        Platform::Windows => "windows",
        Platform::Ubuntu => "ubuntu",
        Platform::Ios => "ios",
    }
}

/// The platform that a stored name stands for, if there is one.
pub open spec fn platform_of(name: Seq<char>) -> Option<Platform> {
    if name == "windows"@ {
        Some(Platform::Windows)
    } else if name == "ubuntu"@ {
        Some(Platform::Ubuntu)
    } else if name == "ios"@ {
        Some(Platform::Ios)
    } else {
        None
    }
}

/// Reads a stored name as a platform.
pub fn parse_platform(value: &str) -> (result: Result<Platform, String>)
    ensures
        result is Ok <==> platform_of(value@) is Some,
        result is Ok ==> platform_of(value@) == Some(result->Ok_0),
        result is Err ==> result->Err_0@ == "unsupported platform "@ + value@,
{
    if text_eq(value, "windows") {
        Ok(Platform::Windows)
    } else if text_eq(value, "ubuntu") {
        Ok(Platform::Ubuntu)
    } else if text_eq(value, "ios") {
        Ok(Platform::Ios)
    } else {
        Err(joined("unsupported platform ", value))
    }
}

/// Every platform reads back from its name, and no other name reads as it.
pub proof fn platform_names_round_trip(platform: Platform, name: Seq<char>)
    ensures
        platform_of(platform_text(platform)) == Some(platform),
        platform_of(name) == Some(platform) <==> name == platform_text(platform),
{
    reveal_strlit("windows");
    reveal_strlit("ubuntu");
    reveal_strlit("ios");
    assert(mark("windows"@) == (7nat, 'w', 'i'));
    assert(mark("ubuntu"@) == (6nat, 'u', 'b'));
    assert(mark("ios"@) == (3nat, 'i', 'o'));
}

/// The stored name of an architecture.
pub open spec fn architecture_text(architecture: Architecture) -> Seq<char> {
    match architecture {
        Architecture::X86_64 => "x86_64"@,
        Architecture::Aarch64 => "aarch64"@,
    }
}

/// The stored name of an architecture.
pub fn architecture_name(architecture: &Architecture) -> (name: &'static str)
    ensures
        name@ == architecture_text(*architecture),
{
    match architecture {
        Architecture::X86_64 => "x86_64",
        Architecture::Aarch64 => "aarch64",
    }
}

/// The architecture that a stored name stands for, if there is one.
pub open spec fn architecture_of(name: Seq<char>) -> Option<Architecture> {
    if name == "x86_64"@ {
        Some(Architecture::X86_64)
    } else if name == "aarch64"@ {
        Some(Architecture::Aarch64)
    } else {
        None
    }
}

/// Reads a stored name as an architecture.
pub fn parse_architecture(value: &str) -> (result: Result<Architecture, String>)
    ensures
        result is Ok <==> architecture_of(value@) is Some,
        result is Ok ==> architecture_of(value@) == Some(result->Ok_0),
        result is Err ==> result->Err_0@ == "unsupported architecture "@ + value@,
{
    if text_eq(value, "x86_64") {
        Ok(Architecture::X86_64)
    } else if text_eq(value, "aarch64") {
        Ok(Architecture::Aarch64)
    } else {
        Err(joined("unsupported architecture ", value))
    }
}

/// Every architecture reads back from its name, and no other name reads as it.
pub proof fn architecture_names_round_trip(architecture: Architecture, name: Seq<char>)
    ensures
        architecture_of(architecture_text(architecture)) == Some(architecture),
        architecture_of(name) == Some(architecture) <==> name == architecture_text(architecture),
{
    reveal_strlit("x86_64");
    reveal_strlit("aarch64");
    assert(mark("x86_64"@) == (6nat, 'x', '8'));
    assert(mark("aarch64"@) == (7nat, 'a', 'a'));
}

/// The stored name of a device lifecycle status.
pub open spec fn device_lifecycle_status_text(status: DeviceLifecycleStatus) -> Seq<char> {
    match status {
        DeviceLifecycleStatus::Online => "online"@,
        DeviceLifecycleStatus::Offline => "offline"@,
        DeviceLifecycleStatus::Busy => "busy"@,
        DeviceLifecycleStatus::Suspended => "suspended"@,
        DeviceLifecycleStatus::Disabled => "disabled"@,
        DeviceLifecycleStatus::Unbound => "unbound"@,
    }
}

/// The stored name of a device lifecycle status.
pub fn device_lifecycle_status_name(status: DeviceLifecycleStatus) -> (name: &'static str)
    ensures
        name@ == device_lifecycle_status_text(status),
{
    match status {
        DeviceLifecycleStatus::Online => "online",
        DeviceLifecycleStatus::Offline => "offline",
        DeviceLifecycleStatus::Busy => "busy",
        DeviceLifecycleStatus::Suspended => "suspended",
        DeviceLifecycleStatus::Disabled => "disabled",
        DeviceLifecycleStatus::Unbound => "unbound",
    }
}

/// The device lifecycle status that a stored name stands for, if there is one.
pub open spec fn device_lifecycle_status_of(name: Seq<char>) -> Option<DeviceLifecycleStatus> {
    if name == "online"@ {
        Some(DeviceLifecycleStatus::Online)
    } else if name == "offline"@ {
        Some(DeviceLifecycleStatus::Offline)
    } else if name == "busy"@ {
        Some(DeviceLifecycleStatus::Busy)
    } else if name == "suspended"@ {
        Some(DeviceLifecycleStatus::Suspended)
    } else if name == "disabled"@ {
        Some(DeviceLifecycleStatus::Disabled)
    } else if name == "unbound"@ {
        Some(DeviceLifecycleStatus::Unbound)
    } else {
        None
    }
}

/// Reads a stored name as a device lifecycle status.
pub fn parse_device_lifecycle_status(value: &str) -> (result: Result<DeviceLifecycleStatus, String>)
    ensures
        result is Ok <==> device_lifecycle_status_of(value@) is Some,
        result is Ok ==> device_lifecycle_status_of(value@) == Some(result->Ok_0),
        result is Err ==> result->Err_0@ == "devices.status contains unsupported value "@ + value@,
{
    if text_eq(value, "online") {
        Ok(DeviceLifecycleStatus::Online)
    } else if text_eq(value, "offline") {
        Ok(DeviceLifecycleStatus::Offline)
    } else if text_eq(value, "busy") {
        Ok(DeviceLifecycleStatus::Busy)
    } else if text_eq(value, "suspended") {
        Ok(DeviceLifecycleStatus::Suspended)
    } else if text_eq(value, "disabled") {
        Ok(DeviceLifecycleStatus::Disabled)
    } else if text_eq(value, "unbound") {
        Ok(DeviceLifecycleStatus::Unbound)
    } else {
        Err(joined("devices.status contains unsupported value ", value))
    }
}

/// Every device lifecycle status reads back from its name, and no other name reads as it.
pub proof fn device_lifecycle_status_names_round_trip(status: DeviceLifecycleStatus, name: Seq<char>)
    ensures
        device_lifecycle_status_of(device_lifecycle_status_text(status)) == Some(status),
        device_lifecycle_status_of(name) == Some(status) <==> name == device_lifecycle_status_text(status),
{
    reveal_strlit("online");
    reveal_strlit("offline");
    reveal_strlit("busy");
    reveal_strlit("suspended");
    reveal_strlit("disabled");
    reveal_strlit("unbound");
    assert(mark("online"@) == (6nat, 'o', 'n'));
    assert(mark("offline"@) == (7nat, 'o', 'f'));
    assert(mark("busy"@) == (4nat, 'b', 'u'));
    assert(mark("suspended"@) == (9nat, 's', 'u'));
    assert(mark("disabled"@) == (8nat, 'd', 'i'));
    assert(mark("unbound"@) == (7nat, 'u', 'n'));
}

/// The stored name of an authorisation method.
pub open spec fn auth_method_text(method: AuthMethod) -> Seq<char> {
    match method {
        AuthMethod::AccountPrompt => "account_prompt"@,
        AuthMethod::TemporaryCode => "temporary_code"@,
        AuthMethod::Unattended => "unattended"@,
    }
}

/// The stored name of an authorisation method.
pub fn auth_method_name(method: AuthMethod) -> (name: &'static str)
    ensures
        name@ == auth_method_text(method),
{
    match method {
        AuthMethod::AccountPrompt => "account_prompt",
        AuthMethod::TemporaryCode => "temporary_code",
        AuthMethod::Unattended => "unattended",
    }
}

/// The authorisation method that a stored name stands for, if there is one.
pub open spec fn auth_method_of(name: Seq<char>) -> Option<AuthMethod> {
    if name == "account_prompt"@ {
        Some(AuthMethod::AccountPrompt)
    } else if name == "temporary_code"@ {
        Some(AuthMethod::TemporaryCode)
    } else if name == "unattended"@ {
        Some(AuthMethod::Unattended)
    } else {
        None
    }
}

/// Reads a stored name as an authorisation method.
pub fn parse_auth_method(value: &str) -> (result: Result<AuthMethod, String>)
    ensures
        result is Ok <==> auth_method_of(value@) is Some,
        result is Ok ==> auth_method_of(value@) == Some(result->Ok_0),
        result is Err ==> result->Err_0@ == "unsupported auth_method "@ + value@,
{
    if text_eq(value, "account_prompt") {
        Ok(AuthMethod::AccountPrompt)
    } else if text_eq(value, "temporary_code") {
        Ok(AuthMethod::TemporaryCode)
    } else if text_eq(value, "unattended") {
        Ok(AuthMethod::Unattended)
    } else {
        Err(joined("unsupported auth_method ", value))
    }
}

/// Every authorisation method reads back from its name, and no other name reads as it.
pub proof fn auth_method_names_round_trip(method: AuthMethod, name: Seq<char>)
    ensures
        auth_method_of(auth_method_text(method)) == Some(method),
        auth_method_of(name) == Some(method) <==> name == auth_method_text(method),
{
    reveal_strlit("account_prompt");
    reveal_strlit("temporary_code");
    reveal_strlit("unattended");
    assert(mark("account_prompt"@) == (14nat, 'a', 'c'));
    assert(mark("temporary_code"@) == (14nat, 't', 'e'));
    assert(mark("unattended"@) == (10nat, 'u', 'n'));
}

/// The stored name of a session status.
pub open spec fn session_status_text(status: SessionStatus) -> Seq<char> {
    match status {
        SessionStatus::PendingCodeVerification => "pending_code_verification"@,
        SessionStatus::PendingUnattendedVerification => "pending_unattended_verification"@,
        SessionStatus::CodeVerified => "code_verified"@,
        SessionStatus::UnattendedVerified => "unattended_verified"@,
        SessionStatus::WaitingApproval => "waiting_approval"@,
        SessionStatus::Accepted => "accepted"@,
        SessionStatus::Connected => "connected"@,
        SessionStatus::Degraded => "degraded"@,
        SessionStatus::Reconnecting => "reconnecting"@,
        SessionStatus::Cancelled => "cancelled"@,
        SessionStatus::Closed => "closed"@,
        SessionStatus::Rejected => "rejected"@,
        SessionStatus::Failed => "failed"@,
    }
}

/// The stored name of a session status.
pub fn session_status_name(status: SessionStatus) -> (name: &'static str)
    ensures
        name@ == session_status_text(status),
{
    match status {
        SessionStatus::PendingCodeVerification => "pending_code_verification",
        SessionStatus::PendingUnattendedVerification => "pending_unattended_verification",
        SessionStatus::CodeVerified => "code_verified",
        SessionStatus::UnattendedVerified => "unattended_verified",
        SessionStatus::WaitingApproval => "waiting_approval",
        SessionStatus::Accepted => "accepted",
        SessionStatus::Connected => "connected",
        SessionStatus::Degraded => "degraded",
        SessionStatus::Reconnecting => "reconnecting",
        SessionStatus::Cancelled => "cancelled",
        SessionStatus::Closed => "closed",
        SessionStatus::Rejected => "rejected",
        SessionStatus::Failed => "failed",
    }
}

/// The session status that a stored name stands for, if there is one.
pub open spec fn session_status_of(name: Seq<char>) -> Option<SessionStatus> {
    if name == "pending_code_verification"@ {
        Some(SessionStatus::PendingCodeVerification)
    } else if name == "pending_unattended_verification"@ {
        Some(SessionStatus::PendingUnattendedVerification)
    } else if name == "code_verified"@ {
        Some(SessionStatus::CodeVerified)
    } else if name == "unattended_verified"@ {
        Some(SessionStatus::UnattendedVerified)
    } else if name == "waiting_approval"@ {
        Some(SessionStatus::WaitingApproval)
    } else if name == "accepted"@ {
        Some(SessionStatus::Accepted)
    } else if name == "connected"@ {
        Some(SessionStatus::Connected)
    } else if name == "degraded"@ {
        Some(SessionStatus::Degraded)
    } else if name == "reconnecting"@ {
        Some(SessionStatus::Reconnecting)
    } else if name == "cancelled"@ {
        Some(SessionStatus::Cancelled)
    } else if name == "closed"@ {
        Some(SessionStatus::Closed)
    } else if name == "rejected"@ {
        Some(SessionStatus::Rejected)
    } else if name == "failed"@ {
        Some(SessionStatus::Failed)
    } else {
        None
    }
}

/// Reads a stored name as a session status.
pub fn parse_session_status(value: &str) -> (result: Result<SessionStatus, String>)
    ensures
        result is Ok <==> session_status_of(value@) is Some,
        result is Ok ==> session_status_of(value@) == Some(result->Ok_0),
        result is Err ==> result->Err_0@ == "unsupported session status "@ + value@,
{
    if text_eq(value, "pending_code_verification") {
        Ok(SessionStatus::PendingCodeVerification)
    } else if text_eq(value, "pending_unattended_verification") {
        Ok(SessionStatus::PendingUnattendedVerification)
    } else if text_eq(value, "code_verified") {
        Ok(SessionStatus::CodeVerified)
    } else if text_eq(value, "unattended_verified") {
        Ok(SessionStatus::UnattendedVerified)
    } else if text_eq(value, "waiting_approval") {
        Ok(SessionStatus::WaitingApproval)
    } else if text_eq(value, "accepted") {
        Ok(SessionStatus::Accepted)
    } else if text_eq(value, "connected") {
        Ok(SessionStatus::Connected)
    } else if text_eq(value, "degraded") {
        Ok(SessionStatus::Degraded)
    } else if text_eq(value, "reconnecting") {
        Ok(SessionStatus::Reconnecting)
    } else if text_eq(value, "cancelled") {
        Ok(SessionStatus::Cancelled)
    } else if text_eq(value, "closed") {
        Ok(SessionStatus::Closed)
    } else if text_eq(value, "rejected") {
        Ok(SessionStatus::Rejected)
    } else if text_eq(value, "failed") {
        Ok(SessionStatus::Failed)
    } else {
        Err(joined("unsupported session status ", value))
    }
}

/// Every session status reads back from its name, and no other name reads as it.
pub proof fn session_status_names_round_trip(status: SessionStatus, name: Seq<char>)
    ensures
        session_status_of(session_status_text(status)) == Some(status),
        session_status_of(name) == Some(status) <==> name == session_status_text(status),
{
    reveal_strlit("pending_code_verification");
    reveal_strlit("pending_unattended_verification");
    reveal_strlit("code_verified");
    reveal_strlit("unattended_verified");
    reveal_strlit("waiting_approval");
    reveal_strlit("accepted");
    reveal_strlit("connected");
    reveal_strlit("degraded");
    reveal_strlit("reconnecting");
    reveal_strlit("cancelled");
    reveal_strlit("closed");
    reveal_strlit("rejected");
    reveal_strlit("failed");
    assert(mark("pending_code_verification"@) == (25nat, 'p', 'e'));
    assert(mark("pending_unattended_verification"@) == (31nat, 'p', 'e'));
    assert(mark("code_verified"@) == (13nat, 'c', 'o'));
    assert(mark("unattended_verified"@) == (19nat, 'u', 'n'));
    assert(mark("waiting_approval"@) == (16nat, 'w', 'a'));
    assert(mark("accepted"@) == (8nat, 'a', 'c'));
    assert(mark("connected"@) == (9nat, 'c', 'o'));
    assert(mark("degraded"@) == (8nat, 'd', 'e'));
    assert(mark("reconnecting"@) == (12nat, 'r', 'e'));
    assert(mark("cancelled"@) == (9nat, 'c', 'a'));
    assert(mark("closed"@) == (6nat, 'c', 'l'));
    assert(mark("rejected"@) == (8nat, 'r', 'e'));
    assert(mark("failed"@) == (6nat, 'f', 'a'));
}

/// The stored name of a risk challenge status.
pub open spec fn risk_challenge_status_text(status: RiskChallengeStatus) -> Seq<char> {
    match status {
        RiskChallengeStatus::Issued => "issued"@,
        RiskChallengeStatus::Verified => "verified"@,
        RiskChallengeStatus::Failed => "failed"@,
        RiskChallengeStatus::Consumed => "consumed"@,
        RiskChallengeStatus::Expired => "expired"@,
        RiskChallengeStatus::Cancelled => "cancelled"@,
    }
}

/// The stored name of a risk challenge status.
pub fn risk_challenge_status_name(status: RiskChallengeStatus) -> (name: &'static str)
    ensures
        name@ == risk_challenge_status_text(status),
{
    match status {
        RiskChallengeStatus::Issued => "issued",
        RiskChallengeStatus::Verified => "verified",
        RiskChallengeStatus::Failed => "failed",
        RiskChallengeStatus::Consumed => "consumed",
        RiskChallengeStatus::Expired => "expired",
        RiskChallengeStatus::Cancelled => "cancelled",
    }
}

/// The risk challenge status that a stored name stands for, if there is one.
pub open spec fn risk_challenge_status_of(name: Seq<char>) -> Option<RiskChallengeStatus> {
    if name == "issued"@ {
        Some(RiskChallengeStatus::Issued)
    } else if name == "verified"@ {
        Some(RiskChallengeStatus::Verified)
    } else if name == "failed"@ {
        Some(RiskChallengeStatus::Failed)
    } else if name == "consumed"@ {
        Some(RiskChallengeStatus::Consumed)
    } else if name == "expired"@ {
        Some(RiskChallengeStatus::Expired)
    } else if name == "cancelled"@ {
        Some(RiskChallengeStatus::Cancelled)
    } else {
        None
    }
}

/// Reads a stored name as a risk challenge status.
pub fn parse_risk_challenge_status(value: &str) -> (result: Result<RiskChallengeStatus, String>)
    ensures
        result is Ok <==> risk_challenge_status_of(value@) is Some,
        result is Ok ==> risk_challenge_status_of(value@) == Some(result->Ok_0),
        result is Err ==> result->Err_0@ == "account_risk_challenges.status contains unsupported value "@ + value@,
{
    if text_eq(value, "issued") {
        Ok(RiskChallengeStatus::Issued)
    } else if text_eq(value, "verified") {
        Ok(RiskChallengeStatus::Verified)
    } else if text_eq(value, "failed") {
        Ok(RiskChallengeStatus::Failed)
    } else if text_eq(value, "consumed") {
        Ok(RiskChallengeStatus::Consumed)
    } else if text_eq(value, "expired") {
        Ok(RiskChallengeStatus::Expired)
    } else if text_eq(value, "cancelled") {
        Ok(RiskChallengeStatus::Cancelled)
    } else {
        Err(joined("account_risk_challenges.status contains unsupported value ", value))
    }
}

/// Every risk challenge status reads back from its name, and no other name reads as it.
pub proof fn risk_challenge_status_names_round_trip(status: RiskChallengeStatus, name: Seq<char>)
    ensures
        risk_challenge_status_of(risk_challenge_status_text(status)) == Some(status),
        risk_challenge_status_of(name) == Some(status) <==> name == risk_challenge_status_text(status),
{
    reveal_strlit("issued");
    reveal_strlit("verified");
    reveal_strlit("failed");
    reveal_strlit("consumed");
    reveal_strlit("expired");
    reveal_strlit("cancelled");
    assert(mark("issued"@) == (6nat, 'i', 's'));
    assert(mark("verified"@) == (8nat, 'v', 'e'));
    assert(mark("failed"@) == (6nat, 'f', 'a'));
    assert(mark("consumed"@) == (8nat, 'c', 'o'));
    assert(mark("expired"@) == (7nat, 'e', 'x'));
    assert(mark("cancelled"@) == (9nat, 'c', 'a'));
}

/// The stored name of a trusted device status.
pub open spec fn trusted_device_status_text(status: TrustedDeviceStatus) -> Seq<char> {
    match status {
        TrustedDeviceStatus::Active => "active"@,
        TrustedDeviceStatus::Expired => "expired"@,
        TrustedDeviceStatus::Revoked => "revoked"@,
    }
}

/// The stored name of a trusted device status.
pub fn trusted_device_status_name(status: TrustedDeviceStatus) -> (name: &'static str)
    ensures
        name@ == trusted_device_status_text(status),
{
    match status {
        TrustedDeviceStatus::Active => "active",
        TrustedDeviceStatus::Expired => "expired",
        TrustedDeviceStatus::Revoked => "revoked",
    }
}

/// The trusted device status that a stored name stands for, if there is one.
pub open spec fn trusted_device_status_of(name: Seq<char>) -> Option<TrustedDeviceStatus> {
    if name == "active"@ {
        Some(TrustedDeviceStatus::Active)
    } else if name == "expired"@ {
        Some(TrustedDeviceStatus::Expired)
    } else if name == "revoked"@ {
        Some(TrustedDeviceStatus::Revoked)
    } else {
        None
    }
}

/// Reads a stored name as a trusted device status.
pub fn parse_trusted_device_status(value: &str) -> (result: Result<TrustedDeviceStatus, String>)
    ensures
        result is Ok <==> trusted_device_status_of(value@) is Some,
        result is Ok ==> trusted_device_status_of(value@) == Some(result->Ok_0),
        result is Err ==> result->Err_0@ == "trusted_controller_devices.status contains unsupported value "@ + value@,
{
    if text_eq(value, "active") {
        Ok(TrustedDeviceStatus::Active)
    } else if text_eq(value, "expired") {
        Ok(TrustedDeviceStatus::Expired)
    } else if text_eq(value, "revoked") {
        Ok(TrustedDeviceStatus::Revoked)
    } else {
        Err(joined("trusted_controller_devices.status contains unsupported value ", value))
    }
}

/// Every trusted device status reads back from its name, and no other name reads as it.
pub proof fn trusted_device_status_names_round_trip(status: TrustedDeviceStatus, name: Seq<char>)
    ensures
        trusted_device_status_of(trusted_device_status_text(status)) == Some(status),
        trusted_device_status_of(name) == Some(status) <==> name == trusted_device_status_text(status),
{
    reveal_strlit("active");
    reveal_strlit("expired");
    reveal_strlit("revoked");
    assert(mark("active"@) == (6nat, 'a', 'c'));
    assert(mark("expired"@) == (7nat, 'e', 'x'));
    assert(mark("revoked"@) == (7nat, 'r', 'e'));
}

/// Whether a device lifecycle status is one that only an explicit restore may leave.
pub open spec fn terminal_status(status: DeviceLifecycleStatus) -> bool {
    status == DeviceLifecycleStatus::Suspended || status == DeviceLifecycleStatus::Disabled
        || status == DeviceLifecycleStatus::Unbound
}

/// Whether a device lifecycle status is one that only an explicit restore may leave.
pub fn is_terminal_device_lifecycle_status(status: DeviceLifecycleStatus) -> (terminal: bool)
    ensures
        terminal == terminal_status(status),
{
    matches!(
        status,
        DeviceLifecycleStatus::Suspended | DeviceLifecycleStatus::Disabled
            | DeviceLifecycleStatus::Unbound
    )
}

/// The stored role, where `"none"` stands for no role.
pub open spec fn role_of(value: Seq<char>) -> Option<Seq<char>> {
    if value == "none"@ {
        None
    } else {
        Some(value)
    }
}

/// Reads a stored role, where `"none"` stands for no role.
pub fn optional_role(value: String) -> (role: Option<String>)
    ensures
        opt_text(role) == role_of(value@),
{
    if text_eq(value.as_str(), "none") {
        None
    } else {
        Some(value)
    }
}

/// The stored form of a role: its text, or `"none"`.
pub open spec fn stored_role(role: Option<Seq<char>>) -> Seq<char> {
    match role {
        Some(text) => text,
        None => "none"@,
    }
}

/// The stored form of a role: its text, or `"none"`.
pub fn role_name(role: &Option<String>) -> (name: &str)
    ensures
        name@ == stored_role(opt_text(*role)),
{
    match role {
        Some(text) => text.as_str(),
        None => "none",
    }
}

/// A role reads back from its stored form, unless the role is itself the word for none.
pub proof fn roles_round_trip(role: Option<Seq<char>>)
    requires
        role != Some("none"@),
    ensures
        role_of(stored_role(role)) == role,
{
}

} // verus!
