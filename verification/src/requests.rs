//! Typed requests of the service's endpoints: their descriptors, their JSON
//! bodies, and the decoding of their responses, together with the structured
//! API error.

use vstd::prelude::*;
use vstd::string::StringExecFns;
use vstd::utf8::encode_utf8;

use crate::codec::{json_quoted, push_json_quoted, push_str_bytes};
use crate::domain::{EventId, HumanVerification, HumanVerificationLoginData, User, UserId, UserUid};
use crate::http::{
    headers_upsert, Error, FromResponse, HttpResponse, Method, NoResponse, Request, RequestData,
    RequestFactory, RequestModel,
};

verus! {

/// Internal API code with which the service demands human verification.
pub open spec fn hv_required_code() -> u32 {
    9001
}

/// Mathematical model of a decoded error body.
pub ghost struct ErrorDescModel {
    pub code: u32,
    pub message: Option<Seq<char>>,
    pub hv: Option<HvModel>,
}

/// Mathematical model of a human-verification challenge descriptor.
pub ghost struct HvModel {
    pub methods: Seq<Seq<char>>,
    pub token: Seq<char>,
}

/// What the service's error body `{Code, Error, Details}` decodes to, if it
/// decodes at all; a function of the bytes alone.
pub uninterp spec fn error_desc_of(body: Seq<u8>) -> Option<ErrorDescModel>;

/// `o` holds exactly the characters of `m`.
pub open spec fn opt_str_matches(o: Option<String>, m: Option<Seq<char>>) -> bool {
    match o {
        Some(s) => m matches Some(t) && s@ == t,
        None => m is None,
    }
}

/// `o` holds exactly the challenge descriptor `m`.
pub open spec fn hv_matches(o: Option<HumanVerification>, m: Option<HvModel>) -> bool {
    match o {
        Some(h) => m matches Some(hm) && h.token@ == hm.token
            && h.methods.deep_view() == hm.methods,
        None => m is None,
    }
}

/// Wire shape of the service's error body.
pub struct APIErrorDesc {
    pub code: u32,
    pub error: Option<String>,
}

/// Relies on `serde_json::from_slice` and `serde_json::Value`'s accessors to
/// read the error body `{Code, Error, Details: {HumanVerificationToken,
/// HumanVerificationMethods}}`. The result depends on the bytes alone and is
/// named by `error_desc_of`.
#[verifier::external_body]
fn parse_error_desc(body: &[u8]) -> (r: Option<(APIErrorDesc, Option<HumanVerification>)>)
    ensures
        r is Some <==> error_desc_of(body@) is Some,
        r matches Some(d) ==> error_desc_of(body@) matches Some(m) && d.0.code == m.code
            && opt_str_matches(d.0.error, m.message) && hv_matches(d.1, m.hv),
{
    let v: serde_json::Value = serde_json::from_slice(body).ok()?;
    let code = u32::try_from(v.get("Code")?.as_u64()?).ok()?;
    let error = v.get("Error").and_then(|e| e.as_str()).map(|s| s.to_string());
    let hv = v.get("Details").and_then(|d| {
        Some(HumanVerification {
            token: d.get("HumanVerificationToken")?.as_str()?.to_string(),
            methods: serde_json::from_value(d.get("HumanVerificationMethods")?.clone()).ok()?,
        })
    });
    Some((APIErrorDesc { code, error }, hv))
}

/// Representation of the service's API error.
#[derive(Debug)]
pub struct APIError {
    /// Http status code for the error.
    pub http_code: u16,
    /// Internal API code; `0` when the error body held none.
    pub api_code: u32,
    /// Optional error message that may be present.
    pub message: Option<String>,
    /// Human-verification challenge descriptor, when the body carried one.
    pub hv: Option<HumanVerification>,
}

/// What `APIError::with_status_and_body` promises about its fields: an empty
/// or undecodable body degrades to api code `0` with no message, anything
/// else is taken from the decoded body.
pub open spec fn api_error_body_matches(a: APIError, body: Seq<u8>) -> bool {
    if body.len() == 0 {
        a.api_code == 0 && a.message is None && a.hv is None
    } else {
        match error_desc_of(body) {
            Some(m) => a.api_code == m.code && opt_str_matches(a.message, m.message)
                && hv_matches(a.hv, m.hv),
            None => a.api_code == 0 && a.message is None && a.hv is None,
        }
    }
}

impl APIError {
    /// An error carrying the http status alone.
    pub fn new(http_status: u16) -> (r: Self)
        ensures
            r.http_code == http_status,
            r.api_code == 0,
            r.message is None,
            r.hv is None,
    {
        Self { http_code: http_status, api_code: 0, message: None, hv: None }
    }

    /// Decodes the error body best-effort: an empty or malformed body leaves
    /// api code `0` and no message rather than failing.
    pub fn with_status_and_body(http_status: u16, body: &[u8]) -> (r: Self)
        ensures
            r.http_code == http_status,
            api_error_body_matches(r, body@),
    {
        if body.len() == 0 {
            return Self::new(http_status);
        }
        match parse_error_desc(body) {
            Some((desc, hv)) => Self {
                http_code: http_status,
                api_code: desc.code,
                message: desc.error,
                hv,
            },
            None => Self::new(http_status),
        }
    }
}

/// Splits a transport outcome by status: a 2xx response hands its body on,
/// anything else becomes a structured [`APIError`] decoded best-effort from
/// the body.
pub fn status_into_api_error(response: HttpResponse) -> (r: Result<Vec<u8>, Error>)
    ensures
        200 <= response.status < 300 ==> (r matches Ok(b) && b@ == response.body@),
        !(200 <= response.status < 300) ==> (r matches Err(e) && e matches Error::API(a)
            && a.http_code == response.status && api_error_body_matches(a, response.body@)),
{
    if 200 <= response.status && response.status < 300 {
        Ok(response.body)
    } else {
        Err(Error::API(APIError::with_status_and_body(response.status, response.body.as_slice())))
    }
}

// ---------------------------------------------------------------------------
// Response decoding strategies
// ---------------------------------------------------------------------------

/// Decoding strategy that turns a JSON body into the payload type `T`.
pub struct JsonResponse<T>(core::marker::PhantomData<T>);

/// Decoding strategy that hands the body back as text, replacing invalid
/// UTF-8 best-effort.
#[derive(Copy, Clone)]
pub struct StringResponse {}

/// Decoding strategy that hands the checked raw body bytes back unchanged,
/// for payloads the caller decodes itself.
#[derive(Copy, Clone)]
pub struct RawResponse {}

/// What `String::from_utf8_lossy` makes of a byte string; a function of the
/// bytes alone.
pub uninterp spec fn utf8_lossy_of(body: Seq<u8>) -> Seq<char>;

/// Relies on `String::from_utf8_lossy`: the result depends on the bytes
/// alone (named by `utf8_lossy_of`), and an empty input gives an empty
/// string.
#[verifier::external_body]
fn utf8_lossy(body: &[u8]) -> (r: String)
    ensures
        r@ == utf8_lossy_of(body@),
        body@.len() == 0 ==> r@.len() == 0,
{
    String::from_utf8_lossy(body).to_string()
}

impl FromResponse for StringResponse {
    type Output = String;

    open spec fn good(body: Seq<u8>) -> bool {
        true
    }

    open spec fn output_matches(body: Seq<u8>, o: String) -> bool {
        o@ == utf8_lossy_of(body)
    }

    fn from_response_sync(body: Vec<u8>) -> (r: Result<String, Error>) {
        Ok(utf8_lossy(body.as_slice()))
    }
}

impl FromResponse for RawResponse {
    type Output = Vec<u8>;

    open spec fn good(body: Seq<u8>) -> bool {
        true
    }

    open spec fn output_matches(body: Seq<u8>, o: Vec<u8>) -> bool {
        o@ == body
    }

    fn from_response_sync(body: Vec<u8>) -> (r: Result<Vec<u8>, Error>) {
        Ok(body)
    }
}

// ---------------------------------------------------------------------------
// Login challenge
// ---------------------------------------------------------------------------

/// The server-issued login challenge, consumed once to compute the proof.
#[derive(Debug)]
pub struct AuthInfoResponse {
    pub version: i64,
    pub modulus: String,
    pub server_ephemeral: String,
    pub salt: String,
    pub srp_session: String,
}

/// Mathematical model of a decoded login challenge.
pub ghost struct AuthInfoModel {
    pub version: i64,
    pub modulus: Seq<char>,
    pub server_ephemeral: Seq<char>,
    pub salt: Seq<char>,
    pub srp_session: Seq<char>,
}

/// What the challenge body `{Version, Modulus, ServerEphemeral, Salt,
/// SRPSession}` decodes to, if it decodes at all; a function of the bytes
/// alone.
pub uninterp spec fn auth_info_of(body: Seq<u8>) -> Option<AuthInfoModel>;

/// `o` holds exactly the decoded challenge `m`.
pub open spec fn auth_info_matches(o: AuthInfoResponse, m: AuthInfoModel) -> bool {
    &&& o.version == m.version
    &&& o.modulus@ == m.modulus
    &&& o.server_ephemeral@ == m.server_ephemeral
    &&& o.salt@ == m.salt
    &&& o.srp_session@ == m.srp_session
}

/// Relies on `serde_json::from_slice` and `serde_json::Value`'s accessors to
/// read the challenge body; the result depends on the bytes alone and is
/// named by `auth_info_of`.
#[verifier::external_body]
fn parse_auth_info(body: &[u8]) -> (r: Option<AuthInfoResponse>)
    ensures
        r is Some <==> auth_info_of(body@) is Some,
        r matches Some(a) ==> auth_info_of(body@) matches Some(m) && auth_info_matches(a, m),
{
    let v: serde_json::Value = serde_json::from_slice(body).ok()?;
    Some(AuthInfoResponse {
        version: v.get("Version")?.as_i64()?,
        modulus: v.get("Modulus")?.as_str()?.to_string(),
        server_ephemeral: v.get("ServerEphemeral")?.as_str()?.to_string(),
        salt: v.get("Salt")?.as_str()?.to_string(),
        srp_session: v.get("SRPSession")?.as_str()?.to_string(),
    })
}

impl FromResponse for JsonResponse<AuthInfoResponse> {
    type Output = AuthInfoResponse;

    open spec fn good(body: Seq<u8>) -> bool {
        auth_info_of(body) is Some
    }

    open spec fn output_matches(body: Seq<u8>, o: AuthInfoResponse) -> bool {
        auth_info_of(body) matches Some(m) && auth_info_matches(o, m)
    }

    fn from_response_sync(body: Vec<u8>) -> (r: Result<AuthInfoResponse, Error>) {
        match parse_auth_info(body.as_slice()) {
            Some(a) => Ok(a),
            None => Err(Error::EncodeOrDecode(String::from_str("unexpected response shape"))),
        }
    }
}

// ---------------------------------------------------------------------------
// Proof submission response
// ---------------------------------------------------------------------------

/// Second-factor requirement the server reports with a login.
#[derive(Debug, Eq, PartialEq, Copy, Clone, Structural)]
pub enum TFAStatus {
    Disabled,
    Totp,
    FIDO2,
    TotpOrFIDO2,
}

/// The wire code of a second-factor requirement.
pub open spec fn tfa_status_code(s: TFAStatus) -> u64 {
    match s {
        TFAStatus::Disabled => 0,
        TFAStatus::Totp => 1,
        TFAStatus::FIDO2 => 2,
        TFAStatus::TotpOrFIDO2 => 3,
    }
}

impl TFAStatus {
    /// Decodes the wire representation (`0` through `3`).
    pub fn from_code(code: u64) -> (r: Option<Self>)
        ensures
            r is Some <==> code <= 3,
            r matches Some(s) ==> tfa_status_code(s) == code,
    {
        match code {
            0 => Some(TFAStatus::Disabled),
            1 => Some(TFAStatus::Totp),
            2 => Some(TFAStatus::FIDO2),
            3 => Some(TFAStatus::TotpOrFIDO2),
            _ => None,
        }
    }
}

/// How many passwords the account uses.
#[derive(Debug, Eq, PartialEq, Copy, Clone, Structural)]
pub enum PasswordMode {
    One,
    Two,
}

/// The wire code of a password mode.
pub open spec fn password_mode_code(m: PasswordMode) -> u64 {
    match m {
        PasswordMode::One => 1,
        PasswordMode::Two => 2,
    }
}

impl PasswordMode {
    /// Decodes the wire representation (`1` or `2`).
    pub fn from_code(code: u64) -> (r: Option<Self>)
        ensures
            r is Some <==> (code == 1 || code == 2),
            r matches Some(m) ==> password_mode_code(m) == code,
    {
        match code {
            1 => Some(PasswordMode::One),
            2 => Some(PasswordMode::Two),
            _ => None,
        }
    }
}

/// A registered second-factor hardware key, as reported by the server.
#[derive(Debug)]
pub struct FIDOKey {
    pub attestation_format: String,
    pub credential_id: Vec<i32>,
    pub name: String,
}

/// Hardware-key material the server reports with a login; opaque to this
/// library, which does not implement that method.
#[derive(Debug)]
pub struct FIDO2Info {
    pub authentication_options: Option<String>,
    pub registered_keys: Option<Vec<FIDOKey>>,
}

/// Second-factor summary the server reports with a login.
#[derive(Debug)]
pub struct TFAInfo {
    pub enabled: TFAStatus,
}

/// The authentication payload the server returns for a submitted proof.
#[derive(Debug)]
pub struct AuthResponse {
    pub user_id: String,
    pub uid: String,
    pub token_type: Option<String>,
    pub access_token: String,
    pub refresh_token: String,
    pub server_proof: String,
    pub scope: String,
    pub tfa: TFAInfo,
    pub password_mode: PasswordMode,
}

/// Mathematical model of a decoded authentication payload; the second-factor
/// and password-mode fields are kept as raw wire codes.
pub ghost struct AuthModel {
    pub user_id: Seq<char>,
    pub uid: Seq<char>,
    pub token_type: Option<Seq<char>>,
    pub access_token: Seq<char>,
    pub refresh_token: Seq<char>,
    pub server_proof: Seq<char>,
    pub scope: Seq<char>,
    pub tfa_enabled: u64,
    pub password_mode: u64,
}

/// What the authentication body decodes to, if it decodes at all; a function
/// of the bytes alone.
pub uninterp spec fn auth_response_of(body: Seq<u8>) -> Option<AuthModel>;

struct AuthWire {
    user_id: String,
    uid: String,
    token_type: Option<String>,
    access_token: String,
    refresh_token: String,
    server_proof: String,
    scope: String,
    tfa_enabled: u64,
    password_mode: u64,
}

/// Relies on `serde_json::from_slice` and `serde_json::Value`'s accessors to
/// read the authentication body `{UserID, UID, TokenType, AccessToken,
/// RefreshToken, ServerProof, Scope, 2FA: {Enabled}, PasswordMode}`; the
/// result depends on the bytes alone and is named by `auth_response_of`.
#[verifier::external_body]
fn parse_auth(body: &[u8]) -> (r: Option<AuthWire>)
    ensures
        r is Some <==> auth_response_of(body@) is Some,
        r matches Some(a) ==> auth_response_of(body@) matches Some(m) && a.user_id@ == m.user_id
            && a.uid@ == m.uid && opt_str_matches(a.token_type, m.token_type)
            && a.access_token@ == m.access_token && a.refresh_token@ == m.refresh_token
            && a.server_proof@ == m.server_proof && a.scope@ == m.scope
            && a.tfa_enabled == m.tfa_enabled && a.password_mode == m.password_mode,
{
    let v: serde_json::Value = serde_json::from_slice(body).ok()?;
    Some(AuthWire {
        user_id: v.get("UserID")?.as_str()?.to_string(),
        uid: v.get("UID")?.as_str()?.to_string(),
        token_type: v.get("TokenType").and_then(|t| t.as_str()).map(|s| s.to_string()),
        access_token: v.get("AccessToken")?.as_str()?.to_string(),
        refresh_token: v.get("RefreshToken")?.as_str()?.to_string(),
        server_proof: v.get("ServerProof")?.as_str()?.to_string(),
        scope: v.get("Scope")?.as_str()?.to_string(),
        tfa_enabled: v.get("2FA")?.get("Enabled")?.as_u64()?,
        password_mode: v.get("PasswordMode")?.as_u64()?,
    })
}

/// `o` holds exactly the decoded authentication payload `m`.
pub open spec fn auth_response_matches(o: AuthResponse, m: AuthModel) -> bool {
    &&& o.user_id@ == m.user_id
    &&& o.uid@ == m.uid
    &&& opt_str_matches(o.token_type, m.token_type)
    &&& o.access_token@ == m.access_token
    &&& o.refresh_token@ == m.refresh_token
    &&& o.server_proof@ == m.server_proof
    &&& o.scope@ == m.scope
    &&& tfa_status_code(o.tfa.enabled) == m.tfa_enabled
    &&& password_mode_code(o.password_mode) == m.password_mode
}

impl FromResponse for JsonResponse<AuthResponse> {
    type Output = AuthResponse;

    open spec fn good(body: Seq<u8>) -> bool {
        auth_response_of(body) matches Some(m) && m.tfa_enabled <= 3 && (m.password_mode == 1
            || m.password_mode == 2)
    }

    open spec fn output_matches(body: Seq<u8>, o: AuthResponse) -> bool {
        auth_response_of(body) matches Some(m) && auth_response_matches(o, m)
    }

    fn from_response_sync(body: Vec<u8>) -> (r: Result<AuthResponse, Error>) {
        let w = match parse_auth(body.as_slice()) {
            Some(w) => w,
            None => {
                return Err(Error::EncodeOrDecode(String::from_str("unexpected response shape")));
            },
        };
        let enabled = match TFAStatus::from_code(w.tfa_enabled) {
            Some(s) => s,
            None => {
                return Err(Error::EncodeOrDecode(String::from_str("unknown second-factor code")));
            },
        };
        let password_mode = match PasswordMode::from_code(w.password_mode) {
            Some(m) => m,
            None => {
                return Err(Error::EncodeOrDecode(String::from_str("unknown password mode")));
            },
        };
        Ok(AuthResponse {
            user_id: w.user_id,
            uid: w.uid,
            token_type: w.token_type,
            access_token: w.access_token,
            refresh_token: w.refresh_token,
            server_proof: w.server_proof,
            scope: w.scope,
            tfa: TFAInfo { enabled },
            password_mode,
        })
    }
}

// ---------------------------------------------------------------------------
// Token refresh response
// ---------------------------------------------------------------------------

/// The payload of a refresh-token exchange.
#[derive(Debug)]
pub struct AuthRefreshResponse {
    pub uid: String,
    pub token_type: String,
    pub access_token: String,
    pub refresh_token: String,
    pub scope: String,
}

/// Mathematical model of a decoded refresh payload.
pub ghost struct AuthRefreshModel {
    pub uid: Seq<char>,
    pub token_type: Seq<char>,
    pub access_token: Seq<char>,
    pub refresh_token: Seq<char>,
    pub scope: Seq<char>,
}

/// What the refresh body `{UID, TokenType, AccessToken, RefreshToken,
/// Scope}` decodes to, if it decodes at all; a function of the bytes alone.
pub uninterp spec fn auth_refresh_of(body: Seq<u8>) -> Option<AuthRefreshModel>;

/// `o` holds exactly the decoded refresh payload `m`.
pub open spec fn auth_refresh_matches(o: AuthRefreshResponse, m: AuthRefreshModel) -> bool {
    &&& o.uid@ == m.uid
    &&& o.token_type@ == m.token_type
    &&& o.access_token@ == m.access_token
    &&& o.refresh_token@ == m.refresh_token
    &&& o.scope@ == m.scope
}

/// Relies on `serde_json::from_slice` and `serde_json::Value`'s accessors to
/// read the refresh body; the result depends on the bytes alone and is named
/// by `auth_refresh_of`.
#[verifier::external_body]
fn parse_auth_refresh(body: &[u8]) -> (r: Option<AuthRefreshResponse>)
    ensures
        r is Some <==> auth_refresh_of(body@) is Some,
        r matches Some(a) ==> auth_refresh_of(body@) matches Some(m) && auth_refresh_matches(a, m),
{
    let v: serde_json::Value = serde_json::from_slice(body).ok()?;
    Some(AuthRefreshResponse {
        uid: v.get("UID")?.as_str()?.to_string(),
        token_type: v.get("TokenType")?.as_str()?.to_string(),
        access_token: v.get("AccessToken")?.as_str()?.to_string(),
        refresh_token: v.get("RefreshToken")?.as_str()?.to_string(),
        scope: v.get("Scope")?.as_str()?.to_string(),
    })
}

impl FromResponse for JsonResponse<AuthRefreshResponse> {
    type Output = AuthRefreshResponse;

    open spec fn good(body: Seq<u8>) -> bool {
        auth_refresh_of(body) is Some
    }

    open spec fn output_matches(body: Seq<u8>, o: AuthRefreshResponse) -> bool {
        auth_refresh_of(body) matches Some(m) && auth_refresh_matches(o, m)
    }

    fn from_response_sync(body: Vec<u8>) -> (r: Result<AuthRefreshResponse, Error>) {
        match parse_auth_refresh(body.as_slice()) {
            Some(a) => Ok(a),
            None => Err(Error::EncodeOrDecode(String::from_str("unexpected response shape"))),
        }
    }
}

// ---------------------------------------------------------------------------
// Event and user payloads
// ---------------------------------------------------------------------------

/// The id of the newest event in the account's event stream.
#[derive(Debug)]
pub struct LatestEventResponse {
    pub event_id: EventId,
}

/// What the latest-event body `{EventID}` decodes to, if it decodes at all;
/// a function of the bytes alone.
pub uninterp spec fn latest_event_of(body: Seq<u8>) -> Option<Seq<char>>;

/// Relies on `serde_json::from_slice` and `serde_json::Value`'s accessors to
/// read the latest-event body; the result depends on the bytes alone and is
/// named by `latest_event_of`.
#[verifier::external_body]
fn parse_latest_event(body: &[u8]) -> (r: Option<EventId>)
    ensures
        r is Some <==> latest_event_of(body@) is Some,
        r matches Some(e) ==> latest_event_of(body@) matches Some(m) && e@ == m,
{
    let v: serde_json::Value = serde_json::from_slice(body).ok()?;
    Some(EventId(v.get("EventID")?.as_str()?.to_string()))
}

impl FromResponse for JsonResponse<LatestEventResponse> {
    type Output = LatestEventResponse;

    open spec fn good(body: Seq<u8>) -> bool {
        latest_event_of(body) is Some
    }

    open spec fn output_matches(body: Seq<u8>, o: LatestEventResponse) -> bool {
        latest_event_of(body) matches Some(m) && o.event_id@ == m
    }

    fn from_response_sync(body: Vec<u8>) -> (r: Result<LatestEventResponse, Error>) {
        match parse_latest_event(body.as_slice()) {
            Some(e) => Ok(LatestEventResponse { event_id: e }),
            None => Err(Error::EncodeOrDecode(String::from_str("unexpected response shape"))),
        }
    }
}

/// The payload wrapping the logged-in user's record.
#[derive(Debug)]
pub struct UserInfoResponse {
    pub user: User,
}

/// Mathematical model of a decoded user record.
pub ghost struct UserModel {
    pub id: Seq<char>,
    pub name: Option<Seq<char>>,
    pub email: Option<Seq<char>>,
}

/// What the user body `{User: {ID, Name, Email}}` decodes to, if it decodes
/// at all; a function of the bytes alone.
pub uninterp spec fn user_of(body: Seq<u8>) -> Option<UserModel>;

/// `o` holds exactly the decoded user record `m`.
pub open spec fn user_matches(o: User, m: UserModel) -> bool {
    &&& o.id.0@ == m.id
    &&& opt_str_matches(o.name, m.name)
    &&& opt_str_matches(o.email, m.email)
}

/// Relies on `serde_json::from_slice` and `serde_json::Value`'s accessors to
/// read the user body; the result depends on the bytes alone and is named by
/// `user_of`.
#[verifier::external_body]
fn parse_user(body: &[u8]) -> (r: Option<User>)
    ensures
        r is Some <==> user_of(body@) is Some,
        r matches Some(u) ==> user_of(body@) matches Some(m) && user_matches(u, m),
{
    let v: serde_json::Value = serde_json::from_slice(body).ok()?;
    let u = v.get("User")?;
    Some(User {
        id: UserId(u.get("ID")?.as_str()?.to_string()),
        name: u.get("Name").and_then(|x| x.as_str()).map(|s| s.to_string()),
        email: u.get("Email").and_then(|x| x.as_str()).map(|s| s.to_string()),
    })
}

impl FromResponse for JsonResponse<UserInfoResponse> {
    type Output = UserInfoResponse;

    open spec fn good(body: Seq<u8>) -> bool {
        user_of(body) is Some
    }

    open spec fn output_matches(body: Seq<u8>, o: UserInfoResponse) -> bool {
        user_of(body) matches Some(m) && user_matches(o.user, m)
    }

    fn from_response_sync(body: Vec<u8>) -> (r: Result<UserInfoResponse, Error>) {
        match parse_user(body.as_slice()) {
            Some(u) => Ok(UserInfoResponse { user: u }),
            None => Err(Error::EncodeOrDecode(String::from_str("unexpected response shape"))),
        }
    }
}

// ---------------------------------------------------------------------------
// Request bodies
// ---------------------------------------------------------------------------

/// JSON body of the challenge request: `{"Username": ...}`.
pub open spec fn auth_info_body_spec(username: Seq<char>) -> Seq<u8> {
    encode_utf8("{\"Username\":"@) + json_quoted(username) + encode_utf8("}"@)
}

fn encode_auth_info_body(username: &str) -> (r: Vec<u8>)
    ensures
        r@ == auth_info_body_spec(username@),
{
    let mut out: Vec<u8> = Vec::new();
    push_str_bytes(&mut out, "{\"Username\":");
    push_json_quoted(&mut out, username);
    push_str_bytes(&mut out, "}");
    proof {
        assert(out@ =~= auth_info_body_spec(username@));
    }
    out
}

/// JSON body of the proof submission:
/// `{"Username", "ClientEphemeral", "ClientProof", "SRPSession"}`.
pub open spec fn auth_body_spec(
    username: Seq<char>,
    client_ephemeral: Seq<char>,
    client_proof: Seq<char>,
    srp_session: Seq<char>,
) -> Seq<u8> {
    encode_utf8("{\"Username\":"@) + json_quoted(username) + encode_utf8(",\"ClientEphemeral\":"@)
        + json_quoted(client_ephemeral) + encode_utf8(",\"ClientProof\":"@) + json_quoted(
        client_proof,
    ) + encode_utf8(",\"SRPSession\":"@) + json_quoted(srp_session) + encode_utf8("}"@)
}

fn encode_auth_body(
    username: &str,
    client_ephemeral: &str,
    client_proof: &str,
    srp_session: &str,
) -> (r: Vec<u8>)
    ensures
        r@ == auth_body_spec(username@, client_ephemeral@, client_proof@, srp_session@),
{
    let mut out: Vec<u8> = Vec::new();
    push_str_bytes(&mut out, "{\"Username\":");
    push_json_quoted(&mut out, username);
    push_str_bytes(&mut out, ",\"ClientEphemeral\":");
    push_json_quoted(&mut out, client_ephemeral);
    push_str_bytes(&mut out, ",\"ClientProof\":");
    push_json_quoted(&mut out, client_proof);
    push_str_bytes(&mut out, ",\"SRPSession\":");
    push_json_quoted(&mut out, srp_session);
    push_str_bytes(&mut out, "}");
    proof {
        assert(out@ =~= auth_body_spec(username@, client_ephemeral@, client_proof@, srp_session@));
    }
    out
}

/// JSON body of a one-time-code submission: the code plus the empty
/// hardware-key placeholder the service expects.
pub open spec fn totp_body_spec(code: Seq<char>) -> Seq<u8> {
    encode_utf8("{\"TwoFactorCode\":"@) + json_quoted(code) + encode_utf8(
        ",\"FIDO2\":{\"AuthenticationOptions\":null,\"ClientData\":\"\",\"AuthenticationData\":\"\",\"Signature\":\"\",\"CredentialID\":[]}}"@,
    )
}

fn encode_totp_body(code: &str) -> (r: Vec<u8>)
    ensures
        r@ == totp_body_spec(code@),
{
    let mut out: Vec<u8> = Vec::new();
    push_str_bytes(&mut out, "{\"TwoFactorCode\":");
    push_json_quoted(&mut out, code);
    push_str_bytes(
        &mut out,
        ",\"FIDO2\":{\"AuthenticationOptions\":null,\"ClientData\":\"\",\"AuthenticationData\":\"\",\"Signature\":\"\",\"CredentialID\":[]}}",
    );
    proof {
        assert(out@ =~= totp_body_spec(code@));
    }
    out
}

/// JSON body of the refresh-token exchange.
pub open spec fn auth_refresh_body_spec(uid: Seq<char>, token: Seq<char>) -> Seq<u8> {
    encode_utf8("{\"UID\":"@) + json_quoted(uid) + encode_utf8(",\"RefreshToken\":"@)
        + json_quoted(token) + encode_utf8(
        ",\"GrantType\":\"refresh_token\",\"ResponseType\":\"token\",\"RedirectURI\":\"https://protonmail.ch/\"}"@,
    )
}

fn encode_auth_refresh_body(uid: &str, token: &str) -> (r: Vec<u8>)
    ensures
        r@ == auth_refresh_body_spec(uid@, token@),
{
    let mut out: Vec<u8> = Vec::new();
    push_str_bytes(&mut out, "{\"UID\":");
    push_json_quoted(&mut out, uid);
    push_str_bytes(&mut out, ",\"RefreshToken\":");
    push_json_quoted(&mut out, token);
    push_str_bytes(
        &mut out,
        ",\"GrantType\":\"refresh_token\",\"ResponseType\":\"token\",\"RedirectURI\":\"https://protonmail.ch/\"}",
    );
    proof {
        assert(out@ =~= auth_refresh_body_spec(uid@, token@));
    }
    out
}

// ---------------------------------------------------------------------------
// Serialized payload shapes kept for callers that build them directly
// ---------------------------------------------------------------------------

/// Wire shape of the refresh-token exchange body.
pub struct AuthRefresh {
    pub uid: String,
    pub refresh_token: String,
    pub grant_type: String,
    pub response_type: String,
    pub redirect_uri: String,
}

/// Wire shape of the one-time-code submission body.
pub struct TFAAuth {
    pub two_factor_code: String,
    pub fido2: FIDO2Auth,
}

/// The empty hardware-key placeholder sent with a one-time-code submission.
pub struct FIDO2Auth {
    pub authentication_options: Option<String>,
    pub client_data: String,
    pub authentication_data: String,
    pub signature: String,
    pub credential_id: Vec<i32>,
}

impl FIDO2Auth {
    /// The placeholder with every field empty.
    pub fn empty() -> (r: Self)
        ensures
            r.authentication_options is None,
            r.client_data@ == Seq::<char>::empty(),
            r.authentication_data@ == Seq::<char>::empty(),
            r.signature@ == Seq::<char>::empty(),
            r.credential_id@ == Seq::<i32>::empty(),
    {
        let r = FIDO2Auth {
            authentication_options: None,
            client_data: String::new(),
            authentication_data: String::new(),
            signature: String::new(),
            credential_id: Vec::new(),
        };
        proof {
            assert(r.credential_id@ =~= Seq::<i32>::empty());
        }
        r
    }
}

// ---------------------------------------------------------------------------
// The typed requests
// ---------------------------------------------------------------------------

/// Requests the login challenge for a user name.
pub struct AuthInfoRequest {
    pub username: String,
}

impl Request for AuthInfoRequest {
    type Response = JsonResponse<AuthInfoResponse>;

    open spec fn method_spec(&self) -> Method {
        Method::Post
    }

    open spec fn url_spec(&self) -> Seq<char> {
        "auth/v4/info"@
    }

    open spec fn finish_spec(&self, base: RequestModel) -> RequestModel {
        RequestModel {
            headers: headers_upsert(base.headers, "Content-Type"@, "application/json"@),
            body: Some(auth_info_body_spec(self.username@)),
            ..base
        }
    }

    fn build_request<F: RequestFactory>(&self, factory: &F) -> (r: RequestData) {
        let base = factory.new_request(Method::Post, "auth/v4/info");
        base.json_bytes(encode_auth_info_body(self.username.as_str()))
    }
}

/// Submits the computed proof together with the challenge's session id;
/// a caller-supplied human-verification token rides along as extra headers
/// on this request only.
pub struct AuthRequest {
    pub username: String,
    pub client_ephemeral: String,
    pub client_proof: String,
    pub srp_session: String,
    pub human_verification: Option<HumanVerificationLoginData>,
}

impl Request for AuthRequest {
    type Response = JsonResponse<AuthResponse>;

    open spec fn method_spec(&self) -> Method {
        Method::Post
    }

    open spec fn url_spec(&self) -> Seq<char> {
        "auth/v4"@
    }

    open spec fn finish_spec(&self, base: RequestModel) -> RequestModel {
        let with_body = RequestModel {
            headers: headers_upsert(base.headers, "Content-Type"@, "application/json"@),
            body: Some(
                auth_body_spec(
                    self.username@,
                    self.client_ephemeral@,
                    self.client_proof@,
                    self.srp_session@,
                ),
            ),
            ..base
        };
        match self.human_verification {
            Some(hv) => RequestModel {
                headers: headers_upsert(
                    headers_upsert(
                        with_body.headers,
                        "X-Pm-Human-Verification-Token"@,
                        hv.token@,
                    ),
                    "X-Pm-Human-Verification-Token-Type"@,
                    crate::domain::hv_type_name(hv.hv_type),
                ),
                ..with_body
            },
            None => with_body,
        }
    }

    fn build_request<F: RequestFactory>(&self, factory: &F) -> (r: RequestData) {
        let base = factory.new_request(Method::Post, "auth/v4");
        let with_body = base.json_bytes(
            encode_auth_body(
                self.username.as_str(),
                self.client_ephemeral.as_str(),
                self.client_proof.as_str(),
                self.srp_session.as_str(),
            ),
        );
        match &self.human_verification {
            Some(hv) => with_body.header(
                String::from_str("X-Pm-Human-Verification-Token"),
                hv.token.clone(),
            ).header(
                String::from_str("X-Pm-Human-Verification-Token-Type"),
                String::from_str(hv.hv_type.as_str()),
            ),
            None => with_body,
        }
    }
}

/// Submits a one-time second-factor code.
pub struct TOTPRequest {
    pub code: String,
}

impl TOTPRequest {
    pub fn new(code: &str) -> (r: Self)
        ensures
            r.code@ == code@,
    {
        Self { code: String::from_str(code) }
    }
}

impl Request for TOTPRequest {
    type Response = NoResponse;

    open spec fn method_spec(&self) -> Method {
        Method::Post
    }

    open spec fn url_spec(&self) -> Seq<char> {
        "auth/v4/2fa"@
    }

    open spec fn finish_spec(&self, base: RequestModel) -> RequestModel {
        RequestModel {
            headers: headers_upsert(base.headers, "Content-Type"@, "application/json"@),
            body: Some(totp_body_spec(self.code@)),
            ..base
        }
    }

    fn build_request<F: RequestFactory>(&self, factory: &F) -> (r: RequestData) {
        let base = factory.new_request(Method::Post, "auth/v4/2fa");
        base.json_bytes(encode_totp_body(self.code.as_str()))
    }
}

/// Exchanges a refresh token for fresh credentials.
pub struct AuthRefreshRequest {
    pub uid: UserUid,
    pub token: String,
}

impl AuthRefreshRequest {
    pub fn new(uid: &UserUid, token: &str) -> (r: Self)
        ensures
            r.uid@ == uid@,
            r.token@ == token@,
    {
        Self { uid: UserUid(uid.0.clone()), token: String::from_str(token) }
    }
}

impl Request for AuthRefreshRequest {
    type Response = JsonResponse<AuthRefreshResponse>;

    open spec fn method_spec(&self) -> Method {
        Method::Post
    }

    open spec fn url_spec(&self) -> Seq<char> {
        "auth/v4/refresh"@
    }

    open spec fn finish_spec(&self, base: RequestModel) -> RequestModel {
        RequestModel {
            headers: headers_upsert(base.headers, "Content-Type"@, "application/json"@),
            body: Some(auth_refresh_body_spec(self.uid@, self.token@)),
            ..base
        }
    }

    fn build_request<F: RequestFactory>(&self, factory: &F) -> (r: RequestData) {
        let base = factory.new_request(Method::Post, "auth/v4/refresh");
        base.json_bytes(encode_auth_refresh_body(self.uid.0.as_str(), self.token.as_str()))
    }
}

/// Ends the session on the server; the body is empty.
pub struct LogoutRequest {}

impl Request for LogoutRequest {
    type Response = NoResponse;

    open spec fn method_spec(&self) -> Method {
        Method::Delete
    }

    open spec fn url_spec(&self) -> Seq<char> {
        "auth/v4"@
    }

    open spec fn finish_spec(&self, base: RequestModel) -> RequestModel {
        base
    }

    fn build_request<F: RequestFactory>(&self, factory: &F) -> (r: RequestData) {
        factory.new_request(Method::Delete, "auth/v4")
    }
}

/// Fetches a captcha page for a human-verification token.
pub struct CaptchaRequest {
    pub token: String,
    pub force_web: bool,
}

impl CaptchaRequest {
    pub fn new(token: &str, force_web: bool) -> (r: Self)
        ensures
            r.token@ == token@,
            r.force_web == force_web,
    {
        Self { token: String::from_str(token), force_web }
    }
}

impl Request for CaptchaRequest {
    type Response = StringResponse;

    open spec fn method_spec(&self) -> Method {
        Method::Get
    }

    open spec fn url_spec(&self) -> Seq<char> {
        if self.force_web {
            "core/v4/captcha?ForceWebMessaging=1&Token="@ + self.token@
        } else {
            "core/v4/captcha?Token="@ + self.token@
        }
    }

    open spec fn finish_spec(&self, base: RequestModel) -> RequestModel {
        base
    }

    fn build_request<F: RequestFactory>(&self, factory: &F) -> (r: RequestData) {
        let url = if self.force_web {
            String::from_str("core/v4/captcha?ForceWebMessaging=1&Token=").concat(
                self.token.as_str(),
            )
        } else {
            String::from_str("core/v4/captcha?Token=").concat(self.token.as_str())
        };
        factory.new_request(Method::Get, url.as_str())
    }
}

/// Fetches the id of the newest event in the account's stream.
pub struct GetLatestEventRequest {}

impl Request for GetLatestEventRequest {
    type Response = JsonResponse<LatestEventResponse>;

    open spec fn method_spec(&self) -> Method {
        Method::Get
    }

    open spec fn url_spec(&self) -> Seq<char> {
        "core/v4/events/latest"@
    }

    open spec fn finish_spec(&self, base: RequestModel) -> RequestModel {
        base
    }

    fn build_request<F: RequestFactory>(&self, factory: &F) -> (r: RequestData) {
        factory.new_request(Method::Get, "core/v4/events/latest")
    }
}

/// Fetches one event by id. The event payload is handed back as checked raw
/// bytes; its record shape is the caller's to decode.
pub struct GetEventRequest {
    pub event_id: EventId,
}

impl GetEventRequest {
    pub fn new(id: &EventId) -> (r: Self)
        ensures
            r.event_id@ == id@,
    {
        Self { event_id: EventId(id.0.clone()) }
    }
}

impl Request for GetEventRequest {
    type Response = RawResponse;

    open spec fn method_spec(&self) -> Method {
        Method::Get
    }

    open spec fn url_spec(&self) -> Seq<char> {
        "core/v4/events/"@ + self.event_id@
    }

    open spec fn finish_spec(&self, base: RequestModel) -> RequestModel {
        base
    }

    fn build_request<F: RequestFactory>(&self, factory: &F) -> (r: RequestData) {
        let url = String::from_str("core/v4/events/").concat(self.event_id.0.as_str());
        factory.new_request(Method::Get, url.as_str())
    }
}

/// Asks the service whether it is reachable.
pub struct Ping {}

impl Request for Ping {
    type Response = NoResponse;

    open spec fn method_spec(&self) -> Method {
        Method::Get
    }

    open spec fn url_spec(&self) -> Seq<char> {
        "tests/ping"@
    }

    open spec fn finish_spec(&self, base: RequestModel) -> RequestModel {
        base
    }

    fn build_request<F: RequestFactory>(&self, factory: &F) -> (r: RequestData) {
        factory.new_request(Method::Get, "tests/ping")
    }
}

/// Fetches the logged-in user's record.
pub struct UserInfoRequest {}

impl Request for UserInfoRequest {
    type Response = JsonResponse<UserInfoResponse>;

    open spec fn method_spec(&self) -> Method {
        Method::Get
    }

    open spec fn url_spec(&self) -> Seq<char> {
        "core/v4/users"@
    }

    open spec fn finish_spec(&self, base: RequestModel) -> RequestModel {
        base
    }

    fn build_request<F: RequestFactory>(&self, factory: &F) -> (r: RequestData) {
        factory.new_request(Method::Get, "core/v4/users")
    }
}

} // verus!
