//! The session authentication state machine: the SRP login handshake with
//! server-proof verification and second-factor branching, token refresh, and
//! the authenticated session's calls.

use vstd::prelude::*;
use vstd::string::StringExecFns;

use crate::domain::{
    HumanVerification, HumanVerificationLoginData, EventId, SecretString, TwoFactorAuth, User,
    UserUid,
};
use crate::http::{execute_sync, ClientSync, Error, FromResponse, Request};
use crate::repeater::{refreshed_from_response, RequestRepeater};
use crate::requests::{
    auth_refresh_of, hv_required_code, latest_event_of, user_of, user_matches, APIError,
    AuthInfoRequest, AuthRefreshRequest, AuthRefreshResponse, AuthRequest, AuthResponse,
    GetEventRequest, GetLatestEventRequest, JsonResponse, LogoutRequest, TFAStatus, TOTPRequest,
    UserInfoRequest, UserInfoResponse,
};
use crate::sequence::Sequence;

verus! {

/// Why a login attempt failed.
#[derive(Debug)]
pub enum LoginError {
    /// The transport, the service, or response decoding failed.
    Request(Error),
    /// The server's proof did not match the locally computed one: a
    /// potential protocol or security violation, never retried.
    ServerProof(String),
    /// The account demands a second-factor method this library does not
    /// implement.
    Unsupported2FA(TwoFactorAuth),
    /// The service demands human verification; carries the challenge
    /// descriptor it returned.
    HumanVerificationRequired(HumanVerification),
    /// The proof-generation collaborator failed.
    SRPProof(String),
}

/// The proof material the external SRP collaborator computes for one login
/// attempt; discarded after verification.
#[derive(Debug)]
pub struct SrpProof {
    pub client_ephemeral: String,
    pub client_proof: String,
    pub expected_server_proof: String,
}

/// The external zero-knowledge-proof collaborator: computes the client's
/// proof material from the server's challenge. Implemented outside this
/// library; nothing is promised about the values it returns.
pub trait ProofGenerator {
    fn generate(
        &self,
        username: &str,
        password: &str,
        version: i64,
        salt: &str,
        modulus: &str,
        server_ephemeral: &str,
    ) -> Result<SrpProof, String>;
}

impl<G: ProofGenerator> ProofGenerator for &G {
    fn generate(
        &self,
        username: &str,
        password: &str,
        version: i64,
        salt: &str,
        modulus: &str,
        server_ephemeral: &str,
    ) -> Result<SrpProof, String> {
        (*self).generate(username, password, version, salt, modulus, server_ephemeral)
    }
}

/// A session's credential triple. The three fields are only ever set
/// together, by a successful login or a successful refresh.
pub struct UserAuth {
    pub uid: UserUid,
    pub access_token: SecretString,
    pub refresh_token: SecretString,
}

impl UserAuth {
    /// The credentials a successful proof submission returned.
    pub fn from_auth_response(auth: &AuthResponse) -> (r: Self)
        ensures
            r.uid@ == auth.uid@,
            r.access_token@ == auth.access_token@,
            r.refresh_token@ == auth.refresh_token@,
    {
        Self {
            uid: UserUid(auth.uid.clone()),
            access_token: SecretString::new(auth.access_token.clone()),
            refresh_token: SecretString::new(auth.refresh_token.clone()),
        }
    }

    /// The credentials a refresh-token exchange returned.
    pub fn from_auth_refresh_response(auth: &AuthRefreshResponse) -> (r: Self)
        ensures
            r.uid@ == auth.uid@,
            r.access_token@ == auth.access_token@,
            r.refresh_token@ == auth.refresh_token@,
    {
        Self {
            uid: UserUid(auth.uid.clone()),
            access_token: SecretString::new(auth.access_token.clone()),
            refresh_token: SecretString::new(auth.refresh_token.clone()),
        }
    }
}

/// Data which can be used to save a session and restore it later.
pub struct SessionRefreshData {
    pub user_uid: UserUid,
    pub token: SecretString,
}

/// Authenticated session: owns the credential triple and executes requests
/// decorated with it, refreshing on expiry.
pub struct Session {
    pub repeater: RequestRepeater,
}

/// A session still awaiting a second-factor code.
pub struct TotpSession(pub Session);

/// The login entry point's sole return shape.
pub enum SessionType {
    Authenticated(Session),
    AwaitingTotp(TotpSession),
}

/// The session's credential triple as mathematical values:
/// (uid, access token, refresh token).
pub open spec fn session_creds(s: Session) -> (Seq<char>, Seq<char>, Seq<char>) {
    (
        s.repeater.user_auth.uid@,
        s.repeater.user_auth.access_token@,
        s.repeater.user_auth.refresh_token@,
    )
}

/// The session holds exactly the credentials of this authentication payload.
pub open spec fn session_from_auth(s: Session, a: AuthResponse) -> bool {
    &&& s.repeater.user_auth.uid@ == a.uid@
    &&& s.repeater.user_auth.access_token@ == a.access_token@
    &&& s.repeater.user_auth.refresh_token@ == a.refresh_token@
}

/// The client's verdict on the server's authentication payload, checked
/// before any credential in it is trusted: a proof mismatch is terminal and
/// constructs no session; with the proof verified, the second-factor flag
/// decides between a full session, a pending second factor, and the
/// unsupported hardware-key-only method.
pub fn validate_server_proof(proof: &SrpProof, auth_response: AuthResponse) -> (r: Result<
    SessionType,
    LoginError,
>)
    ensures
        proof.expected_server_proof@ != auth_response.server_proof@ ==> (r matches Err(e)
            && e is ServerProof),
        proof.expected_server_proof@ == auth_response.server_proof@ ==> match auth_response.tfa.enabled {
            TFAStatus::Disabled => r matches Ok(st) && st matches SessionType::Authenticated(s)
                && session_from_auth(s, auth_response),
            TFAStatus::Totp => r matches Ok(st) && st matches SessionType::AwaitingTotp(t)
                && session_from_auth(t.0, auth_response),
            TFAStatus::TotpOrFIDO2 => r matches Ok(st) && st matches SessionType::AwaitingTotp(t)
                && session_from_auth(t.0, auth_response),
            TFAStatus::FIDO2 => r matches Err(e) && e matches LoginError::Unsupported2FA(m)
                && m is FIDO2,
        },
{
    let proofs_match = proof.expected_server_proof == auth_response.server_proof;
    if !proofs_match {
        return Err(LoginError::ServerProof(String::from_str("Server Proof does not match")));
    }
    let tfa_enabled = auth_response.tfa.enabled;
    let user = UserAuth::from_auth_response(&auth_response);
    let session = Session::new(user);
    match tfa_enabled {
        TFAStatus::Disabled => Ok(SessionType::Authenticated(session)),
        TFAStatus::Totp => Ok(SessionType::AwaitingTotp(TotpSession(session))),
        TFAStatus::FIDO2 => Err(LoginError::Unsupported2FA(TwoFactorAuth::FIDO2)),
        TFAStatus::TotpOrFIDO2 => Ok(SessionType::AwaitingTotp(TotpSession(session))),
    }
}

/// How a login error is re-mapped when the service demanded human
/// verification: the API error carrying that demand becomes
/// [`LoginError::HumanVerificationRequired`] with the server's challenge
/// descriptor; everything else is left alone.
pub open spec fn hv_remapped(e: LoginError) -> LoginError {
    match e {
        LoginError::Request(Error::API(a)) => if a.api_code == hv_required_code() && a.hv is Some {
            LoginError::HumanVerificationRequired(a.hv.unwrap())
        } else {
            e
        },
        _ => e,
    }
}

/// Re-maps the service's human-verification demand to its own error kind.
pub fn map_human_verification_err(e: LoginError) -> (r: LoginError)
    ensures
        r == hv_remapped(e),
{
    match e {
        LoginError::Request(Error::API(a)) => {
            if a.api_code == 9001 {
                match a.hv {
                    Some(h) => LoginError::HumanVerificationRequired(h),
                    None => LoginError::Request(
                        Error::API(
                            APIError {
                                http_code: a.http_code,
                                api_code: a.api_code,
                                message: a.message,
                                hv: None,
                            },
                        ),
                    ),
                }
            } else {
                LoginError::Request(Error::API(a))
            }
        },
        other => other,
    }
}

/// What any success of the login flow must have passed through: a decoded
/// authentication payload whose server proof equals the locally computed
/// expectation, with the session's credentials taken from that payload and
/// the session shape decided by the payload's second-factor flag.
pub open spec fn login_outcome_ok(
    p: SrpProof,
    m: Option<crate::requests::AuthModel>,
    o: SessionType,
) -> bool {
    &&& m matches Some(mm)
    &&& mm.server_proof == p.expected_server_proof@
    &&& match o {
        SessionType::Authenticated(s) => mm.tfa_enabled == 0 && session_creds(s) == (
            mm.uid,
            mm.access_token,
            mm.refresh_token,
        ),
        SessionType::AwaitingTotp(t) => (mm.tfa_enabled == 1 || mm.tfa_enabled == 3)
            && session_creds(t.0) == (mm.uid, mm.access_token, mm.refresh_token),
    }
}

/// The whole login handshake as one sequence: request the challenge, hand
/// it to the proof collaborator, submit the proof, verify the server's
/// proof, and branch on the second-factor flag.
pub struct LoginSequence<G> {
    pub username: String,
    pub password: SecretString,
    pub human_verification: Option<HumanVerificationLoginData>,
    pub generator: G,
}

impl<G: ProofGenerator> Sequence for LoginSequence<G> {
    type Output = SessionType;

    type Error = LoginError;

    open spec fn wf(self) -> bool {
        true
    }

    open spec fn valid_output(self, o: SessionType) -> bool {
        exists|p: SrpProof, body: Seq<u8>|
            #[trigger] login_outcome_ok(p, crate::requests::auth_response_of(body), o)
    }

    fn do_sync<C: ClientSync>(self, client: &C) -> (r: Result<SessionType, LoginError>) {
        let LoginSequence { username, password, human_verification, generator } = self;
        let info_req = AuthInfoRequest { username: username.clone() };
        let info = match info_req.do_sync(client) {
            Ok(i) => i,
            Err(e) => {
                return Err(LoginError::Request(e));
            },
        };
        let proof = match generator.generate(
            username.as_str(),
            password.expose_secret().as_str(),
            info.version,
            info.salt.as_str(),
            info.modulus.as_str(),
            info.server_ephemeral.as_str(),
        ) {
            Ok(p) => p,
            Err(msg) => {
                return Err(LoginError::SRPProof(msg));
            },
        };
        let auth_req = AuthRequest {
            username,
            client_ephemeral: proof.client_ephemeral.clone(),
            client_proof: proof.client_proof.clone(),
            srp_session: info.srp_session,
            human_verification,
        };
        let auth = match auth_req.do_sync(client) {
            Ok(a) => a,
            Err(e) => {
                return Err(map_human_verification_err(LoginError::Request(e)));
            },
        };
        let ghost auth_snapshot = auth;
        let r = validate_server_proof(&proof, auth);
        match r {
            Ok(st) => {
                proof {
                    let body = choose|body: Seq<u8>|
                        #[trigger] <JsonResponse<AuthResponse> as FromResponse>::good(body)
                            && <JsonResponse<AuthResponse> as FromResponse>::output_matches(
                            body,
                            auth_snapshot,
                        );
                    assert(login_outcome_ok(
                        proof,
                        crate::requests::auth_response_of(body),
                        st,
                    ));
                }
                Ok(st)
            },
            Err(e) => Err(e),
        }
    }
}

/// Exchanges a saved refresh token for a fresh session, without SRP.
pub struct RefreshSequence {
    pub req: AuthRefreshRequest,
}

impl Sequence for RefreshSequence {
    type Output = Session;

    type Error = Error;

    open spec fn wf(self) -> bool {
        true
    }

    open spec fn valid_output(self, o: Session) -> bool {
        exists|body: Seq<u8>|
            #[trigger] auth_refresh_of(body) matches Some(m) && session_creds(o) == (
                m.uid,
                m.access_token,
                m.refresh_token,
            )
    }

    fn do_sync<C: ClientSync>(self, client: &C) -> (r: Result<Session, Error>) {
        let resp = match self.req.do_sync(client) {
            Ok(resp) => resp,
            Err(e) => {
                return Err(e);
            },
        };
        let s = Session::new(UserAuth::from_auth_refresh_response(&resp));
        proof {
            let body = choose|body: Seq<u8>|
                #[trigger] <JsonResponse<AuthRefreshResponse> as FromResponse>::good(body)
                    && <JsonResponse<AuthRefreshResponse> as FromResponse>::output_matches(
                    body,
                    resp,
                );
            assert(auth_refresh_of(body) matches Some(mm) && session_creds(s) == (
                mm.uid,
                mm.access_token,
                mm.refresh_token,
            ));
        }
        Ok(s)
    }
}

impl Session {
    /// Wraps freshly won credentials.
    pub(crate) fn new(user: UserAuth) -> (r: Self)
        ensures
            r.repeater.user_auth == user,
    {
        Session { repeater: RequestRepeater::new(user) }
    }

    /// The login handshake for a user name and password, driven by the
    /// given proof collaborator. A caller-supplied human-verification token
    /// rides along on the proof submission only.
    pub fn login<G: ProofGenerator>(
        username: &str,
        password: &SecretString,
        human_verification: Option<HumanVerificationLoginData>,
        generator: G,
    ) -> (r: LoginSequence<G>)
        ensures
            r.username@ == username@,
            r.password@ == password@,
            r.human_verification == human_verification,
            r.generator == generator,
    {
        LoginSequence {
            username: String::from_str(username),
            password: SecretString::new(password.expose_secret().clone()),
            human_verification,
            generator,
        }
    }

    /// A refresh-token exchange that yields a fresh session; does not go
    /// through SRP.
    pub fn refresh(user_uid: &UserUid, token: &str) -> (r: RefreshSequence)
        ensures
            r.req.uid@ == user_uid@,
            r.req.token@ == token@,
    {
        RefreshSequence { req: AuthRefreshRequest::new(user_uid, token) }
    }

    /// Executes any authenticated request through the retry wrapper.
    pub fn execute<C: ClientSync, R: Request>(&mut self, client: &C, request: &R) -> (r: Result<
        <R::Response as FromResponse>::Output,
        Error,
    >)
        ensures
            r matches Ok(o) ==> exists|body: Seq<u8>|
                #[trigger] <R::Response as FromResponse>::good(body)
                    && <R::Response as FromResponse>::output_matches(body, o),
            final(self).repeater.user_auth == old(self).repeater.user_auth
                || refreshed_from_response(final(self).repeater.user_auth),
    {
        self.repeater.execute(client, request)
    }

    /// Submits a one-time code for this session.
    pub fn submit_totp<C: ClientSync>(&mut self, client: &C, code: &str) -> (r: Result<(), Error>)
        ensures
            final(self).repeater.user_auth == old(self).repeater.user_auth
                || refreshed_from_response(final(self).repeater.user_auth),
    {
        let req = TOTPRequest::new(code);
        self.repeater.execute(client, &req)
    }

    /// Fetches the logged-in user's record.
    pub fn get_user<C: ClientSync>(&mut self, client: &C) -> (r: Result<User, Error>)
        ensures
            r matches Ok(u) ==> exists|body: Seq<u8>|
                #[trigger] user_of(body) matches Some(m) && user_matches(u, m),
            final(self).repeater.user_auth == old(self).repeater.user_auth
                || refreshed_from_response(final(self).repeater.user_auth),
    {
        let req = UserInfoRequest {  };
        match self.repeater.execute(client, &req) {
            Ok(resp) => {
                proof {
                    let body = choose|body: Seq<u8>|
                        #[trigger] <JsonResponse<UserInfoResponse> as FromResponse>::good(body)
                            && <JsonResponse<UserInfoResponse> as FromResponse>::output_matches(
                            body,
                            resp,
                        );
                    assert(user_of(body) matches Some(m) && user_matches(resp.user, m));
                }
                Ok(resp.user)
            },
            Err(e) => Err(e),
        }
    }

    /// Ends the session on the server, best-effort: a failure leaves the
    /// in-memory session intact for retry.
    pub fn logout<C: ClientSync>(&mut self, client: &C) -> (r: Result<(), Error>)
        ensures
            final(self).repeater.user_auth == old(self).repeater.user_auth
                || refreshed_from_response(final(self).repeater.user_auth),
    {
        let req = LogoutRequest {  };
        self.repeater.execute(client, &req)
    }

    /// Fetches the id of the newest event in the account's stream.
    pub fn get_latest_event<C: ClientSync>(&mut self, client: &C) -> (r: Result<EventId, Error>)
        ensures
            r matches Ok(id) ==> exists|body: Seq<u8>|
                #[trigger] latest_event_of(body) matches Some(m) && id@ == m,
            final(self).repeater.user_auth == old(self).repeater.user_auth
                || refreshed_from_response(final(self).repeater.user_auth),
    {
        let req = GetLatestEventRequest {  };
        match self.repeater.execute(client, &req) {
            Ok(resp) => Ok(resp.event_id),
            Err(e) => Err(e),
        }
    }

    /// Fetches one event by id, handing the checked payload bytes back for
    /// the caller to decode.
    pub fn get_event<C: ClientSync>(&mut self, client: &C, id: &EventId) -> (r: Result<
        Vec<u8>,
        Error,
    >)
        ensures
            final(self).repeater.user_auth == old(self).repeater.user_auth
                || refreshed_from_response(final(self).repeater.user_auth),
    {
        let req = GetEventRequest::new(id);
        self.repeater.execute(client, &req)
    }

    /// The data needed to restore this session later.
    pub fn get_refresh_data(&self) -> (r: SessionRefreshData)
        ensures
            r.user_uid@ == self.repeater.user_auth.uid@,
            r.token@ == self.repeater.user_auth.refresh_token@,
    {
        self.repeater.get_refresh_data()
    }
}

impl TotpSession {
    /// Submits a one-time code. Success lifts the wrapper and exposes the
    /// inner session unconditionally (the credentials were already verified
    /// during proof submission); failure hands the very same pending
    /// wrapper back so another code can be tried.
    pub fn submit_totp<C: ClientSync>(self, client: &C, code: &str) -> (r: Result<
        Session,
        (TotpSession, Error),
    >)
        ensures
            r matches Ok(s) ==> s == self.0,
            r matches Err(p) ==> p.0 == self,
    {
        let req = TOTPRequest::new(code);
        match execute_sync(&req, client, &self.0.repeater) {
            Ok(_) => Ok(self.0),
            Err(e) => Err((self, e)),
        }
    }

    /// Ends the pending session on the server, best-effort.
    pub fn logout<C: ClientSync>(&mut self, client: &C) -> (r: Result<(), Error>)
        ensures
            final(self).0.repeater.user_auth == old(self).0.repeater.user_auth
                || refreshed_from_response(final(self).0.repeater.user_auth),
    {
        self.0.logout(client)
    }
}

} // verus!
