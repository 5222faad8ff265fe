//! Tests of the login state machine, second-factor handling, token refresh
//! and the sequence combinators, against a scripted transport.

use std::cell::RefCell;

use proton_api::domain::{
    HumanVerificationLoginData, HumanVerificationType, SecretString, TwoFactorAuth, UserUid,
};
use proton_api::http::{ClientSync, Error, HttpResponse, Method, RequestData};
use proton_api::requests::{GetLatestEventRequest, LatestEventResponse};
use proton_api::sequence::{Sequence, StateProducerSequence};
use proton_api::session::{
    LoginError, ProofGenerator, Session, SessionType, SrpProof,
};

struct Step {
    method: Method,
    url: &'static str,
    expect_headers: Vec<(&'static str, &'static str)>,
    expect_body: Option<&'static str>,
    status: u16,
    body: &'static str,
}

impl Step {
    fn new(method: Method, url: &'static str, status: u16, body: &'static str) -> Self {
        Step { method, url, expect_headers: vec![], expect_body: None, status, body }
    }

    fn header(mut self, k: &'static str, v: &'static str) -> Self {
        self.expect_headers.push((k, v));
        self
    }

    fn body_is(mut self, b: &'static str) -> Self {
        self.expect_body = Some(b);
        self
    }
}

struct ScriptedClient {
    steps: RefCell<Vec<Step>>,
}

impl ScriptedClient {
    fn new(steps: Vec<Step>) -> Self {
        ScriptedClient { steps: RefCell::new(steps) }
    }

    fn done(&self) {
        assert!(self.steps.borrow().is_empty(), "not every expected request was made");
    }
}

impl ClientSync for ScriptedClient {
    fn execute_raw(&self, request: &RequestData) -> Result<HttpResponse, Error> {
        let mut steps = self.steps.borrow_mut();
        assert!(!steps.is_empty(), "unexpected request to {}", request.url());
        let step = steps.remove(0);
        assert_eq!(request.method(), step.method, "method for {}", step.url);
        assert_eq!(request.url().as_str(), step.url);
        for (k, v) in &step.expect_headers {
            let found = request
                .headers()
                .iter()
                .find(|(hk, _)| hk == k)
                .map(|(_, hv)| hv.as_str());
            assert_eq!(found, Some(*v), "header {} for {}", k, step.url);
        }
        if let Some(expected) = step.expect_body {
            let body = request.body().as_ref().expect("request should carry a body");
            assert_eq!(String::from_utf8(body.clone()).unwrap(), expected, "body for {}", step.url);
        }
        Ok(HttpResponse { status: step.status, body: step.body.as_bytes().to_vec() })
    }
}

/// A deterministic stand-in for the SRP collaborator.
struct StubGenerator {
    server_proof: &'static str,
}

impl ProofGenerator for StubGenerator {
    fn generate(
        &self,
        username: &str,
        password: &str,
        version: i64,
        salt: &str,
        modulus: &str,
        server_ephemeral: &str,
    ) -> Result<SrpProof, String> {
        assert_eq!(username, "foo@bar.com");
        assert_eq!(password, "12345");
        assert_eq!(version, 4);
        assert_eq!(salt, "salt-1");
        assert_eq!(modulus, "mod-1");
        assert_eq!(server_ephemeral, "SE-1");
        Ok(SrpProof {
            client_ephemeral: "CE".to_string(),
            client_proof: "CP".to_string(),
            expected_server_proof: self.server_proof.to_string(),
        })
    }
}

struct FailingGenerator;

impl ProofGenerator for FailingGenerator {
    fn generate(
        &self,
        _username: &str,
        _password: &str,
        _version: i64,
        _salt: &str,
        _modulus: &str,
        _server_ephemeral: &str,
    ) -> Result<SrpProof, String> {
        Err("boom".to_string())
    }
}

const CHALLENGE: &str = r#"{"Version":4,"Modulus":"mod-1","ServerEphemeral":"SE-1","Salt":"salt-1","SRPSession":"srp-sess"}"#;

fn auth_response(server_proof: &str, tfa: u8) -> String {
    format!(
        r#"{{"UserID":"user-1","UID":"uid-1","TokenType":"Bearer","AccessToken":"acc-1","RefreshToken":"ref-1","ServerProof":"{}","Scope":"full","2FA":{{"Enabled":{}}},"PasswordMode":1}}"#,
        server_proof, tfa
    )
}

#[test]
fn session_login() {
    let client = ScriptedClient::new(vec![
        Step::new(Method::Post, "auth/v4/info", 200, CHALLENGE)
            .body_is(r#"{"Username":"foo@bar.com"}"#),
        Step::new(
            Method::Post,
            "auth/v4",
            200,
            r#"{"UserID":"user-1","UID":"uid-1","TokenType":"Bearer","AccessToken":"acc-1","RefreshToken":"ref-1","ServerProof":"SP-GOOD","Scope":"full","2FA":{"Enabled":0},"PasswordMode":1}"#,
        ),
        Step::new(Method::Get, "core/v4/users", 200, r#"{"User":{"ID":"user-1","Name":"foo"}}"#)
            .header("X-Pm-Uid", "uid-1")
            .header("authorization", "Bearer acc-1"),
        Step::new(Method::Delete, "auth/v4", 200, ""),
    ]);
    let user_id = "user-1".to_string();

    let auth_result = Session::login(
        "foo@bar.com",
        &SecretString::new("12345".to_string()),
        None,
        StubGenerator { server_proof: "SP-GOOD" },
    )
    .do_sync(&client);
    let auth_result = auth_result.map_err(|_| "Failed to login").expect("Failed to login");

    assert!(matches!(auth_result, SessionType::Authenticated(_)));

    if let SessionType::Authenticated(mut s) = auth_result {
        let user = s.get_user(&client).expect("Failed to get user");
        assert_eq!(user.id.as_ref(), &user_id);

        s.logout(&client).expect("Failed to logout");
    }
    client.done();
}

#[test]
fn session_login_invalid_user() {
    let client = ScriptedClient::new(vec![Step::new(
        Method::Post,
        "auth/v4/info",
        422,
        r#"{"Code":2028,"Error":"Invalid username"}"#,
    )]);
    let auth_result = Session::login(
        "bar",
        &SecretString::new("12345".to_string()),
        None,
        StubGenerator { server_proof: "SP-GOOD" },
    )
    .do_sync(&client);

    assert!(matches!(auth_result, Err(LoginError::Request(Error::API(_)))));
    client.done();
}

fn run_login_expecting_mismatch() -> Result<SessionType, LoginError> {
    let client = ScriptedClient::new(vec![
        Step::new(Method::Post, "auth/v4/info", 200, CHALLENGE),
        Step::new(
            Method::Post,
            "auth/v4",
            200,
            r#"{"UserID":"user-1","UID":"uid-1","TokenType":"Bearer","AccessToken":"acc-1","RefreshToken":"ref-1","ServerProof":"SP-EVIL","Scope":"full","2FA":{"Enabled":0},"PasswordMode":1}"#,
        ),
    ]);
    let r = Session::login(
        "foo@bar.com",
        &SecretString::new("12345".to_string()),
        None,
        StubGenerator { server_proof: "SP-GOOD" },
    )
    .do_sync(&client);
    client.done();
    r
}

#[test]
fn mismatched_server_proof_constructs_no_session_and_is_idempotent() {
    let first = run_login_expecting_mismatch();
    assert!(matches!(first, Err(LoginError::ServerProof(_))));
    let second = run_login_expecting_mismatch();
    assert!(matches!(second, Err(LoginError::ServerProof(_))));
}

fn login_with_tfa(tfa: u8) -> Result<SessionType, LoginError> {
    let auth = match tfa {
        0 => auth_response("SP-GOOD", 0),
        1 => auth_response("SP-GOOD", 1),
        2 => auth_response("SP-GOOD", 2),
        _ => auth_response("SP-GOOD", 3),
    };
    let auth: &'static str = Box::leak(auth.into_boxed_str());
    let client = ScriptedClient::new(vec![
        Step::new(Method::Post, "auth/v4/info", 200, CHALLENGE),
        Step::new(Method::Post, "auth/v4", 200, auth),
    ]);
    let r = Session::login(
        "foo@bar.com",
        &SecretString::new("12345".to_string()),
        None,
        StubGenerator { server_proof: "SP-GOOD" },
    )
    .do_sync(&client);
    client.done();
    r
}

#[test]
fn second_factor_flag_decides_the_session_shape() {
    assert!(matches!(login_with_tfa(0), Ok(SessionType::Authenticated(_))));
    assert!(matches!(login_with_tfa(1), Ok(SessionType::AwaitingTotp(_))));
    assert!(matches!(login_with_tfa(3), Ok(SessionType::AwaitingTotp(_))));
    match login_with_tfa(2) {
        Err(LoginError::Unsupported2FA(m)) => assert_eq!(m, TwoFactorAuth::FIDO2),
        _ => panic!("hardware-key-only accounts must be rejected"),
    }
}

#[test]
fn failed_totp_submissions_keep_the_same_pending_wrapper() {
    let totp_body = r#"{"TwoFactorCode":"000000","FIDO2":{"AuthenticationOptions":null,"ClientData":"","AuthenticationData":"","Signature":"","CredentialID":[]}}"#;
    let client = ScriptedClient::new(vec![
        Step::new(Method::Post, "auth/v4/info", 200, CHALLENGE),
        Step::new(Method::Post, "auth/v4", 200, r#"{"UserID":"user-1","UID":"uid-1","TokenType":"Bearer","AccessToken":"acc-1","RefreshToken":"ref-1","ServerProof":"SP-GOOD","Scope":"full","2FA":{"Enabled":1},"PasswordMode":1}"#),
        Step::new(Method::Post, "auth/v4/2fa", 422, r#"{"Code":8022,"Error":"Invalid code"}"#)
            .header("X-Pm-Uid", "uid-1")
            .header("authorization", "Bearer acc-1")
            .body_is(totp_body),
        Step::new(Method::Post, "auth/v4/2fa", 422, r#"{"Code":8022,"Error":"Invalid code"}"#),
        Step::new(Method::Post, "auth/v4/2fa", 422, r#"{"Code":8022,"Error":"Invalid code"}"#),
        Step::new(Method::Post, "auth/v4/2fa", 200, ""),
    ]);
    let auth_result = Session::login(
        "foo@bar.com",
        &SecretString::new("12345".to_string()),
        None,
        StubGenerator { server_proof: "SP-GOOD" },
    )
    .do_sync(&client)
    .expect("Failed to login");

    let mut pending = match auth_result {
        SessionType::AwaitingTotp(t) => t,
        SessionType::Authenticated(_) => panic!("expected a pending second factor"),
    };

    for _ in 0..3 {
        match pending.submit_totp(&client, "000000") {
            Ok(_) => panic!("wrong code must not authenticate"),
            Err((same, e)) => {
                assert!(matches!(e, Error::API(_)));
                let creds = same.0.get_refresh_data();
                assert_eq!(creds.user_uid.0, "uid-1");
                assert_eq!(creds.token.expose_secret().as_str(), "ref-1");
                pending = same;
            },
        }
    }

    let session = pending.submit_totp(&client, "000000").ok().expect("right code must authenticate");
    let creds = session.get_refresh_data();
    assert_eq!(creds.user_uid.0, "uid-1");
    assert_eq!(creds.token.expose_secret().as_str(), "ref-1");
    client.done();
}

#[test]
fn human_verification_demand_is_remapped() {
    let client = ScriptedClient::new(vec![
        Step::new(Method::Post, "auth/v4/info", 200, CHALLENGE),
        Step::new(
            Method::Post,
            "auth/v4",
            422,
            r#"{"Code":9001,"Error":"Human verification required","Details":{"HumanVerificationMethods":["captcha"],"HumanVerificationToken":"hv-tok"}}"#,
        ),
    ]);
    let r = Session::login(
        "foo@bar.com",
        &SecretString::new("12345".to_string()),
        None,
        StubGenerator { server_proof: "SP-GOOD" },
    )
    .do_sync(&client);
    match r {
        Err(LoginError::HumanVerificationRequired(hv)) => {
            assert_eq!(hv.token, "hv-tok");
            assert_eq!(hv.methods, vec!["captcha".to_string()]);
        },
        _ => panic!("the verification demand must surface as its own error kind"),
    }
    client.done();
}

#[test]
fn caller_supplied_verification_token_rides_on_the_proof_submission() {
    let client = ScriptedClient::new(vec![
        Step::new(Method::Post, "auth/v4/info", 200, CHALLENGE),
        Step::new(Method::Post, "auth/v4", 200, r#"{"UserID":"user-1","UID":"uid-1","TokenType":"Bearer","AccessToken":"acc-1","RefreshToken":"ref-1","ServerProof":"SP-GOOD","Scope":"full","2FA":{"Enabled":0},"PasswordMode":1}"#)
            .header("X-Pm-Human-Verification-Token", "hv-tok")
            .header("X-Pm-Human-Verification-Token-Type", "captcha"),
    ]);
    let r = Session::login(
        "foo@bar.com",
        &SecretString::new("12345".to_string()),
        Some(HumanVerificationLoginData {
            hv_type: HumanVerificationType::Captcha,
            token: "hv-tok".to_string(),
        }),
        StubGenerator { server_proof: "SP-GOOD" },
    )
    .do_sync(&client);
    assert!(matches!(r, Ok(SessionType::Authenticated(_))));
    client.done();
}

#[test]
fn proof_generation_failure_is_terminal() {
    let client = ScriptedClient::new(vec![Step::new(Method::Post, "auth/v4/info", 200, CHALLENGE)]);
    let r = Session::login(
        "foo@bar.com",
        &SecretString::new("12345".to_string()),
        None,
        FailingGenerator,
    )
    .do_sync(&client);
    match r {
        Err(LoginError::SRPProof(msg)) => assert_eq!(msg, "boom"),
        _ => panic!("proof-generation failure must be reported as such"),
    }
    client.done();
}

#[test]
fn refresh_then_authenticated_call_uses_the_new_token() {
    let client = ScriptedClient::new(vec![
        Step::new(Method::Post, "auth/v4/refresh", 200, r#"{"UID":"uid-9","TokenType":"Bearer","AccessToken":"acc-9","RefreshToken":"ref-9","Scope":"full"}"#)
            .body_is(r#"{"UID":"uid-0","RefreshToken":"ref-0","GrantType":"refresh_token","ResponseType":"token","RedirectURI":"https://protonmail.ch/"}"#),
        Step::new(Method::Get, "core/v4/events/latest", 200, r#"{"EventID":"E1"}"#)
            .header("X-Pm-Uid", "uid-9")
            .header("authorization", "Bearer acc-9"),
    ]);
    let mut session = Session::refresh(&UserUid("uid-0".to_string()), "ref-0")
        .do_sync(&client)
        .expect("refresh should succeed");
    let latest = session.get_latest_event(&client).expect("event fetch should succeed");
    assert_eq!(latest.0, "E1");
    client.done();
}

#[test]
fn map_sequence_transforms_success_and_propagates_failure() {
    let client = ScriptedClient::new(vec![Step::new(
        Method::Get,
        "core/v4/events/latest",
        200,
        r#"{"EventID":"E7"}"#,
    )]);
    let seq = GetLatestEventRequest {}.map(|r: LatestEventResponse| -> Result<String, Error> {
        Ok(r.event_id.0)
    });
    assert_eq!(seq.do_sync(&client).unwrap(), "E7");
    client.done();

    let failing = ScriptedClient::new(vec![Step::new(
        Method::Get,
        "core/v4/events/latest",
        500,
        "",
    )]);
    let seq = GetLatestEventRequest {}.map(|r: LatestEventResponse| -> Result<String, Error> {
        Ok(r.event_id.0)
    });
    assert!(matches!(seq.do_sync(&failing), Err(Error::API(a)) if a.http_code == 500));
    failing.done();
}

#[test]
fn state_and_chain_sequences_run_stages_in_order() {
    let client = ScriptedClient::new(vec![
        Step::new(Method::Get, "core/v4/events/latest", 200, r#"{"EventID":"first"}"#),
        Step::new(Method::Get, "core/v4/events/latest", 200, r#"{"EventID":"second"}"#),
    ]);
    let seq = GetLatestEventRequest {}.state(|r: LatestEventResponse| {
        assert_eq!(r.event_id.0, "first");
        GetLatestEventRequest {}
    });
    assert_eq!(seq.do_sync(&client).unwrap().event_id.0, "second");
    client.done();

    let client = ScriptedClient::new(vec![
        Step::new(Method::Get, "core/v4/events/latest", 200, r#"{"EventID":"first"}"#),
        Step::new(Method::Get, "core/v4/events/latest", 200, r#"{"EventID":"second"}"#),
    ]);
    let seq = GetLatestEventRequest {}.chain(|r: LatestEventResponse| -> Result<GetLatestEventRequest, Error> {
        assert_eq!(r.event_id.0, "first");
        Ok(GetLatestEventRequest {})
    });
    assert_eq!(seq.do_sync(&client).unwrap().event_id.0, "second");
    client.done();

    let client = ScriptedClient::new(vec![Step::new(
        Method::Get,
        "core/v4/events/latest",
        200,
        r#"{"EventID":"from-state"}"#,
    )]);
    let seq = StateProducerSequence::new(7u32, |state: u32| {
        assert_eq!(state, 7);
        GetLatestEventRequest {}
    });
    assert_eq!(seq.do_sync(&client).unwrap().event_id.0, "from-state");
    client.done();
}

#[test]
fn captcha_and_ping_requests() {
    let client = ScriptedClient::new(vec![
        Step::new(Method::Get, "core/v4/captcha?Token=tok-1", 200, "<html>captcha</html>"),
        Step::new(Method::Get, "core/v4/captcha?ForceWebMessaging=1&Token=tok-1", 200, "x"),
        Step::new(Method::Get, "tests/ping", 200, ""),
    ]);
    let body = proton_api::client::captcha_get("tok-1", false).do_sync(&client).unwrap();
    assert_eq!(body, "<html>captcha</html>");
    let forced = proton_api::client::captcha_get("tok-1", true).do_sync(&client).unwrap();
    assert_eq!(forced, "x");
    proton_api::client::ping().do_sync(&client).unwrap();
    client.done();
}
