//! Tests of the auto-refresh retry wrapper: a 401 triggers exactly one
//! refresh and one retry, and nothing else does.

use std::cell::RefCell;

use proton_api::domain::{SecretString, UserUid};
use proton_api::http::{ClientSync, Error, HttpResponse, Method, RequestData};
use proton_api::repeater::RequestRepeater;
use proton_api::requests::GetLatestEventRequest;
use proton_api::session::UserAuth;

struct Step {
    method: Method,
    url: &'static str,
    expect_headers: Vec<(&'static str, &'static str)>,
    status: u16,
    body: String,
}

struct ScriptedClient {
    steps: RefCell<Vec<Step>>,
}

impl ScriptedClient {
    fn new(steps: Vec<Step>) -> Self {
        ScriptedClient { steps: RefCell::new(steps) }
    }

    fn done(&self) {
        assert!(self.steps.borrow().is_empty(), "not every expected request was made");
    }
}

impl ClientSync for ScriptedClient {
    fn execute_raw(&self, request: &RequestData) -> Result<HttpResponse, Error> {
        let mut steps = self.steps.borrow_mut();
        assert!(!steps.is_empty(), "unexpected request to {}", request.url());
        let step = steps.remove(0);
        assert_eq!(request.method(), step.method, "method for {}", step.url);
        assert_eq!(request.url().as_str(), step.url);
        for (k, v) in &step.expect_headers {
            let found = request
                .headers()
                .iter()
                .find(|(hk, _)| hk == k)
                .map(|(_, hv)| hv.as_str());
            assert_eq!(found, Some(*v), "header {} for {}", k, step.url);
        }
        Ok(HttpResponse { status: step.status, body: step.body.clone().into_bytes() })
    }
}

fn test_repeater() -> RequestRepeater {
    RequestRepeater::new(UserAuth {
        uid: UserUid("test-uid".to_string()),
        access_token: SecretString::new("secret-token".to_string()),
        refresh_token: SecretString::new("refresh-token".to_string()),
    })
}

#[test]
fn request_repeats_with_401() {
    let expected_latest_event_id = "My_Event_Id".to_string();

    let client = ScriptedClient::new(vec![
        Step {
            method: Method::Get,
            url: "core/v4/events/latest",
            expect_headers: vec![("X-Pm-Uid", "test-uid")],
            status: 401,
            body: String::new(),
        },
        Step {
            method: Method::Post,
            url: "auth/v4/refresh",
            expect_headers: vec![],
            status: 200,
            body: r#"{
    "UID": "User_UID",
    "TokenType": "type",
    "AccessToken": "access-token",
    "RefreshToken": "refresh-token",
    "Scope": "Scope"
}"#
            .to_string(),
        },
        Step {
            method: Method::Get,
            url: "core/v4/events/latest",
            expect_headers: vec![("X-Pm-Uid", "User_UID")],
            status: 200,
            body: format!(r#"{{"EventID":"{}"}}"#, expected_latest_event_id),
        },
    ]);

    let mut repeater = test_repeater();
    let latest_event = repeater.execute(&client, &GetLatestEventRequest {}).unwrap();
    assert_eq!(latest_event.event_id.0, expected_latest_event_id);

    client.done();
}

#[test]
fn a_second_consecutive_401_is_returned_unmodified() {
    let client = ScriptedClient::new(vec![
        Step {
            method: Method::Get,
            url: "core/v4/events/latest",
            expect_headers: vec![("authorization", "Bearer secret-token")],
            status: 401,
            body: String::new(),
        },
        Step {
            method: Method::Post,
            url: "auth/v4/refresh",
            expect_headers: vec![],
            status: 200,
            body: r#"{"UID":"User_UID","TokenType":"type","AccessToken":"access-token","RefreshToken":"refresh-token","Scope":"Scope"}"#.to_string(),
        },
        Step {
            method: Method::Get,
            url: "core/v4/events/latest",
            expect_headers: vec![("authorization", "Bearer access-token")],
            status: 401,
            body: String::new(),
        },
    ]);

    let mut repeater = test_repeater();
    match repeater.execute(&client, &GetLatestEventRequest {}) {
        Err(Error::API(a)) => assert_eq!(a.http_code, 401),
        _ => panic!("the second 401 must reach the caller"),
    }
    // The script is exhausted: there was exactly one refresh and one retry.
    client.done();
}

#[test]
fn failed_refresh_returns_the_original_401() {
    let client = ScriptedClient::new(vec![
        Step {
            method: Method::Get,
            url: "core/v4/events/latest",
            expect_headers: vec![],
            status: 401,
            body: r#"{"Code":401,"Error":"expired"}"#.to_string(),
        },
        Step {
            method: Method::Post,
            url: "auth/v4/refresh",
            expect_headers: vec![],
            status: 500,
            body: r#"{"Code":5003,"Error":"server exploded"}"#.to_string(),
        },
    ]);

    let mut repeater = test_repeater();
    match repeater.execute(&client, &GetLatestEventRequest {}) {
        Err(Error::API(a)) => {
            assert_eq!(a.http_code, 401);
            assert_eq!(a.message.as_deref(), Some("expired"));
        },
        _ => panic!("the original 401 must reach the caller, not the refresh error"),
    }
    // No retry happened after the failed refresh.
    client.done();
}

#[test]
fn non_401_errors_pass_through_without_refresh() {
    let client = ScriptedClient::new(vec![Step {
        method: Method::Get,
        url: "core/v4/events/latest",
        expect_headers: vec![],
        status: 422,
        body: r#"{"Code":2028,"Error":"no"}"#.to_string(),
    }]);

    let mut repeater = test_repeater();
    match repeater.execute(&client, &GetLatestEventRequest {}) {
        Err(Error::API(a)) => assert_eq!(a.http_code, 422),
        _ => panic!("a non-401 API error must pass through"),
    }
    // The script is exhausted: no refresh and no retry were attempted.
    client.done();
}

#[test]
fn transport_errors_pass_through_without_refresh() {
    struct DownClient;

    impl ClientSync for DownClient {
        fn execute_raw(&self, _request: &RequestData) -> Result<HttpResponse, Error> {
            Err(Error::Connection("connection refused".to_string()))
        }
    }

    let mut repeater = test_repeater();
    match repeater.execute(&DownClient, &GetLatestEventRequest {}) {
        Err(Error::Connection(_)) => {},
        _ => panic!("transport errors must pass through untouched"),
    }
}

#[test]
fn refresh_data_reflects_the_current_credentials() {
    let repeater = test_repeater();
    let data = repeater.get_refresh_data();
    assert_eq!(data.user_uid.0, "test-uid");
    assert_eq!(data.token.expose_secret().as_str(), "refresh-token");
}
