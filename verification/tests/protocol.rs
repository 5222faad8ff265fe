//! Tests of the transport types: request descriptors, header semantics,
//! JSON body framing, error-body decoding, and small codecs.

use proton_api::domain::{LabelID, MoreEvents, SecretString};
use proton_api::http::{Method, Proxy, ProxyAuth, ProxyProtocol, RequestData};
use proton_api::repeater::RequestRepeater;
use proton_api::requests::{APIError, AuthInfoRequest, PasswordMode, TFAStatus};
use proton_api::session::UserAuth;

use proton_api::domain::UserUid;
use proton_api::http::{DefaultRequestFactory, Request, RequestFactory};

fn lookup<'a>(headers: &'a [(String, String)], key: &str) -> Option<&'a str> {
    let mut found = None;
    for (k, v) in headers {
        if k == key {
            found = Some(v.as_str());
        }
    }
    found
}

fn count(headers: &[(String, String)], key: &str) -> usize {
    headers.iter().filter(|(k, _)| k == key).count()
}

#[test]
fn header_last_write_wins_and_keys_stay_unique() {
    let r = RequestData::new(Method::Get, "x")
        .header("A".to_string(), "1".to_string())
        .header("B".to_string(), "2".to_string())
        .header("A".to_string(), "3".to_string());
    let headers = r.headers();
    assert_eq!(headers.len(), 2);
    assert_eq!(lookup(headers, "A"), Some("3"));
    assert_eq!(lookup(headers, "B"), Some("2"));
    assert_eq!(count(headers, "A"), 1);
}

#[test]
fn bearer_token_sets_authorization_header() {
    let r = RequestData::new(Method::Post, "x").bearer_token("tok123");
    assert_eq!(lookup(r.headers(), "authorization"), Some("Bearer tok123"));
}

#[test]
fn json_bytes_sets_content_type_and_body() {
    let r = RequestData::new(Method::Post, "x").json_bytes(vec![b'{', b'}']);
    assert_eq!(lookup(r.headers(), "Content-Type"), Some("application/json"));
    assert_eq!(r.body().as_ref().unwrap(), &vec![b'{', b'}']);
}

#[test]
fn authenticated_requests_carry_exactly_one_uid_and_bearer_header() {
    let rep = RequestRepeater::new(UserAuth {
        uid: UserUid("uid-1".to_string()),
        access_token: SecretString::new("acc-1".to_string()),
        refresh_token: SecretString::new("ref-1".to_string()),
    });
    let r = rep.new_request(Method::Get, "core/v4/events/latest");
    let headers = r.headers();
    assert_eq!(count(headers, "X-Pm-Uid"), 1);
    assert_eq!(count(headers, "authorization"), 1);
    assert_eq!(lookup(headers, "X-Pm-Uid"), Some("uid-1"));
    assert_eq!(lookup(headers, "authorization"), Some("Bearer acc-1"));
}

#[test]
fn challenge_request_body_is_exact_json() {
    let req = AuthInfoRequest { username: "foo@bar.com".to_string() };
    let built = req.build_request(&DefaultRequestFactory {});
    let body = built.body().as_ref().unwrap().clone();
    assert_eq!(String::from_utf8(body).unwrap(), r#"{"Username":"foo@bar.com"}"#);
}

#[test]
fn body_escaping_round_trips_through_a_real_json_parser() {
    let tricky = "a\"b\\c\nd\te\u{1}f\u{7f}émoji🦀";
    let req = AuthInfoRequest { username: tricky.to_string() };
    let built = req.build_request(&DefaultRequestFactory {});
    let body = built.body().as_ref().unwrap().clone();
    let v: serde_json::Value = serde_json::from_slice(&body).expect("encoder must emit valid JSON");
    assert_eq!(v.get("Username").unwrap().as_str().unwrap(), tricky);
}

#[test]
fn empty_error_body_degrades_to_code_zero_and_no_message() {
    let e = APIError::with_status_and_body(500, b"");
    assert_eq!(e.http_code, 500);
    assert_eq!(e.api_code, 0);
    assert!(e.message.is_none());
    assert!(e.hv.is_none());
}

#[test]
fn malformed_error_body_degrades_to_code_zero_and_no_message() {
    let e = APIError::with_status_and_body(400, b"this is { not json");
    assert_eq!(e.http_code, 400);
    assert_eq!(e.api_code, 0);
    assert!(e.message.is_none());
}

#[test]
fn well_formed_error_body_is_decoded() {
    let e = APIError::with_status_and_body(422, br#"{"Code":2028,"Error":"Bad username"}"#);
    assert_eq!(e.http_code, 422);
    assert_eq!(e.api_code, 2028);
    assert_eq!(e.message.as_deref(), Some("Bad username"));
    assert!(e.hv.is_none());
}

#[test]
fn human_verification_details_are_decoded() {
    let body = br#"{"Code":9001,"Error":"Human verification required","Details":{"HumanVerificationMethods":["captcha","email"],"HumanVerificationToken":"hv-tok"}}"#;
    let e = APIError::with_status_and_body(422, body);
    assert_eq!(e.api_code, 9001);
    let hv = e.hv.expect("details should be decoded");
    assert_eq!(hv.token, "hv-tok");
    assert_eq!(hv.methods, vec!["captcha".to_string(), "email".to_string()]);
}

#[test]
fn proxy_renders_as_url() {
    let p = Proxy {
        protocol: ProxyProtocol::Socks5,
        auth: Some(ProxyAuth {
            username: "user".to_string(),
            password: SecretString::new("pw".to_string()),
        }),
        url: "localhost".to_string(),
        port: 9050,
    };
    assert_eq!(p.as_url(), "socks5://user:pw@localhost:9050");
    let q = Proxy { protocol: ProxyProtocol::Https, auth: None, url: "p.example".to_string(), port: 80 };
    assert_eq!(q.as_url(), "https://p.example:80");
}

#[test]
fn method_names_match_the_wire() {
    assert_eq!(Method::Delete.as_str(), "DELETE");
    assert_eq!(Method::Get.as_str(), "GET");
    assert_eq!(Method::Put.as_str(), "PUT");
    assert_eq!(Method::Post.as_str(), "POST");
    assert_eq!(Method::Patch.as_str(), "PATCH");
}

#[test]
fn wire_codes_decode_to_enums() {
    assert_eq!(TFAStatus::from_code(0), Some(TFAStatus::Disabled));
    assert_eq!(TFAStatus::from_code(1), Some(TFAStatus::Totp));
    assert_eq!(TFAStatus::from_code(2), Some(TFAStatus::FIDO2));
    assert_eq!(TFAStatus::from_code(3), Some(TFAStatus::TotpOrFIDO2));
    assert_eq!(TFAStatus::from_code(4), None);
    assert_eq!(PasswordMode::from_code(1), Some(PasswordMode::One));
    assert_eq!(PasswordMode::from_code(2), Some(PasswordMode::Two));
    assert_eq!(PasswordMode::from_code(0), None);
    assert_eq!(MoreEvents::from_code(0), Some(MoreEvents::No));
    assert_eq!(MoreEvents::from_code(1), Some(MoreEvents::Yes));
    assert_eq!(MoreEvents::from_code(9), None);
}

#[test]
fn system_label_ids_are_fixed() {
    assert_eq!(LabelID::inbox().0, "0");
    assert_eq!(LabelID::all_drafts().0, "1");
    assert_eq!(LabelID::all_sent().0, "1");
    assert_eq!(LabelID::trash().0, "3");
    assert_eq!(LabelID::spam().0, "4");
    assert_eq!(LabelID::all_mail().0, "5");
    assert_eq!(LabelID::archive().0, "5");
    assert_eq!(LabelID::sent().0, "7");
    assert_eq!(LabelID::drafts().0, "8");
    assert_eq!(LabelID::outbox().0, "9");
    assert_eq!(LabelID::starred().0, "10");
    assert_eq!(LabelID::all_scheduled().0, "12");
}

#[test]
fn decimal_rendering_is_exact() {
    assert_eq!(proton_api::codec::format_u16(0), "0");
    assert_eq!(proton_api::codec::format_u16(7), "7");
    assert_eq!(proton_api::codec::format_u16(1080), "1080");
    assert_eq!(proton_api::codec::format_u16(65535), "65535");
}
