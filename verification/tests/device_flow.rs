use ak_platform::device_flow::{
    check_deadline, device_authorization_form, initial_interval_nanos, next_poll, token_poll_form,
    DeviceTokenResult, PollError, PollReply, PollStep,
};

const TEN_MS: u128 = 10_000_000;

#[test]
fn authorization_form_body() {
    let body = device_authorization_form(
        "client-id",
        &vec!["openid".to_string(), "profile".to_string()],
        Some("thumb print"),
    );
    assert_eq!(body, "client_id=client-id&scope=openid+profile&dpop_jkt=thumb+print");
    let body = device_authorization_form("client-id", &vec!["openid".to_string()], None);
    assert_eq!(body, "client_id=client-id&scope=openid");
}

#[test]
fn token_poll_form_body() {
    assert_eq!(
        token_poll_form("test-device-code", "client-id"),
        "grant_type=urn%3Aietf%3Aparams%3Aoauth%3Agrant-type%3Adevice_code&device_code=test-device-code&client_id=client-id"
    );
}

#[test]
fn interval_defaults_to_five_seconds() {
    assert_eq!(initial_interval_nanos(Some(5)), 5_000_000_000);
    assert_eq!(initial_interval_nanos(Some(1)), 1_000_000_000);
    assert_eq!(initial_interval_nanos(None), 5_000_000_000);
}

fn code(c: &str) -> PollReply {
    PollReply::ErrorCode(c.to_string())
}

#[test]
fn poll_retries_on_authorization_pending_then_succeeds() {
    let mut interval = TEN_MS;
    for _ in 0..2 {
        match next_poll(interval, code("authorization_pending")) {
            PollStep::Wait(i) => interval = i,
            _ => panic!("expected to wait"),
        }
    }
    assert_eq!(interval, TEN_MS);
    let token = DeviceTokenResult {
        access_token: "at123".to_string(),
        refresh_token: Some("rt123".to_string()),
        expires_in: Some(3600),
    };
    match next_poll(interval, PollReply::Token(token)) {
        PollStep::Done(result) => {
            assert_eq!(result.access_token, "at123");
            assert_eq!(result.refresh_token.as_deref(), Some("rt123"));
        }
        _ => panic!("expected the tokens"),
    }
}

#[test]
fn poll_bails_on_access_denied() {
    match next_poll(TEN_MS, code("access_denied")) {
        PollStep::Fail(e) => assert_eq!(e.to_string(), "authorization was denied"),
        _ => panic!("expected a failure"),
    }
}

#[test]
fn slow_down_adds_five_seconds() {
    match next_poll(TEN_MS, code("slow_down")) {
        PollStep::Wait(i) => assert_eq!(i, TEN_MS + 5_000_000_000),
        _ => panic!("expected to wait"),
    }
}

#[test]
fn other_answers_fail() {
    assert!(matches!(next_poll(TEN_MS, code("expired_token")), PollStep::Fail(PollError::Expired)));
    match next_poll(TEN_MS, code("invalid_client")) {
        PollStep::Fail(e) => assert_eq!(e.to_string(), "device token poll failed: invalid_client"),
        _ => panic!("expected a failure"),
    }
    match next_poll(TEN_MS, PollReply::Unrecognized("400 Bad Request".to_string(), "oops".to_string())) {
        PollStep::Fail(e) => assert_eq!(e.to_string(), "device token poll failed with status 400 Bad Request: oops"),
        _ => panic!("expected a failure"),
    }
    match next_poll(TEN_MS, PollReply::MalformedToken("missing field".to_string(), "{}".to_string())) {
        PollStep::Fail(e) => assert_eq!(e.to_string(), "malformed token response: missing field: {}"),
        _ => panic!("expected a failure"),
    }
}

#[test]
fn deadline_check() {
    assert!(check_deadline(false).is_ok());
    match check_deadline(true) {
        Err(e) => assert_eq!(e.to_string(), "device code expired before authorization was completed"),
        Ok(()) => panic!("expected expiry"),
    }
}
