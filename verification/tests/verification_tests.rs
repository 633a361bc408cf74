use fr_acc::protocol::{Action, Event, JsonBody, Response};
use fr_acc::verification::{
    verify_otp_route, verify_route, verify_two_route, OtpPayload, TokenQuery, VerifyStage,
    VerifyTransition,
};
use fr_rust::prelude::{CryptoService, JwtService, LinkV, LinkVConfig, RedisManager};

fn services() -> (JwtService, LinkV) {
    let jwt = JwtService::new_hs256("test-secret");
    let crypto = CryptoService::new(&[7u8; 32]).unwrap();
    let redis = RedisManager::new("redis://127.0.0.1:6379/").unwrap();
    let linkv = LinkV::new(LinkVConfig { secret: "k".to_string(), crypto, redis, jwt: jwt.clone() });
    (jwt, linkv)
}

fn run<F: FnMut(&VerifyStage, Event) -> VerifyTransition>(mut step: F, events: Vec<Event>) -> (Vec<Action>, VerifyStage) {
    let mut stage = VerifyStage::Idle;
    let mut actions = Vec::new();
    for e in events {
        let t = step(&stage, e);
        stage = t.stage;
        actions.push(t.action);
    }
    (actions, stage)
}

fn s(x: &str) -> String {
    x.to_string()
}

#[test]
fn payload_accessors() {
    let p = OtpPayload::new(s("k@x.y"), s("123"));
    assert_eq!(p.key(), "k@x.y");
    assert_eq!(p.otp(), "123");
    let q = TokenQuery::new(s("tok"));
    assert_eq!(q.v(), "tok");
}

#[test]
fn verify_otp_route_logs_in_the_key() {
    let (jwt, _) = services();
    let p = OtpPayload::new(s("eve@example.com"), s("123456"));
    let (a, stage) = run(|st, e| verify_otp_route(&jwt, &p, st, e), vec![Event::Begin, Event::OtpChecked(Ok(true))]);
    assert_eq!(a[0], Action::VerifyOtp { key: s("eve@example.com"), otp: s("123456") });
    match &a[1] {
        Action::Respond(Response::Json(JsonBody::Session { message, login_token })) => {
            assert_eq!(message, "OTP verification successful.");
            assert_eq!(jwt.extract_subject(login_token), Some(s("eve@example.com")));
        },
        other => panic!("unexpected {:?}", other),
    }
    assert_eq!(stage, VerifyStage::Done);
}

#[test]
fn verify_otp_route_rejects_a_wrong_code() {
    let (jwt, _) = services();
    let p = OtpPayload::new(s("eve@example.com"), s("1"));
    for answer in [Ok(false), Err(())] {
        let (a, _) = run(|st, e| verify_otp_route(&jwt, &p, st, e), vec![Event::Begin, Event::OtpChecked(answer)]);
        assert_eq!(
            a[1],
            Action::Respond(Response::BadRequestJson(JsonBody::Rejected { error: s("Invalid or expired OTP code code.") }))
        );
    }
}

#[test]
fn verify_route_logs_in_the_links_owner() {
    let (jwt, linkv) = services();
    let link = linkv.generate_token("fay@example.com", 300).unwrap();
    let q = TokenQuery::new(link);
    match verify_route(&q, &linkv, &jwt) {
        Response::Json(JsonBody::Session { message, login_token }) => {
            assert_eq!(message, "Logged in successfully");
            assert_eq!(jwt.extract_subject(&login_token), Some(s("fay@example.com")));
        },
        other => panic!("unexpected {:?}", other),
    }
}

#[test]
fn verify_route_rejects_an_expired_link() {
    let (jwt, linkv) = services();
    let expired = jwt.generate_exp_token("fay@example.com", 1).unwrap();
    let q = TokenQuery::new(expired);
    assert_eq!(
        verify_route(&q, &linkv, &jwt),
        Response::BadRequest(s("Invalid or expired verification link."))
    );
}

#[test]
fn verify_route_rejects_an_unreadable_token() {
    let (jwt, linkv) = services();
    let q = TokenQuery::new(s("not-a-token"));
    assert_eq!(verify_route(&q, &linkv, &jwt), Response::BadRequest(s("Invalid or expired verification link.")));
    let other_key = JwtService::new_hs256("another-secret").generate_exp_token("fay@example.com", 4_000_000_000).unwrap();
    let q = TokenQuery::new(other_key);
    assert_eq!(verify_route(&q, &linkv, &jwt), Response::BadRequest(s("Invalid or expired verification link.")));
}

#[test]
fn verify_two_route_mails_a_code_and_shows_the_form() {
    let (jwt, linkv) = services();
    let link = linkv.generate_token("gus@example.com", 300).unwrap();
    let q = TokenQuery::new(link);
    let (a, stage) = run(
        |st, e| verify_two_route(&linkv, &jwt, &q, st, e),
        vec![Event::Begin, Event::OtpIssued(Ok(s("424242"))), Event::EmailSent(true)],
    );
    assert_eq!(a[0], Action::GenerateOtp { user_id: s("gus@example.com"), digits: 6, ttl_secs: 300 });
    match &a[1] {
        Action::SendEmail(m) => {
            assert_eq!(m.to, "gus@example.com");
            assert_eq!(m.subject, "Your Verification Code");
            assert_eq!(m.body, "Your secure OTP code is: 424242. It expires in 5 minutes.");
        },
        other => panic!("unexpected {:?}", other),
    }
    match &a[2] {
        Action::Respond(Response::Html(page)) => {
            assert!(page.starts_with("<!DOCTYPE html>\n                <html>\n"));
            assert!(page.contains("<input type=\"hidden\" id=\"key\" name=\"key\" value=\"gus@example.com\">"));
            assert!(page.ends_with("</form>\n                </body>\n                </html>"));
        },
        other => panic!("unexpected {:?}", other),
    }
    assert_eq!(stage, VerifyStage::Done);
}

#[test]
fn verify_two_route_failures() {
    let (jwt, linkv) = services();
    let link = linkv.generate_token("gus@example.com", 300).unwrap();
    let q = TokenQuery::new(link);
    let (a, _) = run(|st, e| verify_two_route(&linkv, &jwt, &q, st, e), vec![Event::Begin, Event::OtpIssued(Err(()))]);
    assert_eq!(a[1], Action::Respond(Response::BadRequest(s("Failed to initialize secondary verification code."))));
    let (a, _) = run(
        |st, e| verify_two_route(&linkv, &jwt, &q, st, e),
        vec![Event::Begin, Event::OtpIssued(Ok(s("1"))), Event::EmailSent(false)],
    );
    assert_eq!(a[2], Action::Respond(Response::BadRequest(s("Could not transmit verification message."))));
    let expired = TokenQuery::new(jwt.generate_exp_token("gus@example.com", 1).unwrap());
    let (a, _) = run(|st, e| verify_two_route(&linkv, &jwt, &expired, st, e), vec![Event::Begin]);
    assert_eq!(a[0], Action::Respond(Response::BadRequest(s("Link verification failed or token expired."))));
    let garbage = TokenQuery::new(s("x.y.z"));
    let (a, _) = run(|st, e| verify_two_route(&linkv, &jwt, &garbage, st, e), vec![Event::Begin]);
    assert_eq!(a[0], Action::Respond(Response::BadRequest(s("Link verification failed or token expired."))));
}
