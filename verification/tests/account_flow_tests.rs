use fr_acc::change_password::{
    change_password, change_password_2, change_password_3, change_password_4, ChangePasswordPayload,
};
use fr_acc::forgotten_password::{
    forgotten_password, forgotten_password_2, forgotten_password_3, forgotten_password_4,
    ForgotPasswordPayload,
};
use fr_acc::login::{login, login2, login3, login4, LoginPayload};
use fr_acc::protocol::{
    Action, DbCommand, DbQuery, EmailMessage, Event, Fault, JsonBody, Lookup, Presence, Response,
};
use fr_acc::signup::{signup, signup2, signup3, signup4, TempSignup};
use fr_acc::workflow::{Stage, Transition};
use fr_rust::prelude::{CryptoService, JwtService, LinkV, LinkVConfig, RedisManager};

fn services() -> (JwtService, LinkV) {
    let jwt = JwtService::new_hs256("test-secret");
    let crypto = CryptoService::new(&[7u8; 32]).unwrap();
    let redis = RedisManager::new("redis://127.0.0.1:6379/").unwrap();
    let linkv = LinkV::new(LinkVConfig { secret: "k".to_string(), crypto, redis, jwt: jwt.clone() });
    (jwt, linkv)
}

/// Feeds the events one after the other from `Idle`; returns the actions.
fn run<F: FnMut(&Stage, Event) -> Transition>(mut step: F, events: Vec<Event>) -> (Vec<Action>, Stage) {
    let mut stage = Stage::Idle;
    let mut actions = Vec::new();
    for e in events {
        let t = step(&stage, e);
        stage = t.stage;
        actions.push(t.action);
    }
    (actions, stage)
}

fn s(x: &str) -> String {
    x.to_string()
}

fn login_payload() -> LoginPayload {
    LoginPayload { email: s("ann@example.com"), pwd: s("secret") }
}

fn plain(m: &str) -> Action {
    Action::Respond(Response::Plain(s(m)))
}

fn bad(m: &str) -> Action {
    Action::Respond(Response::BadRequest(s(m)))
}

fn email_of(a: &Action) -> EmailMessage {
    match a {
        Action::SendEmail(m) => EmailMessage { to: m.to.clone(), subject: m.subject.clone(), body: m.body.clone() },
        other => panic!("expected an email, got {:?}", other),
    }
}

#[test]
fn login_answers_with_a_token_for_the_user() {
    let (jwt, _) = services();
    let p = login_payload();
    let (actions, stage) = run(
        |st, e| login(&jwt, &p, st, e),
        vec![Event::Begin, Event::PasswordRow(Lookup::Found(s("stored"))), Event::PasswordChecked(Ok(true))],
    );
    assert_eq!(actions[0], Action::Lookup(DbQuery::PasswordHash { email: s("ann@example.com") }));
    assert_eq!(actions[1], Action::VerifyPassword { password: s("secret"), hash: s("stored") });
    match &actions[2] {
        Action::Respond(Response::Json(JsonBody::Token { token, message })) => {
            assert_eq!(message, "Login complete");
            assert_eq!(jwt.extract_subject(token), Some(s("ann@example.com")));
        },
        other => panic!("unexpected {:?}", other),
    }
    assert_eq!(stage, Stage::Done);
}

#[test]
fn login_refuses_unknown_user_and_wrong_password() {
    let (jwt, _) = services();
    let p = login_payload();
    let (a, _) = run(|st, e| login(&jwt, &p, st, e), vec![Event::Begin, Event::PasswordRow(Lookup::Absent)]);
    assert_eq!(a[1], bad("User account does not exist."));
    let (a, _) = run(|st, e| login(&jwt, &p, st, e), vec![Event::Begin, Event::PasswordRow(Lookup::Failed)]);
    assert_eq!(a[1], bad("User account does not exist."));
    let (a, _) = run(
        |st, e| login(&jwt, &p, st, e),
        vec![Event::Begin, Event::PasswordRow(Lookup::Found(s("h"))), Event::PasswordChecked(Ok(false))],
    );
    assert_eq!(a[2], bad("Invalid credentials structural validation."));
    let (a, _) = run(
        |st, e| login(&jwt, &p, st, e),
        vec![Event::Begin, Event::PasswordRow(Lookup::Found(s("h"))), Event::PasswordChecked(Err(()))],
    );
    assert_eq!(a[2], bad("Invalid credentials structural validation."));
}

#[test]
fn login2_mails_a_code_and_answers_the_same_either_way() {
    let p = login_payload();
    for sent in [true, false] {
        let (a, stage) = run(
            |st, e| login2(&p, st, e),
            vec![
                Event::Begin,
                Event::PasswordRow(Lookup::Found(s("h"))),
                Event::PasswordChecked(Ok(true)),
                Event::OtpIssued(Ok(s("123456"))),
                Event::EmailSent(sent),
            ],
        );
        assert_eq!(a[2], Action::GenerateOtp { user_id: s("ann@example.com"), digits: 6, ttl_secs: 300 });
        let m = email_of(&a[3]);
        assert_eq!(m.to, "ann@example.com");
        assert_eq!(m.subject, "2FA Login Challenge Code");
        assert_eq!(m.body, "Your secure login entry phase security code is: 123456");
        assert_eq!(a[4], plain("Verification OTP dispatched to registered destination info."));
        assert_eq!(stage, Stage::Done);
    }
    let (a, _) = run(|st, e| login2(&p, st, e), vec![Event::Begin, Event::PasswordRow(Lookup::Found(s("h"))), Event::PasswordChecked(Ok(false))]);
    assert_eq!(a[2], bad("Invalid credentials."));
}

#[test]
fn login2_gives_up_when_no_code_is_made() {
    let p = login_payload();
    let (a, _) = run(
        |st, e| login2(&p, st, e),
        vec![Event::Begin, Event::PasswordRow(Lookup::Found(s("h"))), Event::PasswordChecked(Ok(true)), Event::OtpIssued(Err(()))],
    );
    assert_eq!(a[3], Action::Abort(Fault::OtpGeneration));
}

#[test]
fn login3_and_login4_mail_a_link_for_the_user() {
    let (jwt, linkv) = services();
    let p = login_payload();
    let pages = ["https://example.com/verify?v=", "https://example.com/verify-two?v="];
    for (i, page) in pages.iter().enumerate() {
        let (a, _) = run(
            |st, e| if i == 0 { login3(&linkv, &p, st, e) } else { login4(&linkv, &p, st, e) },
            vec![Event::Begin, Event::PasswordRow(Lookup::Found(s("h"))), Event::PasswordChecked(Ok(true)), Event::EmailSent(false)],
        );
        let m = email_of(&a[2]);
        assert_eq!(m.subject, "Magic Login Entry Node Link");
        let head = format!("Click here to access your session instantly: {}", page);
        assert!(m.body.starts_with(&head));
        let token = &m.body[head.len()..];
        assert_eq!(jwt.extract_subject(token), Some(s("ann@example.com")));
        assert!(jwt.verify_token(token));
        assert_eq!(a[3], plain("Magic login access hyperlink dispatched."));
    }
}

fn change_payload() -> ChangePasswordPayload {
    ChangePasswordPayload { email: s("bo@example.com"), old_pwd: s("old"), new_pwd: s("new") }
}

#[test]
fn change_password_stores_the_hash_of_the_new_password() {
    let p = change_payload();
    for (ok, answer) in [(true, plain("Password changed successfully!")), (false, bad("Failed to update database record."))] {
        let (a, stage) = run(
            |st, e| change_password(&p, st, e),
            vec![
                Event::Begin,
                Event::PasswordRow(Lookup::Found(s("h"))),
                Event::PasswordChecked(Ok(true)),
                Event::Hashed(Ok(s("argon-new"))),
                Event::Executed(ok),
            ],
        );
        assert_eq!(a[1], Action::VerifyPassword { password: s("old"), hash: s("h") });
        assert_eq!(a[2], Action::HashPassword { password: s("new") });
        assert_eq!(
            a[3],
            Action::Execute(DbCommand::UpdatePassword { password_hash: s("argon-new"), email: s("bo@example.com") })
        );
        assert_eq!(a[4], answer);
        assert_eq!(stage, Stage::Done);
    }
}

#[test]
fn change_password_refusals() {
    let p = change_payload();
    let (a, _) = run(|st, e| change_password(&p, st, e), vec![Event::Begin, Event::PasswordRow(Lookup::Absent)]);
    assert_eq!(a[1], bad("User account not found."));
    let (a, _) = run(
        |st, e| change_password(&p, st, e),
        vec![Event::Begin, Event::PasswordRow(Lookup::Found(s("h"))), Event::PasswordChecked(Ok(false))],
    );
    assert_eq!(a[2], bad("Old password verification failed."));
}

#[test]
fn change_password_2_caches_the_hash_and_mails_a_code() {
    let p = change_payload();
    let (a, _) = run(
        |st, e| change_password_2(&p, st, e),
        vec![
            Event::Begin,
            Event::PasswordRow(Lookup::Found(s("h"))),
            Event::PasswordChecked(Ok(true)),
            Event::OtpIssued(Ok(s("000042"))),
            Event::Hashed(Ok(s("argon-new"))),
            Event::Cached(true),
            Event::EmailSent(false),
        ],
    );
    assert_eq!(a[2], Action::GenerateOtp { user_id: s("bo@example.com"), digits: 6, ttl_secs: 300 });
    assert_eq!(a[3], Action::HashPassword { password: s("new") });
    assert_eq!(
        a[4],
        Action::CacheText { key: s("pending_pwd:bo@example.com"), value: s("argon-new"), ttl_secs: 300 }
    );
    let m = email_of(&a[5]);
    assert_eq!(m.subject, "Confirm Password Change Request");
    assert_eq!(m.body, "Use this code to finalize your password update: 000042. Valid for 5 minutes.");
    assert_eq!(a[6], bad("Failed to send verification email."));
}

#[test]
fn change_password_2_gives_up_without_a_cache() {
    let p = change_payload();
    let (a, stage) = run(
        |st, e| change_password_2(&p, st, e),
        vec![
            Event::Begin,
            Event::PasswordRow(Lookup::Found(s("h"))),
            Event::PasswordChecked(Ok(true)),
            Event::OtpIssued(Ok(s("1"))),
            Event::Hashed(Ok(s("x"))),
            Event::Cached(false),
        ],
    );
    assert_eq!(a[5], Action::Abort(Fault::CacheConnection));
    assert_eq!(stage, Stage::Done);
}

#[test]
fn change_password_3_and_4_mail_an_authorisation_link() {
    let (jwt, linkv) = services();
    let p = change_payload();
    for (i, page) in ["https://example.com/verify?v=", "https://example.com/verify-two?v="].iter().enumerate() {
        let (a, _) = run(
            |st, e| if i == 0 { change_password_3(&linkv, &p, st, e) } else { change_password_4(&linkv, &p, st, e) },
            vec![
                Event::Begin,
                Event::PasswordRow(Lookup::Found(s("h"))),
                Event::PasswordChecked(Ok(true)),
                Event::Hashed(Ok(s("argon-new"))),
                Event::Cached(true),
                Event::EmailSent(true),
            ],
        );
        assert_eq!(a[2], Action::HashPassword { password: s("new") });
        let m = email_of(&a[4]);
        assert_eq!(m.subject, "Authorize Password Modification");
        let head = format!("Click this secure node link to authorize your new account password: {}", page);
        assert!(m.body.starts_with(&head));
        assert_eq!(jwt.extract_subject(&m.body[head.len()..]), Some(s("bo@example.com")));
        assert_eq!(a[5], plain("Authorization link has been dispatched to your email."));
    }
}

fn forgot_payload() -> ForgotPasswordPayload {
    ForgotPasswordPayload { email: s("cy@example.com"), new_pwd: s("fresh") }
}

#[test]
fn forgotten_password_resets_at_once() {
    let p = forgot_payload();
    let (a, _) = run(
        |st, e| forgotten_password(&p, st, e),
        vec![Event::Begin, Event::Hashed(Ok(s("hh"))), Event::Executed(true)],
    );
    assert_eq!(a[0], Action::HashPassword { password: s("fresh") });
    assert_eq!(a[1], Action::Execute(DbCommand::UpdatePassword { password_hash: s("hh"), email: s("cy@example.com") }));
    assert_eq!(a[2], plain("Your account password has been successfully reset!"));
    let (a, _) = run(
        |st, e| forgotten_password(&p, st, e),
        vec![Event::Begin, Event::Hashed(Ok(s("hh"))), Event::Executed(false)],
    );
    assert_eq!(a[2], bad("Failed to complete password reset workflow in the system database."));
    let (a, _) = run(|st, e| forgotten_password(&p, st, e), vec![Event::Begin, Event::Hashed(Err(()))]);
    assert_eq!(a[1], Action::Abort(Fault::PasswordHashing));
}

#[test]
fn forgotten_password_2_caches_and_mails_a_code() {
    let p = forgot_payload();
    let (a, _) = run(
        |st, e| forgotten_password_2(&p, st, e),
        vec![Event::Begin, Event::OtpIssued(Ok(s("777777"))), Event::Hashed(Ok(s("hh"))), Event::Cached(true), Event::EmailSent(true)],
    );
    assert_eq!(a[0], Action::GenerateOtp { user_id: s("cy@example.com"), digits: 6, ttl_secs: 300 });
    assert_eq!(a[2], Action::CacheText { key: s("forgot_pwd:cy@example.com"), value: s("hh"), ttl_secs: 300 });
    let m = email_of(&a[3]);
    assert_eq!(m.subject, "Your Password Reset OTP Code");
    assert_eq!(
        m.body,
        "Your temporary recovery security verification code is: 777777. Enter this to save your new password."
    );
    assert_eq!(a[4], plain("Password reset code triggered. Please inspect your inbox."));
    let (a, _) = run(
        |st, e| forgotten_password_2(&p, st, e),
        vec![Event::Begin, Event::OtpIssued(Ok(s("1"))), Event::Hashed(Ok(s("hh"))), Event::Cached(true), Event::EmailSent(false)],
    );
    assert_eq!(a[4], bad("Failed to emit recovery email data payload."));
}

#[test]
fn forgotten_password_3_and_4_mail_a_recovery_link() {
    let (jwt, linkv) = services();
    let p = forgot_payload();
    for (i, page) in ["https://example.com/verify?v=", "https://example.com/verify-two?v="].iter().enumerate() {
        let (a, _) = run(
            |st, e| if i == 0 { forgotten_password_3(&linkv, &p, st, e) } else { forgotten_password_4(&linkv, &p, st, e) },
            vec![Event::Begin, Event::Hashed(Ok(s("hh"))), Event::Cached(true), Event::EmailSent(false)],
        );
        assert_eq!(a[0], Action::HashPassword { password: s("fresh") });
        let m = email_of(&a[2]);
        assert_eq!(m.subject, "Secure Recovery Password Link Request");
        let head = format!(
            "Click on the following address parameter route to finish changing your access token credentials: {}",
            page
        );
        assert!(m.body.starts_with(&head));
        assert_eq!(jwt.extract_subject(&m.body[head.len()..]), Some(s("cy@example.com")));
        assert_eq!(a[3], bad("Failed to send link vector payload."));
    }
}

fn signup_payload() -> TempSignup {
    TempSignup { name: s("Dee"), email: s("dee@example.com"), pwd: s("pw") }
}

#[test]
fn signup_refuses_a_known_email() {
    let p = signup_payload();
    let (a, stage) = run(|st, e| signup(&p, st, e), vec![Event::Begin, Event::UserPresence(Presence::Present)]);
    assert_eq!(a[0], Action::Lookup(DbQuery::UserId { email: s("dee@example.com") }));
    assert_eq!(a[1], bad("User already exists with this email."));
    assert_eq!(stage, Stage::Done);
}

#[test]
fn signup_inserts_the_user_with_a_hash() {
    let p = signup_payload();
    for presence in [Presence::Absent, Presence::Failed] {
        let (a, _) = run(
            |st, e| signup(&p, st, e),
            vec![Event::Begin, Event::UserPresence(presence), Event::Hashed(Ok(s("hp"))), Event::Executed(true)],
        );
        assert_eq!(a[1], Action::HashPassword { password: s("pw") });
        assert_eq!(
            a[2],
            Action::Execute(DbCommand::InsertUser { name: s("Dee"), email: s("dee@example.com"), password_hash: s("hp") })
        );
        assert_eq!(a[3], plain("Registration successful!"));
    }
    let (a, _) = run(
        |st, e| signup(&p, st, e),
        vec![Event::Begin, Event::UserPresence(Presence::Absent), Event::Hashed(Ok(s("hp"))), Event::Executed(false)],
    );
    assert_eq!(a[3], bad("Database insertion failed."));
}

#[test]
fn signup2_caches_the_request_and_mails_a_code() {
    let p = signup_payload();
    let (a, _) = run(
        |st, e| signup2(&p, st, e),
        vec![
            Event::Begin,
            Event::UserPresence(Presence::Absent),
            Event::OtpIssued(Ok(s("654321"))),
            Event::Hashed(Ok(s("hp"))),
            Event::Cached(true),
            Event::EmailSent(true),
        ],
    );
    assert_eq!(
        a[3],
        Action::CacheSignup {
            key: s("signup:dee@example.com"),
            record: TempSignup { name: s("Dee"), email: s("dee@example.com"), pwd: s("hp") },
            ttl_secs: 300,
        }
    );
    let m = email_of(&a[4]);
    assert_eq!(m.subject, "Verify Account OTP");
    assert_eq!(m.body, "Your registration security code is: 654321. Valid for 5 mins.");
    assert_eq!(a[5], plain("OTP transmitted successfully! Please finalize via /verify-otp."));
    let (a, _) = run(
        |st, e| signup2(&p, st, e),
        vec![
            Event::Begin,
            Event::UserPresence(Presence::Absent),
            Event::OtpIssued(Ok(s("1"))),
            Event::Hashed(Ok(s("hp"))),
            Event::Cached(true),
            Event::EmailSent(false),
        ],
    );
    assert_eq!(a[5], bad("Failed to emit signup OTP."));
}

#[test]
fn signup3_and_signup4_mail_an_activation_link() {
    let (jwt, linkv) = services();
    let p = signup_payload();
    for (i, page) in ["https://example.com/verify?v=", "https://example.com/verify-two?v="].iter().enumerate() {
        let (a, _) = run(
            |st, e| if i == 0 { signup3(&linkv, &p, st, e) } else { signup4(&linkv, &p, st, e) },
            vec![Event::Begin, Event::UserPresence(Presence::Absent), Event::Hashed(Ok(s("hp"))), Event::Cached(true), Event::EmailSent(false)],
        );
        let m = email_of(&a[3]);
        assert_eq!(m.subject, "Complete your Signup");
        let head = format!("Click this activation node link to finalize setup: {}", page);
        assert!(m.body.starts_with(&head));
        assert_eq!(jwt.extract_subject(&m.body[head.len()..]), Some(s("dee@example.com")));
        assert_eq!(a[4], bad("Could not dispatch activation link."));
    }
}

#[test]
fn events_out_of_order_end_the_request() {
    let p = login_payload();
    let (a, stage) = run(|st, e| login2(&p, st, e), vec![Event::Begin, Event::EmailSent(true)]);
    assert_eq!(a[1], Action::Abort(Fault::OutOfOrder));
    assert_eq!(stage, Stage::Done);
    let (a, _) = run(|st, e| login2(&p, st, e), vec![Event::EmailSent(true)]);
    assert_eq!(a[0], Action::Abort(Fault::OutOfOrder));
    let f = forgot_payload();
    let (a, _) = run(
        |st, e| forgotten_password(&f, st, e),
        vec![Event::Begin, Event::Hashed(Ok(s("h"))), Event::Executed(true), Event::Begin],
    );
    assert_eq!(a[3], Action::Abort(Fault::OutOfOrder));
    let g = signup_payload();
    let (a, _) = run(|st, e| signup(&g, st, e), vec![Event::Begin, Event::PasswordRow(Lookup::Absent)]);
    assert_eq!(a[1], Action::Abort(Fault::OutOfOrder));
}

#[test]
fn requests_end_within_seven_events() {
    let p = change_payload();
    let events = vec![
        Event::Begin,
        Event::PasswordRow(Lookup::Found(s("h"))),
        Event::PasswordChecked(Ok(true)),
        Event::OtpIssued(Ok(s("1"))),
        Event::Hashed(Ok(s("x"))),
        Event::Cached(true),
        Event::EmailSent(true),
    ];
    let (a, stage) = run(|st, e| change_password_2(&p, st, e), events);
    assert_eq!(stage, Stage::Done);
    assert_eq!(a.len(), 7);
    assert_eq!(a[6], plain("Password update initiated. Please check your email for the validation OTP!"));
}

#[test]
fn answers_do_not_depend_on_codes_or_hashes() {
    let p = change_payload();
    let mut last = Vec::new();
    for (code, hash) in [("111111", "hash-one"), ("999999", "hash-two")] {
        let (mut a, _) = run(
            |st, e| change_password_2(&p, st, e),
            vec![
                Event::Begin,
                Event::PasswordRow(Lookup::Found(s("h"))),
                Event::PasswordChecked(Ok(true)),
                Event::OtpIssued(Ok(s(code))),
                Event::Hashed(Ok(s(hash))),
                Event::Cached(true),
                Event::EmailSent(true),
            ],
        );
        assert!(!a.iter().any(|x| matches!(x, Action::Execute(_))));
        last.push(a.pop().unwrap());
    }
    assert_eq!(last[0], last[1]);
}

#[test]
fn each_request_writes_once() {
    let g = signup_payload();
    let (a, _) = run(
        |st, e| signup(&g, st, e),
        vec![
            Event::Begin,
            Event::UserPresence(Presence::Absent),
            Event::Hashed(Ok(s("hp"))),
            Event::Executed(true),
            Event::Executed(true),
        ],
    );
    let writes = a.iter().filter(|x| matches!(x, Action::Execute(_))).count();
    assert_eq!(writes, 1);
    assert_eq!(a[4], Action::Abort(Fault::OutOfOrder));
}

#[test]
fn twin_routes_differ_only_in_the_page() {
    let (_, linkv) = services();
    let p = signup_payload();
    let events = || vec![Event::Begin, Event::UserPresence(Presence::Present)];
    let (a3, _) = run(|st, e| signup3(&linkv, &p, st, e), events());
    let (a4, _) = run(|st, e| signup4(&linkv, &p, st, e), events());
    assert_eq!(a3, a4);
    let events = || {
        vec![Event::Begin, Event::UserPresence(Presence::Absent), Event::Hashed(Ok(s("hp"))), Event::Cached(true)]
    };
    let (a3, _) = run(|st, e| signup3(&linkv, &p, st, e), events());
    let (a4, _) = run(|st, e| signup4(&linkv, &p, st, e), events());
    assert_eq!(a3[0..3], a4[0..3]);
    let (m3, m4) = (email_of(&a3[3]), email_of(&a4[3]));
    assert_eq!((m3.to.as_str(), m3.subject.as_str()), (m4.to.as_str(), m4.subject.as_str()));
    assert!(m3.body.contains("https://example.com/verify?v="));
    assert!(m4.body.contains("https://example.com/verify-two?v="));
}
