use fr_acc::protocol::{DbCommand, DbQuery, Fault, Presence};
use fr_acc::utils::{i8_decimal, if_user_exist, join2, join3, verification_email};

#[test]
fn decimal_of_small_bytes() {
    assert_eq!(i8_decimal(0), "0");
    assert_eq!(i8_decimal(5), "5");
    assert_eq!(i8_decimal(42), "42");
    assert_eq!(i8_decimal(100), "100");
    assert_eq!(i8_decimal(127), "127");
    assert_eq!(i8_decimal(-1), "-1");
    assert_eq!(i8_decimal(-90), "-90");
    assert_eq!(i8_decimal(-128), "-128");
}

#[test]
fn decimal_matches_display_for_every_byte() {
    for n in i8::MIN..=i8::MAX {
        assert_eq!(i8_decimal(n), format!("{}", n));
    }
}

#[test]
fn verification_email_body() {
    let body = verification_email("Acme", "123456", "Ann", 5);
    assert_eq!(
        body,
        "Hello Ann,\n\nYour One-Time Password (OTP) for verification is: 123456\n\nThis code is valid for the next 5 minutes. Please do not share this code with anyone.\n\nIf you did not request this, please ignore this email.\n\nBest regards,\nAcme"
    );
}

#[test]
fn verification_email_with_negative_validity() {
    let body = verification_email("", "", "", -12);
    assert!(body.contains("the next -12 minutes."));
    assert!(body.starts_with("Hello ,\n\n"));
    assert!(body.ends_with("Best regards,\n"));
}

#[test]
fn user_exists_only_when_found() {
    assert!(if_user_exist(Presence::Present));
    assert!(!if_user_exist(Presence::Absent));
    assert!(!if_user_exist(Presence::Failed));
}

#[test]
fn joining_text() {
    assert_eq!(join2("ab", "cd"), "abcd");
    assert_eq!(join3("a", "", "c"), "ac");
}

#[test]
fn statements_text() {
    let q = DbQuery::PasswordHash { email: "a@b.c".to_string() };
    assert_eq!(q.sql(), "SELECT password FROM users WHERE email = $1 LIMIT 1;");
    let q = DbQuery::UserId { email: "a@b.c".to_string() };
    assert_eq!(q.sql(), "SELECT id FROM users WHERE email = $1;");
    let c = DbCommand::InsertUser {
        name: "n".to_string(),
        email: "e".to_string(),
        password_hash: "h".to_string(),
    };
    assert_eq!(c.sql(), "INSERT INTO users (name, email, password) VALUES ($1, $2, $3);");
    let c = DbCommand::UpdatePassword { password_hash: "h".to_string(), email: "e".to_string() };
    assert_eq!(c.sql(), "UPDATE users SET password = $1 WHERE email = $2;");
}

#[test]
fn fault_texts() {
    assert_eq!(Fault::CacheConnection.describe(), "Redis Failed!");
    assert_eq!(Fault::OutOfOrder.describe(), "an event came that does not answer the pending action");
    assert_eq!(Fault::PasswordHashing.describe(), "password hashing failed");
}
