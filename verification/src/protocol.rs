//! The vocabulary that a request handler of this library shares with the
//! code that runs it: the actions it asks for, the events that answer them,
//! and the answers it finally gives to the client.

use vstd::prelude::*;
use crate::services::token_subject;
use crate::signup::TempSignup;

verus! {

/// Why a handler stops without answering the client: a service that the
/// workflow cannot do without failed, or an event came that does not answer
/// the pending action.
#[derive(Clone, Copy, PartialEq, Eq, Structural, Debug)]
pub enum Fault {
    PasswordHashing,
    OtpGeneration,
    LinkToken,
    AccessToken,
    CacheConnection,
    OutOfOrder,
}

impl Fault {
    /// The text with which the server gives up on the request.
    pub fn describe(&self) -> (s: &'static str)
        ensures
            s@ == fault_text(*self),
    {
        match self {
            Fault::PasswordHashing => "password hashing failed",
            Fault::OtpGeneration => "one-time code generation failed",
            Fault::LinkToken => "link token generation failed",
            Fault::AccessToken => "access token generation failed",
            Fault::CacheConnection => "Redis Failed!",
            Fault::OutOfOrder => "an event came that does not answer the pending action",
        }
    }
}

pub open spec fn fault_text(f: Fault) -> Seq<char> {
    match f {
        Fault::PasswordHashing => "password hashing failed"@,
        Fault::OtpGeneration => "one-time code generation failed"@,
        Fault::LinkToken => "link token generation failed"@,
        Fault::AccessToken => "access token generation failed"@,
        Fault::CacheConnection => "Redis Failed!"@,
        Fault::OutOfOrder => "an event came that does not answer the pending action"@,
    }
}

/// What a query for a user's row gave when only its presence matters.
#[derive(Clone, Copy, PartialEq, Eq, Structural, Debug)]
pub enum Presence {
    Present,
    Absent,
    Failed,
}

/// What a query for a user's stored password hash gave.
#[derive(Debug, PartialEq, Eq)]
pub enum Lookup {
    Found(String),
    Absent,
    Failed,
}

/// A read of the `users` table.
#[derive(Debug, PartialEq, Eq)]
pub enum DbQuery {
    UserId { email: String },
    PasswordHash { email: String },
}

/// A write to the `users` table.
#[derive(Debug, PartialEq, Eq)]
pub enum DbCommand {
    InsertUser { name: String, email: String, password_hash: String },
    UpdatePassword { password_hash: String, email: String },
}

pub open spec fn query_sql(q: DbQueryV) -> Seq<char> {
    match q {
        DbQueryV::UserId { .. } => "SELECT id FROM users WHERE email = $1;"@,
        DbQueryV::PasswordHash { .. } => "SELECT password FROM users WHERE email = $1 LIMIT 1;"@,
    }
}

pub open spec fn command_sql(c: DbCommandV) -> Seq<char> {
    match c {
        DbCommandV::InsertUser { .. } => "INSERT INTO users (name, email, password) VALUES ($1, $2, $3);"@,
        DbCommandV::UpdatePassword { .. } => "UPDATE users SET password = $1 WHERE email = $2;"@,
    }
}

/// The statements run against the `users` table, whatever the values they
/// carry: the sign-ups look up the id of the row with the email, the
/// password checks read its stored hash, a sign-up inserts the name, email
/// and hash in that order, and a password change or reset sets the hash of
/// the row with the email.
pub proof fn statement_texts(name: Seq<char>, email: Seq<char>, hash: Seq<char>)
    ensures
        query_sql((DbQueryV::UserId { email })) == "SELECT id FROM users WHERE email = $1;"@,
        query_sql((DbQueryV::PasswordHash { email })) == "SELECT password FROM users WHERE email = $1 LIMIT 1;"@,
        command_sql((DbCommandV::InsertUser { name, email, password_hash: hash }))
            == "INSERT INTO users (name, email, password) VALUES ($1, $2, $3);"@,
        command_sql((DbCommandV::UpdatePassword { password_hash: hash, email }))
            == "UPDATE users SET password = $1 WHERE email = $2;"@,
{
}

impl DbQuery {
    /// The statement text; its one parameter is the email.
    pub fn sql(&self) -> (s: &'static str)
        ensures
            s@ == query_sql(self@),
    {
        match self {
            DbQuery::UserId { .. } => "SELECT id FROM users WHERE email = $1;",
            DbQuery::PasswordHash { .. } => "SELECT password FROM users WHERE email = $1 LIMIT 1;",
        }
    }
}

impl DbCommand {
    /// The statement text; its parameters are the fields in the order the
    /// variant declares them.
    pub fn sql(&self) -> (s: &'static str)
        ensures
            s@ == command_sql(self@),
    {
        match self {
            DbCommand::InsertUser { .. } => "INSERT INTO users (name, email, password) VALUES ($1, $2, $3);",
            DbCommand::UpdatePassword { .. } => "UPDATE users SET password = $1 WHERE email = $2;",
        }
    }
}

/// An email to send.
#[derive(Debug, PartialEq, Eq)]
pub struct EmailMessage {
    pub to: String,
    pub subject: String,
    pub body: String,
}

/// The JSON objects that handlers answer with.
#[derive(Debug, PartialEq, Eq)]
pub enum JsonBody {
    /// `{"token": .., "message": ..}`
    Token { token: String, message: String },
    /// `{"success": true, "message": .., "login_token": ..}`
    Session { message: String, login_token: String },
    /// `{"success": false, "error": ..}`
    Rejected { error: String },
}

/// The answer to the client.
#[derive(Debug, PartialEq, Eq)]
pub enum Response {
    /// 200 with a plain-text message.
    Plain(String),
    /// 400 with a plain-text message.
    BadRequest(String),
    /// 200 with a JSON object.
    Json(JsonBody),
    /// 400 with a JSON object.
    BadRequestJson(JsonBody),
    /// 200 with an HTML page.
    Html(String),
}

/// What a handler asks for next.
#[derive(Debug, PartialEq, Eq)]
pub enum Action {
    Lookup(DbQuery),
    Execute(DbCommand),
    VerifyPassword { password: String, hash: String },
    HashPassword { password: String },
    GenerateOtp { user_id: String, digits: u32, ttl_secs: u64 },
    VerifyOtp { key: String, otp: String },
    CacheText { key: String, value: String, ttl_secs: u64 },
    CacheSignup { key: String, record: TempSignup, ttl_secs: u64 },
    SendEmail(EmailMessage),
    Respond(Response),
    Abort(Fault),
    /// Answered inside this library: a link token for `key`.
    IssueLinkToken { key: String, expiry_secs: u32 },
    /// Answered inside this library: a login token for `subject`.
    IssueAccessToken { subject: String },
    /// Answered inside this library: the subject that a token names.
    ReadTokenSubject { token: String },
    /// Answered inside this library: whether a link token is valid.
    CheckLinkToken { token: String },
}

/// The answer to the pending action (or `Begin`, which starts a handler).
#[derive(Debug, PartialEq, Eq)]
pub enum Event {
    Begin,
    UserPresence(Presence),
    PasswordRow(Lookup),
    PasswordChecked(Result<bool, ()>),
    Hashed(Result<String, ()>),
    OtpIssued(Result<String, ()>),
    OtpChecked(Result<bool, ()>),
    /// Whether the database write succeeded.
    Executed(bool),
    /// Whether a cache connection was obtained (the write's own result is
    /// not looked at).
    Cached(bool),
    EmailSent(bool),
    LinkIssued(Result<String, ()>),
    AccessIssued(Result<String, ()>),
    SubjectRead(Result<String, ()>),
    LinkChecked(Result<bool, ()>),
}

// ---------- mathematical views ----------

pub enum DbQueryV {
    UserId { email: Seq<char> },
    PasswordHash { email: Seq<char> },
}

pub enum DbCommandV {
    InsertUser { name: Seq<char>, email: Seq<char>, password_hash: Seq<char> },
    UpdatePassword { password_hash: Seq<char>, email: Seq<char> },
}

pub struct EmailV {
    pub to: Seq<char>,
    pub subject: Seq<char>,
    pub body: Seq<char>,
}

pub struct SignupV {
    pub name: Seq<char>,
    pub email: Seq<char>,
    pub pwd: Seq<char>,
}

pub enum JsonBodyV {
    Token { token: Seq<char>, message: Seq<char> },
    Session { message: Seq<char>, login_token: Seq<char> },
    Rejected { error: Seq<char> },
}

pub enum ResponseV {
    Plain(Seq<char>),
    BadRequest(Seq<char>),
    Json(JsonBodyV),
    BadRequestJson(JsonBodyV),
    Html(Seq<char>),
}

pub enum ActionV {
    Lookup(DbQueryV),
    Execute(DbCommandV),
    VerifyPassword { password: Seq<char>, hash: Seq<char> },
    HashPassword { password: Seq<char> },
    GenerateOtp { user_id: Seq<char>, digits: u32, ttl_secs: u64 },
    VerifyOtp { key: Seq<char>, otp: Seq<char> },
    CacheText { key: Seq<char>, value: Seq<char>, ttl_secs: u64 },
    CacheSignup { key: Seq<char>, record: SignupV, ttl_secs: u64 },
    SendEmail(EmailV),
    Respond(ResponseV),
    Abort(Fault),
    IssueLinkToken { key: Seq<char>, expiry_secs: u32 },
    IssueAccessToken { subject: Seq<char> },
    ReadTokenSubject { token: Seq<char> },
    CheckLinkToken { token: Seq<char> },
}

impl View for DbQuery {
    type V = DbQueryV;

    open spec fn view(&self) -> DbQueryV {
        match self {
            DbQuery::UserId { email } => DbQueryV::UserId { email: email@ },
            DbQuery::PasswordHash { email } => DbQueryV::PasswordHash { email: email@ },
        }
    }
}

impl View for DbCommand {
    type V = DbCommandV;

    open spec fn view(&self) -> DbCommandV {
        match self {
            DbCommand::InsertUser { name, email, password_hash } => DbCommandV::InsertUser {
                name: name@,
                email: email@,
                password_hash: password_hash@,
            },
            DbCommand::UpdatePassword { password_hash, email } => DbCommandV::UpdatePassword {
                password_hash: password_hash@,
                email: email@,
            },
        }
    }
}

impl View for EmailMessage {
    type V = EmailV;

    open spec fn view(&self) -> EmailV {
        EmailV { to: self.to@, subject: self.subject@, body: self.body@ }
    }
}

impl View for TempSignup {
    type V = SignupV;

    open spec fn view(&self) -> SignupV {
        SignupV { name: self.name@, email: self.email@, pwd: self.pwd@ }
    }
}

impl View for JsonBody {
    type V = JsonBodyV;

    open spec fn view(&self) -> JsonBodyV {
        match self {
            JsonBody::Token { token, message } => JsonBodyV::Token { token: token@, message: message@ },
            JsonBody::Session { message, login_token } => JsonBodyV::Session {
                message: message@,
                login_token: login_token@,
            },
            JsonBody::Rejected { error } => JsonBodyV::Rejected { error: error@ },
        }
    }
}

impl View for Response {
    type V = ResponseV;

    open spec fn view(&self) -> ResponseV {
        match self {
            Response::Plain(m) => ResponseV::Plain(m@),
            Response::BadRequest(m) => ResponseV::BadRequest(m@),
            Response::Json(b) => ResponseV::Json(b@),
            Response::BadRequestJson(b) => ResponseV::BadRequestJson(b@),
            Response::Html(p) => ResponseV::Html(p@),
        }
    }
}

impl View for Action {
    type V = ActionV;

    open spec fn view(&self) -> ActionV {
        match self {
            Action::Lookup(q) => ActionV::Lookup(q@),
            Action::Execute(c) => ActionV::Execute(c@),
            Action::VerifyPassword { password, hash } => ActionV::VerifyPassword {
                password: password@,
                hash: hash@,
            },
            Action::HashPassword { password } => ActionV::HashPassword { password: password@ },
            Action::GenerateOtp { user_id, digits, ttl_secs } => ActionV::GenerateOtp {
                user_id: user_id@,
                digits: *digits,
                ttl_secs: *ttl_secs,
            },
            Action::VerifyOtp { key, otp } => ActionV::VerifyOtp { key: key@, otp: otp@ },
            Action::CacheText { key, value, ttl_secs } => ActionV::CacheText {
                key: key@,
                value: value@,
                ttl_secs: *ttl_secs,
            },
            Action::CacheSignup { key, record, ttl_secs } => ActionV::CacheSignup {
                key: key@,
                record: record@,
                ttl_secs: *ttl_secs,
            },
            Action::SendEmail(m) => ActionV::SendEmail(m@),
            Action::Respond(r) => ActionV::Respond(r@),
            Action::Abort(f) => ActionV::Abort(*f),
            Action::IssueLinkToken { key, expiry_secs } => ActionV::IssueLinkToken {
                key: key@,
                expiry_secs: *expiry_secs,
            },
            Action::IssueAccessToken { subject } => ActionV::IssueAccessToken { subject: subject@ },
            Action::ReadTokenSubject { token } => ActionV::ReadTokenSubject { token: token@ },
            Action::CheckLinkToken { token } => ActionV::CheckLinkToken { token: token@ },
        }
    }
}

/// The view of a service result that carries text.
pub open spec fn text_result(r: Result<String, ()>) -> Result<Seq<char>, ()> {
    match r {
        Ok(s) => Ok(s@),
        Err(()) => Err(()),
    }
}

/// Actions that this library answers itself, through the outside crate.
pub open spec fn is_internal(a: ActionV) -> bool {
    ||| a is IssueLinkToken
    ||| a is IssueAccessToken
    ||| a is ReadTokenSubject
    ||| a is CheckLinkToken
}

/// `e` is a possible answer of the outside crate to the internal action `a`:
/// a token or subject, when there is one, is tied to what was asked.
pub open spec fn answers(a: ActionV, e: Event) -> bool {
    match a {
        ActionV::IssueLinkToken { key, .. } => match e {
            Event::LinkIssued(issued) => issued matches Ok(token) ==> token_subject(token@) == key,
            _ => false,
        },
        ActionV::IssueAccessToken { subject } => match e {
            Event::AccessIssued(issued) => issued matches Ok(token) ==> token_subject(token@) == subject,
            _ => false,
        },
        ActionV::ReadTokenSubject { token } => match e {
            Event::SubjectRead(read) => read matches Ok(subject) ==> subject@ == token_subject(token),
            _ => false,
        },
        ActionV::CheckLinkToken { .. } => match e {
            Event::LinkChecked(checked) => checked matches Ok(valid) ==> valid,
            _ => false,
        },
        _ => false,
    }
}

/// Actions after which the handler is over.
pub open spec fn is_final(a: ActionV) -> bool {
    a is Respond || a is Abort
}

} // verus!
