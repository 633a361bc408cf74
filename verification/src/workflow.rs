//! The account workflows behind the sign-up, login, password-change and
//! password-recovery endpoints. Each endpoint is a `Route`; all of them run
//! the same sequence of phases, each phase present or absent by route:
//!
//! 1. a guard: the email must be unknown (sign-up), or the given password
//!    must match the stored hash (login, password change);
//! 2. a challenge: a one-time code, a link token, or a login token;
//! 3. hashing the chosen password and storing it (in the database or, until
//!    it is confirmed, in the cache);
//! 4. an email that carries the challenge;
//! 5. the answer to the client.
//!
//! `advance` is the decision procedure: from the phase a request is in and
//! the answer to the action it asked for, it picks the next phase and
//! action.

use vstd::prelude::*;
use crate::protocol::{
    answers, is_internal, Action, ActionV, DbCommand, DbCommandV, DbQuery, DbQueryV, EmailMessage, EmailV, Event, Fault,
    JsonBody, JsonBodyV, Lookup, Presence, Response, ResponseV, SignupV,
};
use crate::signup::TempSignup;
use crate::services::{access_token, link_token};
use crate::utils::{join2, join3};
use fr_rust::jwt::JwtService;
use fr_rust::linkv::LinkV;

verus! {

/// The endpoints that follow the account workflow.
#[derive(Clone, Copy, PartialEq, Eq, Structural, Debug)]
pub enum Route {
    Login,
    Login2,
    Login3,
    Login4,
    ChangePassword,
    ChangePassword2,
    ChangePassword3,
    ChangePassword4,
    ForgottenPassword,
    ForgottenPassword2,
    ForgottenPassword3,
    ForgottenPassword4,
    Signup,
    Signup2,
    Signup3,
    Signup4,
}

/// What must hold before a route does anything on the user's behalf.
#[derive(Clone, Copy, PartialEq, Eq, Structural, Debug)]
pub enum Guard {
    Open,
    NewAccount,
    Credentials,
}

/// The page that a link token is sent to.
#[derive(Clone, Copy, PartialEq, Eq, Structural, Debug)]
pub enum LinkPage {
    Verify,
    VerifyTwo,
}

/// What a route hands out once its guard has passed.
#[derive(Clone, Copy, PartialEq, Eq, Structural, Debug)]
pub enum Challenge {
    Nothing,
    Otp,
    Link(LinkPage),
    Access,
}

/// Where a pending password hash waits for its confirmation.
#[derive(Clone, Copy, PartialEq, Eq, Structural, Debug)]
pub enum CacheSlot {
    PendingPassword,
    ForgottenPassword,
}

/// What a route writes with the hash of the chosen password.
#[derive(Clone, Copy, PartialEq, Eq, Structural, Debug)]
pub enum Store {
    Nothing,
    UpdatePassword,
    InsertUser,
    CacheHash(CacheSlot),
    CacheSignup,
}

/// The parts of a request that the workflow reads: `password` is checked
/// against the stored hash, `new_password` is the one that gets hashed and
/// stored.
#[derive(Debug, PartialEq, Eq)]
pub struct Request {
    pub name: String,
    pub email: String,
    pub password: String,
    pub new_password: String,
}

pub struct RequestV {
    pub name: Seq<char>,
    pub email: Seq<char>,
    pub password: Seq<char>,
    pub new_password: Seq<char>,
}

impl View for Request {
    type V = RequestV;

    open spec fn view(&self) -> RequestV {
        RequestV {
            name: self.name@,
            email: self.email@,
            password: self.password@,
            new_password: self.new_password@,
        }
    }
}

/// The phase a request is in: which action it waits on. `code` is the
/// one-time code or the link that the email will carry (empty if none).
#[derive(Debug, PartialEq, Eq)]
pub enum Stage {
    Idle,
    AwaitUser,
    AwaitPasswordCheck,
    AwaitChallenge,
    AwaitHash { code: String },
    AwaitStore { code: String },
    AwaitEmail,
    Done,
}

pub enum StageV {
    Idle,
    AwaitUser,
    AwaitPasswordCheck,
    AwaitChallenge,
    AwaitHash { code: Seq<char> },
    AwaitStore { code: Seq<char> },
    AwaitEmail,
    Done,
}

impl View for Stage {
    type V = StageV;

    open spec fn view(&self) -> StageV {
        match self {
            Stage::Idle => StageV::Idle,
            Stage::AwaitUser => StageV::AwaitUser,
            Stage::AwaitPasswordCheck => StageV::AwaitPasswordCheck,
            Stage::AwaitChallenge => StageV::AwaitChallenge,
            Stage::AwaitHash { code } => StageV::AwaitHash { code: code@ },
            Stage::AwaitStore { code } => StageV::AwaitStore { code: code@ },
            Stage::AwaitEmail => StageV::AwaitEmail,
            Stage::Done => StageV::Done,
        }
    }
}

/// The next phase, and the action to take now.
#[derive(Debug, PartialEq, Eq)]
pub struct Transition {
    pub stage: Stage,
    pub action: Action,
}

pub struct TransitionV {
    pub stage: StageV,
    pub action: ActionV,
}

impl View for Transition {
    type V = TransitionV;

    open spec fn view(&self) -> TransitionV {
        TransitionV { stage: self.stage@, action: self.action@ }
    }
}

// ---------- what each route does ----------

pub open spec fn guard(r: Route) -> Guard {
    match r {
        Route::Login | Route::Login2 | Route::Login3 | Route::Login4 => Guard::Credentials,
        Route::ChangePassword | Route::ChangePassword2 | Route::ChangePassword3
        | Route::ChangePassword4 => Guard::Credentials,
        Route::ForgottenPassword | Route::ForgottenPassword2 | Route::ForgottenPassword3
        | Route::ForgottenPassword4 => Guard::Open,
        Route::Signup | Route::Signup2 | Route::Signup3 | Route::Signup4 => Guard::NewAccount,
    }
}

pub open spec fn challenge(r: Route) -> Challenge {
    match r {
        Route::Login => Challenge::Access,
        Route::ChangePassword | Route::ForgottenPassword | Route::Signup => Challenge::Nothing,
        Route::Login2 | Route::ChangePassword2 | Route::ForgottenPassword2 | Route::Signup2 => Challenge::Otp,
        Route::Login3 | Route::ChangePassword3 | Route::ForgottenPassword3 | Route::Signup3 => Challenge::Link(LinkPage::Verify),
        Route::Login4 | Route::ChangePassword4 | Route::ForgottenPassword4 | Route::Signup4 => Challenge::Link(LinkPage::VerifyTwo),
    }
}

pub open spec fn store(r: Route) -> Store {
    match r {
        Route::Login | Route::Login2 | Route::Login3 | Route::Login4 => Store::Nothing,
        Route::ChangePassword | Route::ForgottenPassword => Store::UpdatePassword,
        Route::ChangePassword2 | Route::ChangePassword3 | Route::ChangePassword4 => Store::CacheHash(CacheSlot::PendingPassword),
        Route::ForgottenPassword2 | Route::ForgottenPassword3 | Route::ForgottenPassword4 => Store::CacheHash(CacheSlot::ForgottenPassword),
        Route::Signup => Store::InsertUser,
        Route::Signup2 | Route::Signup3 | Route::Signup4 => Store::CacheSignup,
    }
}

/// Whether the answer depends on whether the email went out (the magic-link
/// and two-factor logins answer the same either way).
pub open spec fn email_decides(r: Route) -> bool {
    !(r == Route::Login2 || r == Route::Login3 || r == Route::Login4)
}

pub open spec fn not_found_text(r: Route) -> Seq<char> {
    if guard(r) == Guard::Credentials && store(r) == Store::Nothing {
        "User account does not exist."@
    } else {
        "User account not found."@
    }
}

pub open spec fn wrong_password_text(r: Route) -> Seq<char> {
    if r == Route::Login {
        "Invalid credentials structural validation."@
    } else if store(r) == Store::Nothing {
        "Invalid credentials."@
    } else {
        "Old password verification failed."@
    }
}

pub open spec fn user_exists_text() -> Seq<char> {
    "User already exists with this email."@
}

pub open spec fn login_complete_text() -> Seq<char> {
    "Login complete"@
}

pub open spec fn success_text(r: Route) -> Seq<char> {
    match r {
        Route::Login => ""@,
        Route::Login2 => "Verification OTP dispatched to registered destination info."@,
        Route::Login3 | Route::Login4 => "Magic login access hyperlink dispatched."@,
        Route::ChangePassword => "Password changed successfully!"@,
        Route::ChangePassword2 => "Password update initiated. Please check your email for the validation OTP!"@,
        Route::ChangePassword3 | Route::ChangePassword4 => "Authorization link has been dispatched to your email."@,
        Route::ForgottenPassword => "Your account password has been successfully reset!"@,
        Route::ForgottenPassword2 => "Password reset code triggered. Please inspect your inbox."@,
        Route::ForgottenPassword3 | Route::ForgottenPassword4 => "Recovery magic interface code successfully distributed via link address!"@,
        Route::Signup => "Registration successful!"@,
        Route::Signup2 => "OTP transmitted successfully! Please finalize via /verify-otp."@,
        Route::Signup3 | Route::Signup4 => "Activation link dispatched to email."@,
    }
}

pub open spec fn failure_text(r: Route) -> Seq<char> {
    match r {
        Route::Login | Route::Login2 | Route::Login3 | Route::Login4 => ""@,
        Route::ChangePassword => "Failed to update database record."@,
        Route::ChangePassword2 => "Failed to send verification email."@,
        Route::ChangePassword3 | Route::ChangePassword4 => "Could not dispatch authorization email."@,
        Route::ForgottenPassword => "Failed to complete password reset workflow in the system database."@,
        Route::ForgottenPassword2 => "Failed to emit recovery email data payload."@,
        Route::ForgottenPassword3 | Route::ForgottenPassword4 => "Failed to send link vector payload."@,
        Route::Signup => "Database insertion failed."@,
        Route::Signup2 => "Failed to emit signup OTP."@,
        Route::Signup3 | Route::Signup4 => "Could not dispatch activation link."@,
    }
}

pub open spec fn subject_text(r: Route) -> Seq<char> {
    match r {
        Route::Login2 => "2FA Login Challenge Code"@,
        Route::Login3 | Route::Login4 => "Magic Login Entry Node Link"@,
        Route::ChangePassword2 => "Confirm Password Change Request"@,
        Route::ChangePassword3 | Route::ChangePassword4 => "Authorize Password Modification"@,
        Route::ForgottenPassword2 => "Your Password Reset OTP Code"@,
        Route::ForgottenPassword3 | Route::ForgottenPassword4 => "Secure Recovery Password Link Request"@,
        Route::Signup2 => "Verify Account OTP"@,
        Route::Signup3 | Route::Signup4 => "Complete your Signup"@,
        _ => ""@,
    }
}

/// The email body is this text, the code, and `body_tail`.
pub open spec fn body_head(r: Route) -> Seq<char> {
    match r {
        Route::Login2 => "Your secure login entry phase security code is: "@,
        Route::Login3 | Route::Login4 => "Click here to access your session instantly: "@,
        Route::ChangePassword2 => "Use this code to finalize your password update: "@,
        Route::ChangePassword3 | Route::ChangePassword4 => "Click this secure node link to authorize your new account password: "@,
        Route::ForgottenPassword2 => "Your temporary recovery security verification code is: "@,
        Route::ForgottenPassword3 | Route::ForgottenPassword4 => "Click on the following address parameter route to finish changing your access token credentials: "@,
        Route::Signup2 => "Your registration security code is: "@,
        Route::Signup3 | Route::Signup4 => "Click this activation node link to finalize setup: "@,
        _ => ""@,
    }
}

pub open spec fn body_tail(r: Route) -> Seq<char> {
    match r {
        Route::ChangePassword2 => ". Valid for 5 minutes."@,
        Route::ForgottenPassword2 => ". Enter this to save your new password."@,
        Route::Signup2 => ". Valid for 5 mins."@,
        _ => ""@,
    }
}

pub open spec fn link_base(p: LinkPage) -> Seq<char> {
    match p {
        LinkPage::Verify => "https://example.com/verify?v="@,
        LinkPage::VerifyTwo => "https://example.com/verify-two?v="@,
    }
}

pub open spec fn slot_prefix(s: CacheSlot) -> Seq<char> {
    match s {
        CacheSlot::PendingPassword => "pending_pwd:"@,
        CacheSlot::ForgottenPassword => "forgot_pwd:"@,
    }
}

pub open spec fn signup_prefix() -> Seq<char> {
    "signup:"@
}

/// Codes are six digits, and codes, links and cached entries last five
/// minutes.
pub open spec fn otp_digits() -> u32 {
    6
}

pub open spec fn ttl() -> u64 {
    300
}

// ---------- the decision procedure, as a specification ----------

pub open spec fn finish(resp: ResponseV) -> TransitionV {
    TransitionV { stage: StageV::Done, action: ActionV::Respond(resp) }
}

pub open spec fn fail(f: Fault) -> TransitionV {
    TransitionV { stage: StageV::Done, action: ActionV::Abort(f) }
}

pub open spec fn email_spec(r: Route, q: RequestV, code: Seq<char>) -> TransitionV {
    TransitionV {
        stage: StageV::AwaitEmail,
        action: ActionV::SendEmail(
            EmailV { to: q.email, subject: subject_text(r), body: body_head(r) + code + body_tail(r) },
        ),
    }
}

pub open spec fn hash_spec(q: RequestV, code: Seq<char>) -> TransitionV {
    TransitionV {
        stage: StageV::AwaitHash { code },
        action: ActionV::HashPassword { password: q.new_password },
    }
}

pub open spec fn store_spec(r: Route, q: RequestV, code: Seq<char>, hash: Seq<char>) -> TransitionV {
    let next = StageV::AwaitStore { code };
    match store(r) {
        Store::UpdatePassword => TransitionV {
            stage: next,
            action: ActionV::Execute(DbCommandV::UpdatePassword { password_hash: hash, email: q.email }),
        },
        Store::InsertUser => TransitionV {
            stage: next,
            action: ActionV::Execute(
                DbCommandV::InsertUser { name: q.name, email: q.email, password_hash: hash },
            ),
        },
        Store::CacheHash(slot) => TransitionV {
            stage: next,
            action: ActionV::CacheText { key: slot_prefix(slot) + q.email, value: hash, ttl_secs: ttl() },
        },
        Store::CacheSignup => TransitionV {
            stage: next,
            action: ActionV::CacheSignup {
                key: signup_prefix() + q.email,
                record: SignupV { name: q.name, email: q.email, pwd: hash },
                ttl_secs: ttl(),
            },
        },
        Store::Nothing => fail(Fault::OutOfOrder),
    }
}

pub open spec fn after_challenge_spec(r: Route, q: RequestV, code: Seq<char>) -> TransitionV {
    if store(r) == Store::Nothing {
        email_spec(r, q, code)
    } else {
        hash_spec(q, code)
    }
}

pub open spec fn after_guard_spec(r: Route, q: RequestV) -> TransitionV {
    match challenge(r) {
        Challenge::Otp => TransitionV {
            stage: StageV::AwaitChallenge,
            action: ActionV::GenerateOtp { user_id: q.email, digits: otp_digits(), ttl_secs: ttl() },
        },
        Challenge::Link(_) => TransitionV {
            stage: StageV::AwaitChallenge,
            action: ActionV::IssueLinkToken { key: q.email, expiry_secs: ttl() as u32 },
        },
        Challenge::Access => TransitionV {
            stage: StageV::AwaitChallenge,
            action: ActionV::IssueAccessToken { subject: q.email },
        },
        Challenge::Nothing => hash_spec(q, Seq::empty()),
    }
}

pub open spec fn begin_spec(r: Route, q: RequestV) -> TransitionV {
    match guard(r) {
        Guard::NewAccount => TransitionV {
            stage: StageV::AwaitUser,
            action: ActionV::Lookup(DbQueryV::UserId { email: q.email }),
        },
        Guard::Credentials => TransitionV {
            stage: StageV::AwaitUser,
            action: ActionV::Lookup(DbQueryV::PasswordHash { email: q.email }),
        },
        Guard::Open => after_guard_spec(r, q),
    }
}

/// The outcome of a step whose success the client is told about.
pub open spec fn outcome(r: Route, succeeded: bool) -> TransitionV {
    if succeeded {
        finish(ResponseV::Plain(success_text(r)))
    } else {
        finish(ResponseV::BadRequest(failure_text(r)))
    }
}

/// The next phase and action of route `r` for request `q`, in phase `s`,
/// on event `e`. An event that does not answer the pending action ends the
/// request with `Fault::OutOfOrder`.
pub open spec fn advance_spec(r: Route, q: RequestV, s: StageV, e: Event) -> TransitionV {
    match s {
        StageV::Idle => match e {
            Event::Begin => begin_spec(r, q),
            _ => fail(Fault::OutOfOrder),
        },
        StageV::AwaitUser => match e {
            Event::UserPresence(p) if guard(r) == Guard::NewAccount => if p == Presence::Present {
                finish(ResponseV::BadRequest(user_exists_text()))
            } else {
                after_guard_spec(r, q)
            },
            Event::PasswordRow(row) if guard(r) == Guard::Credentials => match row {
                Lookup::Found(hash) => TransitionV {
                    stage: StageV::AwaitPasswordCheck,
                    action: ActionV::VerifyPassword { password: q.password, hash: hash@ },
                },
                _ => finish(ResponseV::BadRequest(not_found_text(r))),
            },
            _ => fail(Fault::OutOfOrder),
        },
        StageV::AwaitPasswordCheck => match e {
            Event::PasswordChecked(checked) if guard(r) == Guard::Credentials => if checked == Ok::<bool, ()>(true) {
                after_guard_spec(r, q)
            } else {
                finish(ResponseV::BadRequest(wrong_password_text(r)))
            },
            _ => fail(Fault::OutOfOrder),
        },
        StageV::AwaitChallenge => match (challenge(r), e) {
            (Challenge::Otp, Event::OtpIssued(issued)) => match issued {
                Ok(otp) => after_challenge_spec(r, q, otp@),
                Err(_) => fail(Fault::OtpGeneration),
            },
            (Challenge::Link(page), Event::LinkIssued(issued)) => match issued {
                Ok(token) => after_challenge_spec(r, q, link_base(page) + token@),
                Err(_) => fail(Fault::LinkToken),
            },
            (Challenge::Access, Event::AccessIssued(issued)) => match issued {
                Ok(token) => finish(
                    ResponseV::Json(JsonBodyV::Token { token: token@, message: login_complete_text() }),
                ),
                Err(_) => fail(Fault::AccessToken),
            },
            _ => fail(Fault::OutOfOrder),
        },
        StageV::AwaitHash { code } => match e {
            Event::Hashed(hashed) => match hashed {
                Ok(hash) => store_spec(r, q, code, hash@),
                Err(_) => fail(Fault::PasswordHashing),
            },
            _ => fail(Fault::OutOfOrder),
        },
        StageV::AwaitStore { code } => match e {
            Event::Executed(ok) if store(r) == Store::UpdatePassword || store(r) == Store::InsertUser =>
                outcome(r, ok),
            Event::Cached(connected) if store(r) is CacheHash || store(r) == Store::CacheSignup =>
                if connected {
                    email_spec(r, q, code)
                } else {
                    fail(Fault::CacheConnection)
                },
            _ => fail(Fault::OutOfOrder),
        },
        StageV::AwaitEmail => match e {
            Event::EmailSent(sent) => outcome(r, sent || !email_decides(r)),
            _ => fail(Fault::OutOfOrder),
        },
        StageV::Done => fail(Fault::OutOfOrder),
    }
}

// ---------- the decision procedure ----------

fn guard_of(r: Route) -> (g: Guard)
    ensures
        g == guard(r),
{
    match r {
        Route::Login | Route::Login2 | Route::Login3 | Route::Login4 => Guard::Credentials,
        Route::ChangePassword | Route::ChangePassword2 | Route::ChangePassword3
        | Route::ChangePassword4 => Guard::Credentials,
        Route::ForgottenPassword | Route::ForgottenPassword2 | Route::ForgottenPassword3
        | Route::ForgottenPassword4 => Guard::Open,
        Route::Signup | Route::Signup2 | Route::Signup3 | Route::Signup4 => Guard::NewAccount,
    }
}

fn challenge_of(r: Route) -> (c: Challenge)
    ensures
        c == challenge(r),
{
    match r {
        Route::Login => Challenge::Access,
        Route::ChangePassword | Route::ForgottenPassword | Route::Signup => Challenge::Nothing,
        Route::Login2 | Route::ChangePassword2 | Route::ForgottenPassword2 | Route::Signup2 => Challenge::Otp,
        Route::Login3 | Route::ChangePassword3 | Route::ForgottenPassword3 | Route::Signup3 => Challenge::Link(LinkPage::Verify),
        Route::Login4 | Route::ChangePassword4 | Route::ForgottenPassword4 | Route::Signup4 => Challenge::Link(LinkPage::VerifyTwo),
    }
}

fn store_of(r: Route) -> (st: Store)
    ensures
        st == store(r),
{
    match r {
        Route::Login | Route::Login2 | Route::Login3 | Route::Login4 => Store::Nothing,
        Route::ChangePassword | Route::ForgottenPassword => Store::UpdatePassword,
        Route::ChangePassword2 | Route::ChangePassword3 | Route::ChangePassword4 => Store::CacheHash(CacheSlot::PendingPassword),
        Route::ForgottenPassword2 | Route::ForgottenPassword3 | Route::ForgottenPassword4 => Store::CacheHash(CacheSlot::ForgottenPassword),
        Route::Signup => Store::InsertUser,
        Route::Signup2 | Route::Signup3 | Route::Signup4 => Store::CacheSignup,
    }
}

fn not_found_message(r: Route) -> (m: &'static str)
    ensures
        m@ == not_found_text(r),
{
    match r {
        Route::Login | Route::Login2 | Route::Login3 | Route::Login4 => "User account does not exist.",
        _ => "User account not found.",
    }
}

fn wrong_password_message(r: Route) -> (m: &'static str)
    ensures
        m@ == wrong_password_text(r),
{
    match r {
        Route::Login => "Invalid credentials structural validation.",
        Route::Login2 | Route::Login3 | Route::Login4 => "Invalid credentials.",
        _ => "Old password verification failed.",
    }
}

fn success_message(r: Route) -> (m: &'static str)
    ensures
        m@ == success_text(r),
{
    match r {
        Route::Login => "",
        Route::Login2 => "Verification OTP dispatched to registered destination info.",
        Route::Login3 | Route::Login4 => "Magic login access hyperlink dispatched.",
        Route::ChangePassword => "Password changed successfully!",
        Route::ChangePassword2 => "Password update initiated. Please check your email for the validation OTP!",
        Route::ChangePassword3 | Route::ChangePassword4 => "Authorization link has been dispatched to your email.",
        Route::ForgottenPassword => "Your account password has been successfully reset!",
        Route::ForgottenPassword2 => "Password reset code triggered. Please inspect your inbox.",
        Route::ForgottenPassword3 | Route::ForgottenPassword4 => "Recovery magic interface code successfully distributed via link address!",
        Route::Signup => "Registration successful!",
        Route::Signup2 => "OTP transmitted successfully! Please finalize via /verify-otp.",
        Route::Signup3 | Route::Signup4 => "Activation link dispatched to email.",
    }
}

fn failure_message(r: Route) -> (m: &'static str)
    ensures
        m@ == failure_text(r),
{
    match r {
        Route::Login | Route::Login2 | Route::Login3 | Route::Login4 => "",
        Route::ChangePassword => "Failed to update database record.",
        Route::ChangePassword2 => "Failed to send verification email.",
        Route::ChangePassword3 | Route::ChangePassword4 => "Could not dispatch authorization email.",
        Route::ForgottenPassword => "Failed to complete password reset workflow in the system database.",
        Route::ForgottenPassword2 => "Failed to emit recovery email data payload.",
        Route::ForgottenPassword3 | Route::ForgottenPassword4 => "Failed to send link vector payload.",
        Route::Signup => "Database insertion failed.",
        Route::Signup2 => "Failed to emit signup OTP.",
        Route::Signup3 | Route::Signup4 => "Could not dispatch activation link.",
    }
}

fn subject_line(r: Route) -> (m: &'static str)
    ensures
        m@ == subject_text(r),
{
    match r {
        Route::Login2 => "2FA Login Challenge Code",
        Route::Login3 | Route::Login4 => "Magic Login Entry Node Link",
        Route::ChangePassword2 => "Confirm Password Change Request",
        Route::ChangePassword3 | Route::ChangePassword4 => "Authorize Password Modification",
        Route::ForgottenPassword2 => "Your Password Reset OTP Code",
        Route::ForgottenPassword3 | Route::ForgottenPassword4 => "Secure Recovery Password Link Request",
        Route::Signup2 => "Verify Account OTP",
        Route::Signup3 | Route::Signup4 => "Complete your Signup",
        _ => "",
    }
}

fn body_start(r: Route) -> (m: &'static str)
    ensures
        m@ == body_head(r),
{
    match r {
        Route::Login2 => "Your secure login entry phase security code is: ",
        Route::Login3 | Route::Login4 => "Click here to access your session instantly: ",
        Route::ChangePassword2 => "Use this code to finalize your password update: ",
        Route::ChangePassword3 | Route::ChangePassword4 => "Click this secure node link to authorize your new account password: ",
        Route::ForgottenPassword2 => "Your temporary recovery security verification code is: ",
        Route::ForgottenPassword3 | Route::ForgottenPassword4 => "Click on the following address parameter route to finish changing your access token credentials: ",
        Route::Signup2 => "Your registration security code is: ",
        Route::Signup3 | Route::Signup4 => "Click this activation node link to finalize setup: ",
        _ => "",
    }
}

fn body_end(r: Route) -> (m: &'static str)
    ensures
        m@ == body_tail(r),
{
    match r {
        Route::ChangePassword2 => ". Valid for 5 minutes.",
        Route::ForgottenPassword2 => ". Enter this to save your new password.",
        Route::Signup2 => ". Valid for 5 mins.",
        _ => "",
    }
}

fn link_prefix(p: LinkPage) -> (m: &'static str)
    ensures
        m@ == link_base(p),
{
    match p {
        LinkPage::Verify => "https://example.com/verify?v=",
        LinkPage::VerifyTwo => "https://example.com/verify-two?v=",
    }
}

fn slot_key_prefix(s: CacheSlot) -> (m: &'static str)
    ensures
        m@ == slot_prefix(s),
{
    match s {
        CacheSlot::PendingPassword => "pending_pwd:",
        CacheSlot::ForgottenPassword => "forgot_pwd:",
    }
}

fn finish_with(resp: Response) -> (t: Transition)
    ensures
        t@ == finish(resp@),
{
    Transition { stage: Stage::Done, action: Action::Respond(resp) }
}

fn fail_with(f: Fault) -> (t: Transition)
    ensures
        t@ == fail(f),
{
    Transition { stage: Stage::Done, action: Action::Abort(f) }
}

fn outcome_of(r: Route, succeeded: bool) -> (t: Transition)
    ensures
        t@ == outcome(r, succeeded),
{
    if succeeded {
        finish_with(Response::Plain(String::from_str(success_message(r))))
    } else {
        finish_with(Response::BadRequest(String::from_str(failure_message(r))))
    }
}

fn email_step(r: Route, q: &Request, code: &str) -> (t: Transition)
    ensures
        t@ == email_spec(r, q@, code@),
{
    let message = EmailMessage {
        to: q.email.clone(),
        subject: String::from_str(subject_line(r)),
        body: join3(body_start(r), code, body_end(r)),
    };
    Transition { stage: Stage::AwaitEmail, action: Action::SendEmail(message) }
}

fn hash_step(q: &Request, code: String) -> (t: Transition)
    ensures
        t@ == hash_spec(q@, code@),
{
    Transition {
        stage: Stage::AwaitHash { code },
        action: Action::HashPassword { password: q.new_password.clone() },
    }
}

fn store_step(r: Route, q: &Request, code: String, hash: String) -> (t: Transition)
    ensures
        t@ == store_spec(r, q@, code@, hash@),
{
    match store_of(r) {
        Store::UpdatePassword => Transition {
            stage: Stage::AwaitStore { code },
            action: Action::Execute(
                DbCommand::UpdatePassword { password_hash: hash, email: q.email.clone() },
            ),
        },
        Store::InsertUser => Transition {
            stage: Stage::AwaitStore { code },
            action: Action::Execute(
                DbCommand::InsertUser { name: q.name.clone(), email: q.email.clone(), password_hash: hash },
            ),
        },
        Store::CacheHash(slot) => Transition {
            stage: Stage::AwaitStore { code },
            action: Action::CacheText {
                key: join2(slot_key_prefix(slot), q.email.as_str()),
                value: hash,
                ttl_secs: 300,
            },
        },
        Store::CacheSignup => Transition {
            stage: Stage::AwaitStore { code },
            action: Action::CacheSignup {
                key: join2("signup:", q.email.as_str()),
                record: TempSignup { name: q.name.clone(), email: q.email.clone(), pwd: hash },
                ttl_secs: 300,
            },
        },
        Store::Nothing => fail_with(Fault::OutOfOrder),
    }
}

fn after_challenge(r: Route, q: &Request, code: String) -> (t: Transition)
    ensures
        t@ == after_challenge_spec(r, q@, code@),
{
    match store_of(r) {
        Store::Nothing => email_step(r, q, code.as_str()),
        _ => hash_step(q, code),
    }
}

fn after_guard(r: Route, q: &Request) -> (t: Transition)
    ensures
        t@ == after_guard_spec(r, q@),
{
    match challenge_of(r) {
        Challenge::Otp => Transition {
            stage: Stage::AwaitChallenge,
            action: Action::GenerateOtp { user_id: q.email.clone(), digits: 6, ttl_secs: 300 },
        },
        Challenge::Link(_) => Transition {
            stage: Stage::AwaitChallenge,
            action: Action::IssueLinkToken { key: q.email.clone(), expiry_secs: 300 },
        },
        Challenge::Access => Transition {
            stage: Stage::AwaitChallenge,
            action: Action::IssueAccessToken { subject: q.email.clone() },
        },
        Challenge::Nothing => hash_step(q, String::new()),
    }
}

fn begin(r: Route, q: &Request) -> (t: Transition)
    ensures
        t@ == begin_spec(r, q@),
{
    match guard_of(r) {
        Guard::NewAccount => Transition {
            stage: Stage::AwaitUser,
            action: Action::Lookup(DbQuery::UserId { email: q.email.clone() }),
        },
        Guard::Credentials => Transition {
            stage: Stage::AwaitUser,
            action: Action::Lookup(DbQuery::PasswordHash { email: q.email.clone() }),
        },
        Guard::Open => after_guard(r, q),
    }
}

/// The next phase and action of route `r` for request `q`, in phase `s`,
/// on event `e`.
pub fn advance(r: Route, q: &Request, s: &Stage, e: Event) -> (t: Transition)
    ensures
        t@ == advance_spec(r, q@, s@, e),
{
    match s {
        Stage::Idle => match e {
            Event::Begin => begin(r, q),
            _ => fail_with(Fault::OutOfOrder),
        },
        Stage::AwaitUser => {
            let g = guard_of(r);
            match e {
                Event::UserPresence(p) if g == Guard::NewAccount => {
                    if p == Presence::Present {
                        finish_with(Response::BadRequest(String::from_str("User already exists with this email.")))
                    } else {
                        after_guard(r, q)
                    }
                },
                Event::PasswordRow(row) if g == Guard::Credentials => match row {
                    Lookup::Found(hash) => Transition {
                        stage: Stage::AwaitPasswordCheck,
                        action: Action::VerifyPassword { password: q.password.clone(), hash },
                    },
                    _ => finish_with(Response::BadRequest(String::from_str(not_found_message(r)))),
                },
                _ => fail_with(Fault::OutOfOrder),
            }
        },
        Stage::AwaitPasswordCheck => match e {
            Event::PasswordChecked(checked) if guard_of(r) == Guard::Credentials => {
                let passed = match checked {
                    Ok(true) => true,
                    _ => false,
                };
                if passed {
                    after_guard(r, q)
                } else {
                    finish_with(Response::BadRequest(String::from_str(wrong_password_message(r))))
                }
            },
            _ => fail_with(Fault::OutOfOrder),
        },
        Stage::AwaitChallenge => match (challenge_of(r), e) {
            (Challenge::Otp, Event::OtpIssued(issued)) => match issued {
                Ok(otp) => after_challenge(r, q, otp),
                Err(_) => fail_with(Fault::OtpGeneration),
            },
            (Challenge::Link(page), Event::LinkIssued(issued)) => match issued {
                Ok(token) => after_challenge(r, q, join2(link_prefix(page), token.as_str())),
                Err(_) => fail_with(Fault::LinkToken),
            },
            (Challenge::Access, Event::AccessIssued(issued)) => match issued {
                Ok(token) => finish_with(
                    Response::Json(JsonBody::Token { token, message: String::from_str("Login complete") }),
                ),
                Err(_) => fail_with(Fault::AccessToken),
            },
            _ => fail_with(Fault::OutOfOrder),
        },
        Stage::AwaitHash { code } => match e {
            Event::Hashed(hashed) => match hashed {
                Ok(hash) => store_step(r, q, code.clone(), hash),
                Err(_) => fail_with(Fault::PasswordHashing),
            },
            _ => fail_with(Fault::OutOfOrder),
        },
        Stage::AwaitStore { code } => {
            let st = store_of(r);
            match e {
                Event::Executed(ok) if st == Store::UpdatePassword || st == Store::InsertUser =>
                    outcome_of(r, ok),
                Event::Cached(connected) if st == Store::CacheSignup
                    || st == Store::CacheHash(CacheSlot::PendingPassword)
                    || st == Store::CacheHash(CacheSlot::ForgottenPassword) => {
                    if connected {
                        email_step(r, q, code.as_str())
                    } else {
                        fail_with(Fault::CacheConnection)
                    }
                },
                _ => fail_with(Fault::OutOfOrder),
            }
        },
        Stage::AwaitEmail => match e {
            Event::EmailSent(sent) => {
                let decides = match r {
                    Route::Login2 | Route::Login3 | Route::Login4 => false,
                    _ => true,
                };
                outcome_of(r, sent || !decides)
            },
            _ => fail_with(Fault::OutOfOrder),
        },
        Stage::Done => fail_with(Fault::OutOfOrder),
    }
}

// ---------- answering the token requests through the outside crate ----------

/// `t` is what follows `t0` once an action in it that this library answers
/// itself has been answered by some outcome of the outside crate; `t0`
/// itself if it holds no such action.
pub open spec fn settles(r: Route, q: RequestV, t0: TransitionV, t: TransitionV) -> bool {
    if is_internal(t0.action) {
        exists|e: Event| answers(t0.action, e) && t == advance_spec(r, q, t0.stage, e)
    } else {
        t == t0
    }
}

/// Advances, and answers a link-token request that comes out of it through
/// `linkv`.
pub(crate) fn advance_with_link(linkv: &LinkV, r: Route, q: &Request, s: &Stage, e: Event) -> (t: Transition)
    requires
        challenge(r) is Link,
    ensures
        settles(r, q@, advance_spec(r, q@, s@, e), t@),
{
    let t0 = advance(r, q, s, e);
    match t0.action {
        Action::IssueLinkToken { key, expiry_secs } => {
            let issued = link_token(linkv, key.as_str(), expiry_secs);
            let e = Event::LinkIssued(issued);
            assert(answers(t0@.action, e));
            advance(r, q, &t0.stage, e)
        },
        _ => t0,
    }
}

/// Advances, and answers a login-token request that comes out of it
/// through `jwt`.
pub(crate) fn advance_with_access(jwt: &JwtService, r: Route, q: &Request, s: &Stage, e: Event) -> (t: Transition)
    requires
        challenge(r) == Challenge::Access,
    ensures
        settles(r, q@, advance_spec(r, q@, s@, e), t@),
{
    let t0 = advance(r, q, s, e);
    match t0.action {
        Action::IssueAccessToken { subject } => {
            let issued = access_token(jwt, subject.as_str());
            let e = Event::AccessIssued(issued);
            assert(answers(t0@.action, e));
            advance(r, q, &t0.stage, e)
        },
        _ => t0,
    }
}

} // verus!
