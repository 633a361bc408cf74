//! The endpoints that finish a login begun elsewhere: with a one-time code
//! (`verify_otp_route`), or with a link token sent by email, which either
//! logs in at once (`verify_route`) or leads to a one-time code and a form
//! to enter it (`verify_two_route`).

use vstd::prelude::*;
use crate::protocol::{
    answers, is_final, is_internal, Action, ActionV, EmailMessage, EmailV, Event, Fault, JsonBody, JsonBodyV,
    Response, ResponseV,
};
use crate::services::{access_token, check_link, read_subject, token_subject};
use crate::utils::join3;
use fr_rust::jwt::JwtService;
use fr_rust::linkv::LinkV;

verus! {

/// The query of `/verify?v=<token>` and `/verify-two?v=<token>`.
#[derive(Debug, PartialEq, Eq)]
pub struct TokenQuery {
    v: String,
}

impl TokenQuery {
    pub fn new(v: String) -> (q: TokenQuery)
        ensures
            q.token() == v@,
    {
        TokenQuery { v }
    }

    pub closed spec fn token(&self) -> Seq<char> {
        self.v@
    }

    pub fn v(&self) -> (v: &String)
        ensures
            v@ == self.token(),
    {
        &self.v
    }
}

/// The body of `/verify-otp`: the key the code was issued for, and the code.
#[derive(Debug, PartialEq, Eq)]
pub struct OtpPayload {
    key: String,
    otp: String,
}

impl OtpPayload {
    pub fn new(key: String, otp: String) -> (p: OtpPayload)
        ensures
            p.key_text() == key@,
            p.otp_text() == otp@,
    {
        OtpPayload { key, otp }
    }

    pub closed spec fn key_text(&self) -> Seq<char> {
        self.key@
    }

    pub closed spec fn otp_text(&self) -> Seq<char> {
        self.otp@
    }

    pub fn key(&self) -> (k: &String)
        ensures
            k@ == self.key_text(),
    {
        &self.key
    }

    pub fn otp(&self) -> (o: &String)
        ensures
            o@ == self.otp_text(),
    {
        &self.otp
    }
}

/// The three verification endpoints.
#[derive(Clone, Copy, PartialEq, Eq, Structural, Debug)]
pub enum Check {
    Otp,
    Link,
    LinkThenOtp,
}

/// What a verification request carries: a key and code, or a link token.
#[derive(Debug, PartialEq, Eq)]
pub struct Ticket {
    pub check: Check,
    pub key: String,
    pub otp: String,
    pub token: String,
}

pub struct TicketV {
    pub check: Check,
    pub key: Seq<char>,
    pub otp: Seq<char>,
    pub token: Seq<char>,
}

impl View for Ticket {
    type V = TicketV;

    open spec fn view(&self) -> TicketV {
        TicketV { check: self.check, key: self.key@, otp: self.otp@, token: self.token@ }
    }
}

/// The phase of a verification request; `subject` is the user a link
/// token names.
#[derive(Debug, PartialEq, Eq)]
pub enum VerifyStage {
    Idle,
    AwaitOtpCheck,
    AwaitSubject,
    AwaitLinkCheck { subject: String },
    AwaitAccess,
    AwaitOtp { subject: String },
    AwaitEmail { subject: String },
    Done,
}

pub enum VerifyStageV {
    Idle,
    AwaitOtpCheck,
    AwaitSubject,
    AwaitLinkCheck { subject: Seq<char> },
    AwaitAccess,
    AwaitOtp { subject: Seq<char> },
    AwaitEmail { subject: Seq<char> },
    Done,
}

impl View for VerifyStage {
    type V = VerifyStageV;

    open spec fn view(&self) -> VerifyStageV {
        match self {
            VerifyStage::Idle => VerifyStageV::Idle,
            VerifyStage::AwaitOtpCheck => VerifyStageV::AwaitOtpCheck,
            VerifyStage::AwaitSubject => VerifyStageV::AwaitSubject,
            VerifyStage::AwaitLinkCheck { subject } => VerifyStageV::AwaitLinkCheck { subject: subject@ },
            VerifyStage::AwaitAccess => VerifyStageV::AwaitAccess,
            VerifyStage::AwaitOtp { subject } => VerifyStageV::AwaitOtp { subject: subject@ },
            VerifyStage::AwaitEmail { subject } => VerifyStageV::AwaitEmail { subject: subject@ },
            VerifyStage::Done => VerifyStageV::Done,
        }
    }
}

#[derive(Debug, PartialEq, Eq)]
pub struct VerifyTransition {
    pub stage: VerifyStage,
    pub action: Action,
}

pub struct VerifyTransitionV {
    pub stage: VerifyStageV,
    pub action: ActionV,
}

impl View for VerifyTransition {
    type V = VerifyTransitionV;

    open spec fn view(&self) -> VerifyTransitionV {
        VerifyTransitionV { stage: self.stage@, action: self.action@ }
    }
}

pub open spec fn page_head() -> Seq<char> {
    "<!DOCTYPE html>\n                <html>\n                <head><title>Verify OTP</title></head>\n                <body>\n                    <h2>Enter the OTP sent to your email</h2>\n                    <form action=\"/verify-otp\" method=\"POST\" enctype=\"application/json\">\n                        <input type=\"hidden\" id=\"key\" name=\"key\" value=\""@
}

pub open spec fn page_tail() -> Seq<char> {
    "\">\n                        <input type=\"text\" id=\"otp\" name=\"otp\" placeholder=\"Enter 6-Digit OTP\" required>\n                        <button type=\"submit\">Verify & Login</button>\n                    </form>\n                </body>\n                </html>"@
}

/// The form that asks for the one-time code sent to `subject`.
pub open spec fn otp_form(subject: Seq<char>) -> Seq<char> {
    page_head() + subject + page_tail()
}

/// The answer to a link token that cannot be read or does not check.
pub open spec fn link_rejected(check: Check) -> ResponseV {
    if check == Check::LinkThenOtp {
        ResponseV::BadRequest("Link verification failed or token expired."@)
    } else {
        ResponseV::BadRequest("Invalid or expired verification link."@)
    }
}

pub open spec fn done(resp: ResponseV) -> VerifyTransitionV {
    VerifyTransitionV { stage: VerifyStageV::Done, action: ActionV::Respond(resp) }
}

pub open spec fn abandon(f: Fault) -> VerifyTransitionV {
    VerifyTransitionV { stage: VerifyStageV::Done, action: ActionV::Abort(f) }
}

/// The phases that a request of each endpoint goes through.
pub open spec fn stage_fits(check: Check, s: VerifyStageV) -> bool {
    match s {
        VerifyStageV::AwaitOtpCheck => check == Check::Otp,
        VerifyStageV::AwaitSubject | VerifyStageV::AwaitLinkCheck { .. } => check != Check::Otp,
        VerifyStageV::AwaitAccess => check != Check::LinkThenOtp,
        VerifyStageV::AwaitOtp { .. } | VerifyStageV::AwaitEmail { .. } => check == Check::LinkThenOtp,
        _ => true,
    }
}

/// The next phase and action of a verification request `c` in phase `s`,
/// on event `e`. A phase that the endpoint does not go through, or an event
/// that does not answer the pending action, ends the request with
/// `Fault::OutOfOrder`.
pub open spec fn verify_spec(c: TicketV, s: VerifyStageV, e: Event) -> VerifyTransitionV {
    if !stage_fits(c.check, s) {
        abandon(Fault::OutOfOrder)
    } else {
    match s {
        VerifyStageV::Idle => match e {
            Event::Begin => if c.check == Check::Otp {
                VerifyTransitionV {
                    stage: VerifyStageV::AwaitOtpCheck,
                    action: ActionV::VerifyOtp { key: c.key, otp: c.otp },
                }
            } else {
                VerifyTransitionV {
                    stage: VerifyStageV::AwaitSubject,
                    action: ActionV::ReadTokenSubject { token: c.token },
                }
            },
            _ => abandon(Fault::OutOfOrder),
        },
        VerifyStageV::AwaitOtpCheck => match e {
            Event::OtpChecked(checked) => if checked == Ok::<bool, ()>(true) {
                VerifyTransitionV {
                    stage: VerifyStageV::AwaitAccess,
                    action: ActionV::IssueAccessToken { subject: c.key },
                }
            } else {
                done(ResponseV::BadRequestJson(JsonBodyV::Rejected { error: "Invalid or expired OTP code code."@ }))
            },
            _ => abandon(Fault::OutOfOrder),
        },
        VerifyStageV::AwaitSubject => match e {
            Event::SubjectRead(read) => match read {
                Ok(subject) => VerifyTransitionV {
                    stage: VerifyStageV::AwaitLinkCheck { subject: subject@ },
                    action: ActionV::CheckLinkToken { token: c.token },
                },
                Err(_) => done(link_rejected(c.check)),
            },
            _ => abandon(Fault::OutOfOrder),
        },
        VerifyStageV::AwaitLinkCheck { subject } => match e {
            Event::LinkChecked(checked) => if checked == Ok::<bool, ()>(true) {
                if c.check == Check::LinkThenOtp {
                    VerifyTransitionV {
                        stage: VerifyStageV::AwaitOtp { subject },
                        action: ActionV::GenerateOtp { user_id: subject, digits: 6, ttl_secs: 300 },
                    }
                } else {
                    VerifyTransitionV {
                        stage: VerifyStageV::AwaitAccess,
                        action: ActionV::IssueAccessToken { subject },
                    }
                }
            } else {
                done(link_rejected(c.check))
            },
            _ => abandon(Fault::OutOfOrder),
        },
        VerifyStageV::AwaitAccess => match e {
            Event::AccessIssued(issued) => match issued {
                Ok(token) => done(ResponseV::Json(JsonBodyV::Session {
                    message: if c.check == Check::Otp {
                        "OTP verification successful."@
                    } else {
                        "Logged in successfully"@
                    },
                    login_token: token@,
                })),
                Err(_) => done(ResponseV::BadRequest(
                    if c.check == Check::Otp {
                        "Authentication succeeded, but application session setup failed."@
                    } else {
                        "Failed to generate application access token."@
                    },
                )),
            },
            _ => abandon(Fault::OutOfOrder),
        },
        VerifyStageV::AwaitOtp { subject } => match e {
            Event::OtpIssued(issued) => match issued {
                Ok(otp) => VerifyTransitionV {
                    stage: VerifyStageV::AwaitEmail { subject },
                    action: ActionV::SendEmail(EmailV {
                        to: subject,
                        subject: "Your Verification Code"@,
                        body: "Your secure OTP code is: "@ + otp@ + ". It expires in 5 minutes."@,
                    }),
                },
                Err(_) => done(ResponseV::BadRequest("Failed to initialize secondary verification code."@)),
            },
            _ => abandon(Fault::OutOfOrder),
        },
        VerifyStageV::AwaitEmail { subject } => match e {
            Event::EmailSent(sent) => if sent {
                done(ResponseV::Html(otp_form(subject)))
            } else {
                done(ResponseV::BadRequest("Could not transmit verification message."@))
            },
            _ => abandon(Fault::OutOfOrder),
        },
        VerifyStageV::Done => abandon(Fault::OutOfOrder),
    }
    }
}

fn fits(check: Check, s: &VerifyStage) -> (b: bool)
    ensures
        b == stage_fits(check, s@),
{
    match s {
        VerifyStage::AwaitOtpCheck => check == Check::Otp,
        VerifyStage::AwaitSubject | VerifyStage::AwaitLinkCheck { .. } => check != Check::Otp,
        VerifyStage::AwaitAccess => check != Check::LinkThenOtp,
        VerifyStage::AwaitOtp { .. } | VerifyStage::AwaitEmail { .. } => check == Check::LinkThenOtp,
        _ => true,
    }
}

fn link_rejection(check: Check) -> (r: Response)
    ensures
        r@ == link_rejected(check),
{
    if check == Check::LinkThenOtp {
        Response::BadRequest(String::from_str("Link verification failed or token expired."))
    } else {
        Response::BadRequest(String::from_str("Invalid or expired verification link."))
    }
}

fn done_with(resp: Response) -> (t: VerifyTransition)
    ensures
        t@ == done(resp@),
{
    VerifyTransition { stage: VerifyStage::Done, action: Action::Respond(resp) }
}

fn abandon_with(f: Fault) -> (t: VerifyTransition)
    ensures
        t@ == abandon(f),
{
    VerifyTransition { stage: VerifyStage::Done, action: Action::Abort(f) }
}

fn otp_form_text(subject: &str) -> (page: String)
    ensures
        page@ == otp_form(subject@),
{
    join3(
        "<!DOCTYPE html>\n                <html>\n                <head><title>Verify OTP</title></head>\n                <body>\n                    <h2>Enter the OTP sent to your email</h2>\n                    <form action=\"/verify-otp\" method=\"POST\" enctype=\"application/json\">\n                        <input type=\"hidden\" id=\"key\" name=\"key\" value=\"",
        subject,
        "\">\n                        <input type=\"text\" id=\"otp\" name=\"otp\" placeholder=\"Enter 6-Digit OTP\" required>\n                        <button type=\"submit\">Verify & Login</button>\n                    </form>\n                </body>\n                </html>",
    )
}

/// The next phase and action of verification request `c` in phase `s`, on
/// event `e`.
pub fn verify_advance(c: &Ticket, s: &VerifyStage, e: Event) -> (t: VerifyTransition)
    ensures
        t@ == verify_spec(c@, s@, e),
{
    if !fits(c.check, s) {
        return abandon_with(Fault::OutOfOrder);
    }
    match s {
        VerifyStage::Idle => match e {
            Event::Begin => if c.check == Check::Otp {
                VerifyTransition {
                    stage: VerifyStage::AwaitOtpCheck,
                    action: Action::VerifyOtp { key: c.key.clone(), otp: c.otp.clone() },
                }
            } else {
                VerifyTransition {
                    stage: VerifyStage::AwaitSubject,
                    action: Action::ReadTokenSubject { token: c.token.clone() },
                }
            },
            _ => abandon_with(Fault::OutOfOrder),
        },
        VerifyStage::AwaitOtpCheck => match e {
            Event::OtpChecked(checked) => {
                let passed = match checked {
                    Ok(true) => true,
                    _ => false,
                };
                if passed {
                    VerifyTransition {
                        stage: VerifyStage::AwaitAccess,
                        action: Action::IssueAccessToken { subject: c.key.clone() },
                    }
                } else {
                    done_with(Response::BadRequestJson(
                        JsonBody::Rejected { error: String::from_str("Invalid or expired OTP code code.") },
                    ))
                }
            },
            _ => abandon_with(Fault::OutOfOrder),
        },
        VerifyStage::AwaitSubject => match e {
            Event::SubjectRead(read) => match read {
                Ok(subject) => VerifyTransition {
                    stage: VerifyStage::AwaitLinkCheck { subject },
                    action: Action::CheckLinkToken { token: c.token.clone() },
                },
                Err(_) => done_with(link_rejection(c.check)),
            },
            _ => abandon_with(Fault::OutOfOrder),
        },
        VerifyStage::AwaitLinkCheck { subject } => match e {
            Event::LinkChecked(checked) => {
                let passed = match checked {
                    Ok(true) => true,
                    _ => false,
                };
                if passed {
                    if c.check == Check::LinkThenOtp {
                        VerifyTransition {
                            stage: VerifyStage::AwaitOtp { subject: subject.clone() },
                            action: Action::GenerateOtp { user_id: subject.clone(), digits: 6, ttl_secs: 300 },
                        }
                    } else {
                        VerifyTransition {
                            stage: VerifyStage::AwaitAccess,
                            action: Action::IssueAccessToken { subject: subject.clone() },
                        }
                    }
                } else {
                    done_with(link_rejection(c.check))
                }
            },
            _ => abandon_with(Fault::OutOfOrder),
        },
        VerifyStage::AwaitAccess => match e {
            Event::AccessIssued(issued) => match issued {
                Ok(token) => {
                    let message = if c.check == Check::Otp {
                        String::from_str("OTP verification successful.")
                    } else {
                        String::from_str("Logged in successfully")
                    };
                    done_with(Response::Json(JsonBody::Session { message, login_token: token }))
                },
                Err(_) => {
                    let message = if c.check == Check::Otp {
                        String::from_str("Authentication succeeded, but application session setup failed.")
                    } else {
                        String::from_str("Failed to generate application access token.")
                    };
                    done_with(Response::BadRequest(message))
                },
            },
            _ => abandon_with(Fault::OutOfOrder),
        },
        VerifyStage::AwaitOtp { subject } => match e {
            Event::OtpIssued(issued) => match issued {
                Ok(otp) => VerifyTransition {
                    stage: VerifyStage::AwaitEmail { subject: subject.clone() },
                    action: Action::SendEmail(EmailMessage {
                        to: subject.clone(),
                        subject: String::from_str("Your Verification Code"),
                        body: join3("Your secure OTP code is: ", otp.as_str(), ". It expires in 5 minutes."),
                    }),
                },
                Err(_) => done_with(Response::BadRequest(
                    String::from_str("Failed to initialize secondary verification code."),
                )),
            },
            _ => abandon_with(Fault::OutOfOrder),
        },
        VerifyStage::AwaitEmail { subject } => match e {
            Event::EmailSent(sent) => if sent {
                done_with(Response::Html(otp_form_text(subject.as_str())))
            } else {
                done_with(Response::BadRequest(String::from_str("Could not transmit verification message.")))
            },
            _ => abandon_with(Fault::OutOfOrder),
        },
        VerifyStage::Done => abandon_with(Fault::OutOfOrder),
    }
}

// ---------- requests ----------

impl OtpPayload {
    pub open spec fn ticket(&self) -> TicketV {
        TicketV { check: Check::Otp, key: self.key_text(), otp: self.otp_text(), token: Seq::empty() }
    }

    fn to_ticket(&self) -> (c: Ticket)
        ensures
            c@ == self.ticket(),
    {
        Ticket { check: Check::Otp, key: self.key.clone(), otp: self.otp.clone(), token: String::new() }
    }
}

impl TokenQuery {
    pub open spec fn ticket(&self, check: Check) -> TicketV {
        TicketV { check, key: Seq::empty(), otp: Seq::empty(), token: self.token() }
    }

    fn to_ticket(&self, check: Check) -> (c: Ticket)
        ensures
            c@ == self.ticket(check),
    {
        Ticket { check, key: String::new(), otp: String::new(), token: self.v.clone() }
    }
}

// ---------- answering the internal actions ----------

/// `t` is what follows `t0` once the actions in it that this library
/// answers itself (at most `fuel` of them, one after the other) have been
/// answered by some outcome of the outside crate.
pub open spec fn resolves(c: TicketV, t0: VerifyTransitionV, t: VerifyTransitionV, fuel: nat) -> bool
    decreases fuel,
{
    if !is_internal(t0.action) {
        t == t0
    } else if fuel == 0 {
        false
    } else {
        exists|e: Event| answers(t0.action, e) && resolves(c, verify_spec(c, t0.stage, e), t, (fuel - 1) as nat)
    }
}

/// One answered step: `b` follows `a` as `resolves` allows.
pub open spec fn answered(c: TicketV, a: VerifyTransitionV, b: VerifyTransitionV) -> bool {
    if is_internal(a.action) {
        exists|e: Event| answers(a.action, e) && b == verify_spec(c, a.stage, e)
    } else {
        b == a
    }
}

/// An internal action waits in the phase that its answer is read in.
pub open spec fn coherent(t: VerifyTransitionV) -> bool {
    &&& t.action is ReadTokenSubject ==> t.stage is AwaitSubject
    &&& t.action is CheckLinkToken ==> t.stage is AwaitLinkCheck
    &&& t.action is IssueAccessToken ==> t.stage is AwaitAccess
    &&& !(t.action is IssueLinkToken)
}

proof fn lemma_verify_coherent(c: TicketV, s: VerifyStageV, e: Event)
    ensures
        coherent(verify_spec(c, s, e)),
{
}

/// Internal actions come at most three in a row, so three answers reach an
/// action for the server (or the end).
proof fn lemma_three_answers(
    c: TicketV,
    g0: VerifyTransitionV,
    g1: VerifyTransitionV,
    g2: VerifyTransitionV,
    g3: VerifyTransitionV,
)
    requires
        coherent(g0),
        answered(c, g0, g1),
        answered(c, g1, g2),
        answered(c, g2, g3),
    ensures
        resolves(c, g0, g3, 3),
        !is_internal(g3.action),
{
    if is_internal(g0.action) {
        let e0 = choose|e: Event| answers(g0.action, e) && g1 == verify_spec(c, g0.stage, e);
        lemma_verify_coherent(c, g0.stage, e0);
        if is_internal(g1.action) {
            let e1 = choose|e: Event| answers(g1.action, e) && g2 == verify_spec(c, g1.stage, e);
            lemma_verify_coherent(c, g1.stage, e1);
            if is_internal(g2.action) {
                let e2 = choose|e: Event| answers(g2.action, e) && g3 == verify_spec(c, g2.stage, e);
                assert(!is_internal(g3.action));
                assert(resolves(c, g3, g3, 0));
                assert(answers(g2.action, e2) && resolves(c, verify_spec(c, g2.stage, e2), g3, 0));
                assert(resolves(c, g2, g3, 1));
            } else {
                assert(resolves(c, g2, g3, 1));
            }
            assert(answers(g1.action, e1) && resolves(c, verify_spec(c, g1.stage, e1), g3, 1));
            assert(resolves(c, g1, g3, 2));
        } else {
            assert(resolves(c, g1, g3, 2));
        }
        assert(answers(g0.action, e0) && resolves(c, verify_spec(c, g0.stage, e0), g3, 2));
        assert(resolves(c, g0, g3, 3));
    }
}

fn answer_once(linkv: &LinkV, jwt: &JwtService, c: &Ticket, t0: VerifyTransition) -> (t: VerifyTransition)
    requires
        coherent(t0@),
    ensures
        coherent(t@),
        answered(c@, t0@, t@),
{
    let ghost g0 = t0@;
    match t0.action {
        Action::ReadTokenSubject { token } => {
            let e = Event::SubjectRead(read_subject(jwt, token.as_str()));
            assert(answers(g0.action, e));
            let t = verify_advance(c, &t0.stage, e);
            proof { lemma_verify_coherent(c@, g0.stage, e); }
            t
        },
        Action::CheckLinkToken { token } => {
            let e = Event::LinkChecked(check_link(linkv, token.as_str()));
            assert(answers(g0.action, e));
            let t = verify_advance(c, &t0.stage, e);
            proof { lemma_verify_coherent(c@, g0.stage, e); }
            t
        },
        Action::IssueAccessToken { subject } => {
            let e = Event::AccessIssued(access_token(jwt, subject.as_str()));
            assert(answers(g0.action, e));
            let t = verify_advance(c, &t0.stage, e);
            proof { lemma_verify_coherent(c@, g0.stage, e); }
            t
        },
        _ => t0,
    }
}

fn resolve(linkv: &LinkV, jwt: &JwtService, c: &Ticket, t0: VerifyTransition) -> (t: VerifyTransition)
    requires
        coherent(t0@),
    ensures
        resolves(c@, t0@, t@, 3),
        !is_internal(t@.action),
{
    let ghost g0 = t0@;
    let t1 = answer_once(linkv, jwt, c, t0);
    let ghost g1 = t1@;
    let t2 = answer_once(linkv, jwt, c, t1);
    let ghost g2 = t2@;
    let t3 = answer_once(linkv, jwt, c, t2);
    proof { lemma_three_answers(c@, g0, g1, g2, t3@); }
    t3
}

// ---------- the endpoints ----------

/// One step of `/verify-otp`: checks the code issued for the key, then
/// answers with a login token for that key made by `jwt`.
pub fn verify_otp_route(jwt: &JwtService, payload: &OtpPayload, stage: &VerifyStage, event: Event) -> (t: VerifyTransition)
    ensures
        resolves(payload.ticket(), verify_spec(payload.ticket(), stage@, event), t@, 1),
        !is_internal(t@.action),
{
    let c = payload.to_ticket();
    let t0 = verify_advance(&c, stage, event);
    let ghost g0 = t0@;
    match t0.action {
        Action::IssueAccessToken { subject } => {
            proof { lemma_verify_coherent(c@, stage@, event); }
            let e = Event::AccessIssued(access_token(jwt, subject.as_str()));
            assert(answers(g0.action, e));
            let t = verify_advance(&c, &t0.stage, e);
            assert(!is_internal(t@.action));
            assert(resolves(c@, t@, t@, 0));
            assert(answers(g0.action, e) && resolves(c@, verify_spec(c@, g0.stage, e), t@, 0));
            t
        },
        _ => {
            proof { lemma_verify_coherent(c@, stage@, event); }
            t0
        },
    }
}

/// `/verify`: reads the user a link token names and checks the token
/// through `linkv`; if it holds, answers with a login token for that user
/// made by `jwt`, and otherwise with the invalid-link message. Every call it
/// makes is answered inside, so it runs to its end at once.
pub fn verify_route(query: &TokenQuery, linkv: &LinkV, jwt: &JwtService) -> (r: Response)
    ensures
        resolves(
            query.ticket(Check::Link),
            verify_spec(query.ticket(Check::Link), VerifyStageV::Idle, Event::Begin),
            VerifyTransitionV { stage: VerifyStageV::Done, action: ActionV::Respond(r@) },
            3,
        ),
{
    let c = query.to_ticket(Check::Link);
    let t0 = verify_advance(&c, &VerifyStage::Idle, Event::Begin);
    proof { lemma_verify_coherent(c@, VerifyStageV::Idle, Event::Begin); }
    let ghost g0 = t0@;
    let t = resolve(linkv, jwt, &c, t0);
    proof { lemma_link_check_runs_to_an_answer(c@, g0, t@, 3); }
    match t.action {
        Action::Respond(resp) => resp,
        _ => {
            proof { assert(false); }
            Response::BadRequest(String::new())
        },
    }
}

/// On `/verify` every action is answered inside, and every answered step
/// leads to another such action or to the answer to the client.
proof fn lemma_link_check_runs_to_an_answer(c: TicketV, t0: VerifyTransitionV, t: VerifyTransitionV, fuel: nat)
    requires
        c.check == Check::Link,
        resolves(c, t0, t, fuel),
        coherent(t0),
        is_internal(t0.action) || (t0.action is Respond && t0.stage is Done),
    ensures
        t.action is Respond,
        t.stage is Done,
    decreases fuel,
{
    if is_internal(t0.action) {
        let e = choose|e: Event|
            answers(t0.action, e) && resolves(c, verify_spec(c, t0.stage, e), t, (fuel - 1) as nat);
        lemma_verify_coherent(c, t0.stage, e);
        lemma_link_check_runs_to_an_answer(c, verify_spec(c, t0.stage, e), t, (fuel - 1) as nat);
    }
}

/// One step of `/verify-two`: reads the user a link token names and checks
/// the token; if it holds, emails that user a one-time code and answers
/// with a form to enter it.
pub fn verify_two_route(
    linkv: &LinkV,
    jwt: &JwtService,
    query: &TokenQuery,
    stage: &VerifyStage,
    event: Event,
) -> (t: VerifyTransition)
    ensures
        resolves(query.ticket(Check::LinkThenOtp), verify_spec(query.ticket(Check::LinkThenOtp), stage@, event), t@, 3),
        !is_internal(t@.action),
{
    let c = query.to_ticket(Check::LinkThenOtp);
    let t0 = verify_advance(&c, stage, event);
    proof { lemma_verify_coherent(c@, stage@, event); }
    resolve(linkv, jwt, &c, t0)
}

} // verus!
