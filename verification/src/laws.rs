//! What holds of the account workflows and the verification endpoints over
//! all routes, requests, phases and answers.

use vstd::prelude::*;
use crate::protocol::{
    answers, is_final, ActionV, DbCommandV, DbQueryV, Event, JsonBodyV, Lookup, Presence, ResponseV,
    SignupV,
};
use crate::services::token_subject;
use crate::verification::{resolves, verify_spec, Check, TicketV, TokenQuery, VerifyStageV, VerifyTransitionV};
use crate::workflow::{
    advance_spec, after_guard_spec, body_head, body_tail, challenge, email_decides, failure_text, guard,
    link_base, not_found_text, store, subject_text, success_text, user_exists_text, wrong_password_text,
    Challenge, Guard, LinkPage, RequestV, Route, StageV, Store, TransitionV,
};

verus! {

// ---------- runs of a request ----------

/// The phase a request of route `r` is in after the events `evs`, starting
/// from `Idle`.
pub open spec fn stage_after(r: Route, q: RequestV, evs: Seq<Event>) -> StageV
    decreases evs.len(),
{
    if evs.len() == 0 {
        StageV::Idle
    } else {
        advance_spec(r, q, stage_after(r, q, evs.drop_last()), evs.last()).stage
    }
}

/// The action taken on the `k`-th event.
pub open spec fn action_at(r: Route, q: RequestV, evs: Seq<Event>, k: int) -> ActionV {
    advance_spec(r, q, stage_after(r, q, evs.take(k)), evs[k]).action
}

/// How far a phase is from the end.
pub open spec fn remaining(s: StageV) -> nat {
    match s {
        StageV::Idle => 7,
        StageV::AwaitUser => 6,
        StageV::AwaitPasswordCheck => 5,
        StageV::AwaitChallenge => 4,
        StageV::AwaitHash { .. } => 3,
        StageV::AwaitStore { .. } => 2,
        StageV::AwaitEmail => 1,
        StageV::Done => 0,
    }
}

proof fn lemma_take_step(evs: Seq<Event>, k: int)
    requires
        0 <= k < evs.len(),
    ensures
        evs.take(k + 1).drop_last() == evs.take(k),
        evs.take(k + 1).last() == evs[k],
        evs.take(k + 1).len() == k + 1,
{
    assert(evs.take(k + 1).drop_last() =~= evs.take(k));
}

/// Each answer moves a request strictly closer to its end, and it ends
/// exactly when it answers the client or gives up; once over, it stays over
/// and takes no further action but to give up.
pub proof fn every_answer_moves_forward(r: Route, q: RequestV, s: StageV, e: Event)
    ensures
        ({
            let t = advance_spec(r, q, s, e);
            &&& s is Done ==> t == TransitionV { stage: StageV::Done, action: ActionV::Abort(crate::protocol::Fault::OutOfOrder) }
            &&& !(s is Done) ==> remaining(t.stage) < remaining(s)
            &&& (t.stage is Done <==> is_final(t.action))
        }),
{
}

proof fn lemma_remaining_after(r: Route, q: RequestV, evs: Seq<Event>)
    ensures
        remaining(stage_after(r, q, evs)) + evs.len() <= 7 || stage_after(r, q, evs) is Done,
    decreases evs.len(),
{
    if evs.len() > 0 {
        lemma_remaining_after(r, q, evs.drop_last());
        every_answer_moves_forward(r, q, stage_after(r, q, evs.drop_last()), evs.last());
    }
}

/// Every request is over (answered or given up) after at most seven events.
pub proof fn requests_end_within_seven_events(r: Route, q: RequestV, evs: Seq<Event>)
    requires
        evs.len() >= 7,
    ensures
        stage_after(r, q, evs) is Done,
{
    lemma_remaining_after(r, q, evs);
}

// ---------- nothing is done for a user before the guard passes ----------

/// The route's guard passes on event `e` in phase `s`: the request began
/// (no guard), the email was not found (sign-up), or the password matched
/// the stored hash (login, password change).
pub open spec fn guard_passes(r: Route, s: StageV, e: Event) -> bool {
    match guard(r) {
        Guard::Open => s is Idle && e is Begin,
        Guard::NewAccount => s is AwaitUser && (e matches Event::UserPresence(p) && p != Presence::Present),
        Guard::Credentials => s is AwaitPasswordCheck && e == Event::PasswordChecked(Ok(true)),
    }
}

/// Actions taken on the user's behalf: handing out a code or a token,
/// hashing or storing a password, sending mail, or answering with success.
pub open spec fn acts_for_user(a: ActionV) -> bool {
    ||| a is GenerateOtp
    ||| a is IssueLinkToken
    ||| a is IssueAccessToken
    ||| a is HashPassword
    ||| a is Execute
    ||| a is CacheText
    ||| a is CacheSignup
    ||| a is SendEmail
    ||| (a matches ActionV::Respond(resp) && (resp is Plain || resp is Json))
}

pub open spec fn past_guard(s: StageV) -> bool {
    s is AwaitChallenge || s is AwaitHash || s is AwaitStore || s is AwaitEmail
}

proof fn lemma_guard_step(r: Route, q: RequestV, s: StageV, e: Event)
    ensures
        ({
            let t = advance_spec(r, q, s, e);
            (acts_for_user(t.action) || past_guard(t.stage)) ==> (guard_passes(r, s, e) || past_guard(s))
        }),
{
}

proof fn lemma_past_guard_has_a_reason(r: Route, q: RequestV, evs: Seq<Event>, k: int)
    requires
        0 <= k <= evs.len(),
        past_guard(stage_after(r, q, evs.take(k))),
    ensures
        exists|j: int| 0 <= j < k && guard_passes(r, stage_after(r, q, evs.take(j)), evs[j]),
    decreases k,
{
    if k == 0 {
        assert(evs.take(0).len() == 0);
    } else {
        lemma_take_step(evs, k - 1);
        let s = stage_after(r, q, evs.take(k - 1));
        lemma_guard_step(r, q, s, evs[k - 1]);
        if past_guard(s) {
            lemma_past_guard_has_a_reason(r, q, evs, k - 1);
        } else {
            assert(guard_passes(r, stage_after(r, q, evs.take(k - 1)), evs[k - 1]));
        }
    }
}

/// No route hands out a code or a token, hashes or stores a password,
/// sends mail or answers with success before its guard has passed.
pub proof fn user_actions_follow_the_guard(r: Route, q: RequestV, evs: Seq<Event>, k: int)
    requires
        0 <= k < evs.len(),
        acts_for_user(action_at(r, q, evs, k)),
    ensures
        exists|j: int| 0 <= j <= k && guard_passes(r, stage_after(r, q, evs.take(j)), evs[j]),
{
    let s = stage_after(r, q, evs.take(k));
    lemma_guard_step(r, q, s, evs[k]);
    if past_guard(s) {
        lemma_past_guard_has_a_reason(r, q, evs, k);
    }
}

/// The password that is checked is the one the request gave, against the
/// hash stored for the request's email: the check is asked on the second
/// event, after the stored hash was looked up for that email.
pub proof fn the_password_check_is_the_users(r: Route, q: RequestV, evs: Seq<Event>, j: int)
    requires
        guard(r) == Guard::Credentials,
        0 <= j <= evs.len(),
        stage_after(r, q, evs.take(j)) is AwaitPasswordCheck,
    ensures
        j == 2,
        evs[0] is Begin,
        action_at(r, q, evs, 0) == ActionV::Lookup(DbQueryV::PasswordHash { email: q.email }),
        evs[1] matches Event::PasswordRow(Lookup::Found(hash))
            && action_at(r, q, evs, 1) == (ActionV::VerifyPassword { password: q.password, hash: hash@ }),
{
    assert(j > 0) by {
        if j == 0 {
            assert(evs.take(0).len() == 0);
        }
    }
    lemma_take_step(evs, j - 1);
    let s1 = stage_after(r, q, evs.take(j - 1));
    assert(s1 is AwaitUser);
    assert(j - 1 > 0) by {
        if j - 1 == 0 {
            assert(evs.take(0).len() == 0);
        }
    }
    lemma_take_step(evs, j - 2);
    let s0 = stage_after(r, q, evs.take(j - 2));
    assert(s0 is Idle);
    if j - 2 > 0 {
        lemma_take_step(evs, j - 3);
        assert(false);
    }
    assert(evs.take(0).len() == 0);
}

// ---------- what is stored, and for whom ----------

/// The secret that an action writes to the database or the cache.
pub open spec fn stored_secret(a: ActionV) -> Option<Seq<char>> {
    match a {
        ActionV::Execute(DbCommandV::UpdatePassword { password_hash, .. }) => Some(password_hash),
        ActionV::Execute(DbCommandV::InsertUser { password_hash, .. }) => Some(password_hash),
        ActionV::CacheText { value, .. } => Some(value),
        ActionV::CacheSignup { record, .. } => Some(record.pwd),
        _ => None,
    }
}

/// Passwords are stored only as hashes: what is written is exactly what the
/// hasher answered, and the hasher is only ever asked for the request's new
/// password.
pub proof fn only_hashes_are_stored(r: Route, q: RequestV, s: StageV, e: Event)
    ensures
        ({
            let t = advance_spec(r, q, s, e);
            &&& stored_secret(t.action) matches Some(secret) ==> (s is AwaitHash
                && (e matches Event::Hashed(Ok(hash)) && hash@ == secret))
            &&& t.stage is AwaitHash ==> t.action == (ActionV::HashPassword { password: q.new_password })
        }),
{
}

/// Each action concerns the requester: it names the request's email,
/// password or name, codes have six digits, and codes, links and cached
/// entries last five minutes.
pub open spec fn concerns(a: ActionV, q: RequestV) -> bool {
    match a {
        ActionV::Lookup(DbQueryV::UserId { email }) => email == q.email,
        ActionV::Lookup(DbQueryV::PasswordHash { email }) => email == q.email,
        ActionV::Execute(DbCommandV::UpdatePassword { email, .. }) => email == q.email,
        ActionV::Execute(DbCommandV::InsertUser { name, email, .. }) => name == q.name && email == q.email,
        ActionV::VerifyPassword { password, .. } => password == q.password,
        ActionV::HashPassword { password } => password == q.new_password,
        ActionV::GenerateOtp { user_id, digits, ttl_secs } => user_id == q.email && digits == 6 && ttl_secs == 300,
        ActionV::CacheText { key, ttl_secs, .. } => (key == "pending_pwd:"@ + q.email
            || key == "forgot_pwd:"@ + q.email) && ttl_secs == 300,
        ActionV::CacheSignup { key, record, ttl_secs } => key == "signup:"@ + q.email
            && record.name == q.name && record.email == q.email && ttl_secs == 300,
        ActionV::SendEmail(m) => m.to == q.email,
        ActionV::IssueLinkToken { key, expiry_secs } => key == q.email && expiry_secs == 300,
        ActionV::IssueAccessToken { subject } => subject == q.email,
        _ => true,
    }
}

pub proof fn actions_concern_the_requester(r: Route, q: RequestV, s: StageV, e: Event)
    ensures
        concerns(advance_spec(r, q, s, e).action, q),
{
}

/// The client is told of success only when the write or the email that the
/// route depends on went through (the two-factor and magic-link logins
/// answer the same whether the email went out or not).
pub proof fn success_is_reported_only_on_success(r: Route, q: RequestV, s: StageV, e: Event)
    ensures
        advance_spec(r, q, s, e).action matches ActionV::Respond(ResponseV::Plain(_)) ==> {
            ||| s is AwaitStore && e == Event::Executed(true)
            ||| s is AwaitEmail && (e == Event::EmailSent(true) || !email_decides(r))
        },
        advance_spec(r, q, s, e).action matches ActionV::Respond(ResponseV::Json(_)) ==> {
            r == Route::Login && s is AwaitChallenge && e matches Event::AccessIssued(Ok(_))
        },
{
}

// ---------- the verification endpoints ----------

/// A login token, or a one-time code, is handed out only for the key whose
/// code was just confirmed, or for the user that a just-confirmed link
/// token names.
pub proof fn tokens_follow_a_confirmed_check(c: TicketV, s: VerifyStageV, e: Event)
    ensures
        ({
            let t = verify_spec(c, s, e);
            &&& t.action matches ActionV::IssueAccessToken { subject } ==> {
                ||| c.check == Check::Otp && s is AwaitOtpCheck && e == Event::OtpChecked(Ok(true)) && subject == c.key
                ||| c.check == Check::Link && s == (VerifyStageV::AwaitLinkCheck { subject })
                    && e == Event::LinkChecked(Ok(true))
            }
            &&& t.action matches ActionV::GenerateOtp { user_id, digits, ttl_secs } ==> {
                &&& c.check == Check::LinkThenOtp && s == (VerifyStageV::AwaitLinkCheck { subject: user_id })
                &&& e == Event::LinkChecked(Ok(true)) && digits == 6 && ttl_secs == 300
            }
            &&& t.stage matches VerifyStageV::AwaitLinkCheck { subject } ==> {
                &&& s is AwaitSubject && t.action == (ActionV::CheckLinkToken { token: c.token })
                &&& e matches Event::SubjectRead(Ok(read)) && read@ == subject
            }
            &&& t.action matches ActionV::SendEmail(m) ==> (s matches VerifyStageV::AwaitOtp { subject } && m.to == subject)
        }),
{
}

/// A magic link works for the user it was made for: when the token of a
/// link issued for `email` is opened at `/verify` and the answer is a
/// login, the login token names `email`.
pub proof fn magic_link_logs_in_its_owner(
    email: Seq<char>,
    link_token: String,
    query: TokenQuery,
    end: VerifyTransitionV,
    message: Seq<char>,
    login_token: Seq<char>,
)
    requires
        answers(ActionV::IssueLinkToken { key: email, expiry_secs: 300 }, Event::LinkIssued(Ok(link_token))),
        query.token() == link_token@,
        resolves(
            query.ticket(Check::Link),
            verify_spec(query.ticket(Check::Link), VerifyStageV::Idle, Event::Begin),
            end,
            3,
        ),
        end.action == ActionV::Respond(ResponseV::Json(JsonBodyV::Session { message, login_token })),
    ensures
        token_subject(login_token) == email,
{
    let c = query.ticket(Check::Link);
    let t0 = verify_spec(c, VerifyStageV::Idle, Event::Begin);
    let e0 = choose|e: Event| answers(t0.action, e) && resolves(c, verify_spec(c, t0.stage, e), end, 2);
    let t1 = verify_spec(c, t0.stage, e0);
    let subject = t1.stage->AwaitLinkCheck_subject;
    assert(subject == email);
    let e1 = choose|e: Event| answers(t1.action, e) && resolves(c, verify_spec(c, t1.stage, e), end, 1);
    let t2 = verify_spec(c, t1.stage, e1);
    assert(t2.action == ActionV::IssueAccessToken { subject });
    let e2 = choose|e: Event| answers(t2.action, e) && resolves(c, verify_spec(c, t2.stage, e), end, 0);
}

/// How far a verification phase is from the end.
pub open spec fn verify_remaining(s: VerifyStageV) -> nat {
    match s {
        VerifyStageV::Idle => 5,
        VerifyStageV::AwaitSubject => 4,
        VerifyStageV::AwaitOtpCheck => 4,
        VerifyStageV::AwaitLinkCheck { .. } => 3,
        VerifyStageV::AwaitOtp { .. } => 2,
        VerifyStageV::AwaitAccess => 1,
        VerifyStageV::AwaitEmail { .. } => 1,
        VerifyStageV::Done => 0,
    }
}

/// The phase a verification request is in after the events `evs`.
pub open spec fn verify_stage_after(c: TicketV, evs: Seq<Event>) -> VerifyStageV
    decreases evs.len(),
{
    if evs.len() == 0 {
        VerifyStageV::Idle
    } else {
        verify_spec(c, verify_stage_after(c, evs.drop_last()), evs.last()).stage
    }
}

/// Each answer moves a verification request strictly closer to its end; it
/// ends exactly when it answers or gives up, and stays over.
pub proof fn every_verification_answer_moves_forward(c: TicketV, s: VerifyStageV, e: Event)
    ensures
        ({
            let t = verify_spec(c, s, e);
            &&& s is Done ==> t == VerifyTransitionV { stage: VerifyStageV::Done, action: ActionV::Abort(crate::protocol::Fault::OutOfOrder) }
            &&& !(s is Done) ==> verify_remaining(t.stage) < verify_remaining(s)
            &&& (t.stage is Done <==> is_final(t.action))
        }),
{
}

proof fn lemma_verify_remaining_after(c: TicketV, evs: Seq<Event>)
    ensures
        verify_remaining(verify_stage_after(c, evs)) + evs.len() <= 5 || verify_stage_after(c, evs) is Done,
    decreases evs.len(),
{
    if evs.len() > 0 {
        lemma_verify_remaining_after(c, evs.drop_last());
        every_verification_answer_moves_forward(c, verify_stage_after(c, evs.drop_last()), evs.last());
    }
}

/// Every verification request is over after at most five events.
pub proof fn verifications_end_within_five_events(c: TicketV, evs: Seq<Event>)
    requires
        evs.len() >= 5,
    ensures
        verify_stage_after(c, evs) is Done,
{
    lemma_verify_remaining_after(c, evs);
}

/// The one-time code of `/verify-two` is made for, and later mailed to, the
/// user that the link token names.
pub proof fn link_code_goes_to_the_links_owner(query: TokenQuery, end: VerifyTransitionV)
    requires
        resolves(
            query.ticket(Check::LinkThenOtp),
            verify_spec(query.ticket(Check::LinkThenOtp), VerifyStageV::Idle, Event::Begin),
            end,
            3,
        ),
        end.action is GenerateOtp,
    ensures
        end.stage == (VerifyStageV::AwaitOtp { subject: token_subject(query.token()) }),
        end.action->GenerateOtp_user_id == token_subject(query.token()),
{
    let c = query.ticket(Check::LinkThenOtp);
    let t0 = verify_spec(c, VerifyStageV::Idle, Event::Begin);
    let e0 = choose|e: Event| answers(t0.action, e) && resolves(c, verify_spec(c, t0.stage, e), end, 2);
    let t1 = verify_spec(c, t0.stage, e0);
    let e1 = choose|e: Event| answers(t1.action, e) && resolves(c, verify_spec(c, t1.stage, e), end, 1);
}

// ---------- the email carries the code that was issued ----------

/// The text an answer to the route's challenge puts into the email: the
/// one-time code, or the page link with the token.
pub open spec fn challenge_answer(r: Route, e: Event) -> Option<Seq<char>> {
    match challenge(r) {
        Challenge::Otp => match e {
            Event::OtpIssued(Ok(code)) => Some(code@),
            _ => None,
        },
        Challenge::Link(page) => match e {
            Event::LinkIssued(Ok(token)) => Some(link_base(page) + token@),
            _ => None,
        },
        _ => None,
    }
}

pub open spec fn carried_code(s: StageV) -> Option<Seq<char>> {
    match s {
        StageV::AwaitHash { code } => Some(code),
        StageV::AwaitStore { code } => Some(code),
        _ => None,
    }
}

/// `code` answered the route's challenge before the `k`-th event.
pub open spec fn issued_before(r: Route, q: RequestV, evs: Seq<Event>, k: int, code: Seq<char>) -> bool {
    exists|j: int|
        0 <= j < k && stage_after(r, q, evs.take(j)) is AwaitChallenge && challenge_answer(r, evs[j]) == Some(code)
}

proof fn lemma_code_step(r: Route, q: RequestV, s: StageV, e: Event)
    requires
        challenge(r) != Challenge::Nothing,
    ensures
        ({
            let t = advance_spec(r, q, s, e);
            &&& carried_code(t.stage) matches Some(c) ==> (carried_code(s) == Some(c)
                || (s is AwaitChallenge && challenge_answer(r, e) == Some(c)))
            &&& t.action matches ActionV::SendEmail(m) ==> exists|c: Seq<char>|
                (carried_code(s) == Some(c) || (s is AwaitChallenge && challenge_answer(r, e) == Some(c)))
                && m.body == body_head(r) + c + body_tail(r)
        }),
{
    let t = advance_spec(r, q, s, e);
    if t.action is SendEmail {
        if s is AwaitChallenge {
            assert(challenge_answer(r, e) is Some);
            let c = challenge_answer(r, e)->Some_0;
            assert(t.action->SendEmail_0.body == body_head(r) + c + body_tail(r));
        } else {
            let c = carried_code(s)->Some_0;
            assert(t.action->SendEmail_0.body == body_head(r) + c + body_tail(r));
        }
    }
}

proof fn lemma_carried_code_was_issued(r: Route, q: RequestV, evs: Seq<Event>, k: int, code: Seq<char>)
    requires
        challenge(r) != Challenge::Nothing,
        0 <= k <= evs.len(),
        carried_code(stage_after(r, q, evs.take(k))) == Some(code),
    ensures
        issued_before(r, q, evs, k, code),
    decreases k,
{
    if k == 0 {
        assert(evs.take(0).len() == 0);
    } else {
        lemma_take_step(evs, k - 1);
        let s = stage_after(r, q, evs.take(k - 1));
        lemma_code_step(r, q, s, evs[k - 1]);
        if carried_code(s) == Some(code) {
            lemma_carried_code_was_issued(r, q, evs, k - 1, code);
        } else {
            assert(stage_after(r, q, evs.take(k - 1)) is AwaitChallenge && challenge_answer(r, evs[k - 1]) == Some(code));
        }
    }
}

/// Every email goes to the requester, with the route's subject, and its
/// body holds exactly the one-time code or the link that answered the
/// route's challenge earlier in the same request.
pub proof fn the_email_carries_the_issued_code(r: Route, q: RequestV, evs: Seq<Event>, k: int)
    requires
        0 <= k < evs.len(),
        action_at(r, q, evs, k) is SendEmail,
    ensures
        ({
            let m = action_at(r, q, evs, k)->SendEmail_0;
            &&& m.to == q.email
            &&& m.subject == subject_text(r)
            &&& exists|code: Seq<char>| m.body == body_head(r) + code + body_tail(r) && issued_before(r, q, evs, k + 1, code)
        }),
{
    let s = stage_after(r, q, evs.take(k));
    let m = action_at(r, q, evs, k)->SendEmail_0;
    assert(challenge(r) != Challenge::Nothing);
    lemma_code_step(r, q, s, evs[k]);
    let code = choose|c: Seq<char>|
        (carried_code(s) == Some(c) || (s is AwaitChallenge && challenge_answer(r, evs[k]) == Some(c)))
        && m.body == body_head(r) + c + body_tail(r);
    if carried_code(s) == Some(code) {
        lemma_carried_code_was_issued(r, q, evs, k, code);
        let j = choose|j: int|
            0 <= j < k && stage_after(r, q, evs.take(j)) is AwaitChallenge && challenge_answer(r, evs[j]) == Some(code);
        assert(issued_before(r, q, evs, k + 1, code));
    } else {
        assert(issued_before(r, q, evs, k + 1, code));
    }
}

// ---------- one write per request ----------

proof fn lemma_remaining_never_grows(r: Route, q: RequestV, evs: Seq<Event>, j: int, k: int)
    requires
        0 <= j <= k <= evs.len(),
    ensures
        remaining(stage_after(r, q, evs.take(k))) <= remaining(stage_after(r, q, evs.take(j))),
    decreases k - j,
{
    if j < k {
        lemma_remaining_never_grows(r, q, evs, j, k - 1);
        lemma_take_step(evs, k - 1);
        every_answer_moves_forward(r, q, stage_after(r, q, evs.take(k - 1)), evs[k - 1]);
    }
}

/// A write (to the database or the cache) is asked only from the phase
/// that waits on the hash, and it moves the request past that phase.
proof fn lemma_writes_leave_the_hash_phase(r: Route, q: RequestV, s: StageV, e: Event)
    ensures
        ({
            let t = advance_spec(r, q, s, e);
            stored_secret(t.action) is Some ==> (s is AwaitHash && t.stage is AwaitStore)
        }),
{
}

/// A request writes at most once: after one database write or cache write,
/// no later event of the same request leads to another.
pub proof fn each_request_writes_at_most_once(r: Route, q: RequestV, evs: Seq<Event>, j: int, k: int)
    requires
        0 <= j < k < evs.len(),
        stored_secret(action_at(r, q, evs, j)) is Some,
    ensures
        stored_secret(action_at(r, q, evs, k)) is None,
{
    lemma_writes_leave_the_hash_phase(r, q, stage_after(r, q, evs.take(j)), evs[j]);
    lemma_take_step(evs, j);
    lemma_remaining_never_grows(r, q, evs, j + 1, k);
    lemma_writes_leave_the_hash_phase(r, q, stage_after(r, q, evs.take(k)), evs[k]);
}

/// The routes that confirm by code or link (and the logins) never write
/// the users table: their only database action is the lookup.
pub proof fn confirming_routes_never_write_the_users_table(r: Route, q: RequestV, s: StageV, e: Event)
    requires
        store(r) != Store::UpdatePassword,
        store(r) != Store::InsertUser,
    ensures
        !(advance_spec(r, q, s, e).action is Execute),
{
}

/// The record cached by sign-up is the request's name and email with the
/// hash the hasher answered, under `signup:<email>`, for five minutes.
pub proof fn the_cached_signup_holds_the_hash(r: Route, q: RequestV, s: StageV, e: Event)
    ensures
        advance_spec(r, q, s, e).action matches ActionV::CacheSignup { key, record, ttl_secs } ==> {
            &&& key == "signup:"@ + q.email && ttl_secs == 300
            &&& e matches Event::Hashed(Ok(hash)) && record == (SignupV { name: q.name, email: q.email, pwd: hash@ })
        },
{
}

// ---------- what the client is told ----------

/// The plain-text answers a route can give; none of them depends on the
/// request or on what a service answered.
pub open spec fn fixed_answer(r: Route, resp: ResponseV) -> bool {
    ||| resp == ResponseV::Plain(success_text(r))
    ||| resp == ResponseV::BadRequest(failure_text(r))
    ||| resp == ResponseV::BadRequest(not_found_text(r))
    ||| resp == ResponseV::BadRequest(wrong_password_text(r))
    ||| resp == ResponseV::BadRequest(user_exists_text())
}

/// Every answer is one of the route's fixed texts, except the login token
/// of `/login`, which is the token the token service made. No answer holds
/// a one-time code, a link, a hash or a password.
pub proof fn answers_are_fixed_texts(r: Route, q: RequestV, s: StageV, e: Event)
    ensures
        advance_spec(r, q, s, e).action matches ActionV::Respond(resp) ==> {
            ||| fixed_answer(r, resp)
            ||| r == Route::Login && (e matches Event::AccessIssued(Ok(token))
                && resp == ResponseV::Json(JsonBodyV::Token { token: token@, message: "Login complete"@ }))
        },
{
}

/// The exact outcome of the guard of a login or password-change route: it
/// looks up the stored hash for the email; an absent row or a failed query
/// is answered with the not-found message, and a password that does not
/// match (or a failed check) with the wrong-password message. Either way
/// the request is over and nothing else is done; a match goes on with the
/// route's challenge.
pub proof fn credential_guard_outcomes(r: Route, q: RequestV, row: Lookup, checked: Result<bool, ()>)
    requires
        guard(r) == Guard::Credentials,
    ensures
        ({
            let t1 = advance_spec(r, q, StageV::Idle, Event::Begin);
            let t2 = advance_spec(r, q, t1.stage, Event::PasswordRow(row));
            &&& t1 == TransitionV {
                stage: StageV::AwaitUser,
                action: ActionV::Lookup(DbQueryV::PasswordHash { email: q.email }),
            }
            &&& (t2.action == ActionV::Respond(ResponseV::BadRequest(not_found_text(r)))) <==> !(row is Found)
            &&& !(row is Found) ==> t2.stage is Done
            &&& row matches Lookup::Found(hash) ==> {
                let t3 = advance_spec(r, q, t2.stage, Event::PasswordChecked(checked));
                &&& t2 == TransitionV {
                    stage: StageV::AwaitPasswordCheck,
                    action: ActionV::VerifyPassword { password: q.password, hash: hash@ },
                }
                &&& (t3.action == ActionV::Respond(ResponseV::BadRequest(wrong_password_text(r))))
                    <==> checked != Ok::<bool, ()>(true)
                &&& checked != Ok::<bool, ()>(true) ==> t3.stage is Done
                &&& checked == Ok::<bool, ()>(true) ==> t3 == after_guard_spec(r, q)
            }
        }),
{
}

/// Password recovery never consults the account: it looks up no user and
/// checks no password, so its answers (fixed texts, by
/// `answers_are_fixed_texts`) cannot tell whether the email has an account.
pub proof fn recovery_never_consults_the_account(r: Route, q: RequestV, s: StageV, e: Event)
    requires
        guard(r) == Guard::Open,
    ensures
        !(advance_spec(r, q, s, e).action is Lookup),
        !(advance_spec(r, q, s, e).action is VerifyPassword),
{
}

// ---------- secrets do not reach the answer (two runs compared) ----------

/// Two events that differ at most in a secret the services answered: the
/// one-time code, the link token, or the password hash.
pub open spec fn same_but_secrets(e1: Event, e2: Event) -> bool {
    ||| e1 == e2
    ||| (e1 matches Event::OtpIssued(Ok(_)) && e2 matches Event::OtpIssued(Ok(_)))
    ||| (e1 matches Event::LinkIssued(Ok(_)) && e2 matches Event::LinkIssued(Ok(_)))
    ||| (e1 matches Event::Hashed(Ok(_)) && e2 matches Event::Hashed(Ok(_)))
}

/// Two phases that differ at most in the code that the email will carry.
pub open spec fn same_shape(s1: StageV, s2: StageV) -> bool {
    match (s1, s2) {
        (StageV::AwaitHash { .. }, StageV::AwaitHash { .. }) => true,
        (StageV::AwaitStore { .. }, StageV::AwaitStore { .. }) => true,
        _ => s1 == s2,
    }
}

proof fn lemma_secret_blind_step(r: Route, q: RequestV, s1: StageV, s2: StageV, e1: Event, e2: Event)
    requires
        same_shape(s1, s2),
        same_but_secrets(e1, e2),
    ensures
        ({
            let t1 = advance_spec(r, q, s1, e1);
            let t2 = advance_spec(r, q, s2, e2);
            &&& same_shape(t1.stage, t2.stage)
            &&& is_final(t1.action) ==> t1.action == t2.action
        }),
{
}

proof fn lemma_secret_blind_run(r: Route, q: RequestV, evs1: Seq<Event>, evs2: Seq<Event>, k: int)
    requires
        evs1.len() == evs2.len(),
        forall|i: int| 0 <= i < evs1.len() ==> same_but_secrets(#[trigger] evs1[i], evs2[i]),
        0 <= k <= evs1.len(),
    ensures
        same_shape(stage_after(r, q, evs1.take(k)), stage_after(r, q, evs2.take(k))),
    decreases k,
{
    if k == 0 {
        assert(evs1.take(0).len() == 0 && evs2.take(0).len() == 0);
    } else {
        lemma_secret_blind_run(r, q, evs1, evs2, k - 1);
        lemma_take_step(evs1, k - 1);
        lemma_take_step(evs2, k - 1);
        lemma_secret_blind_step(
            r,
            q,
            stage_after(r, q, evs1.take(k - 1)),
            stage_after(r, q, evs2.take(k - 1)),
            evs1[k - 1],
            evs2[k - 1],
        );
    }
}

/// Two runs of a route on the same request, whose services answered the
/// same except for the one-time code, the link token or the hash, end the
/// same way: the answer to the client (or the giving up) never depends on
/// those secrets.
pub proof fn secrets_never_reach_the_answer(r: Route, q: RequestV, evs1: Seq<Event>, evs2: Seq<Event>, k: int)
    requires
        evs1.len() == evs2.len(),
        forall|i: int| 0 <= i < evs1.len() ==> same_but_secrets(#[trigger] evs1[i], evs2[i]),
        0 <= k < evs1.len(),
        is_final(action_at(r, q, evs1, k)),
    ensures
        action_at(r, q, evs2, k) == action_at(r, q, evs1, k),
{
    lemma_secret_blind_run(r, q, evs1, evs2, k);
    lemma_secret_blind_step(
        r,
        q,
        stage_after(r, q, evs1.take(k)),
        stage_after(r, q, evs2.take(k)),
        evs1[k],
        evs2[k],
    );
}

/// The action taken on the `k`-th event of a verification request.
pub open spec fn verify_action_at(c: TicketV, evs: Seq<Event>, k: int) -> ActionV {
    verify_spec(c, verify_stage_after(c, evs.take(k)), evs[k]).action
}

/// Two events that differ at most in the one-time code that was made.
pub open spec fn same_but_code(e1: Event, e2: Event) -> bool {
    e1 == e2 || (e1 matches Event::OtpIssued(Ok(_)) && e2 matches Event::OtpIssued(Ok(_)))
}

proof fn lemma_code_blind_run(c: TicketV, evs1: Seq<Event>, evs2: Seq<Event>, k: int)
    requires
        evs1.len() == evs2.len(),
        forall|i: int| 0 <= i < evs1.len() ==> same_but_code(#[trigger] evs1[i], evs2[i]),
        0 <= k <= evs1.len(),
    ensures
        verify_stage_after(c, evs1.take(k)) == verify_stage_after(c, evs2.take(k)),
    decreases k,
{
    if k == 0 {
        assert(evs1.take(0).len() == 0 && evs2.take(0).len() == 0);
    } else {
        lemma_code_blind_run(c, evs1, evs2, k - 1);
        lemma_take_step(evs1, k - 1);
        lemma_take_step(evs2, k - 1);
    }
}

/// Two verification runs whose services answered the same except for the
/// one-time code end the same way: the form of `/verify-two` carries the
/// user, never the code, which reaches the user only by email.
pub proof fn the_code_never_reaches_the_page(c: TicketV, evs1: Seq<Event>, evs2: Seq<Event>, k: int)
    requires
        evs1.len() == evs2.len(),
        forall|i: int| 0 <= i < evs1.len() ==> same_but_code(#[trigger] evs1[i], evs2[i]),
        0 <= k < evs1.len(),
        is_final(verify_action_at(c, evs1, k)),
    ensures
        verify_action_at(c, evs2, k) == verify_action_at(c, evs1, k),
{
    lemma_code_blind_run(c, evs1, evs2, k);
}

// ---------- the `/verify-two` routes are their `/verify` twins ----------

/// The pairs of routes that differ only in the page their link leads to.
pub open spec fn link_twins(r3: Route, r4: Route) -> bool {
    ||| r3 == Route::Login3 && r4 == Route::Login4
    ||| r3 == Route::ChangePassword3 && r4 == Route::ChangePassword4
    ||| r3 == Route::ForgottenPassword3 && r4 == Route::ForgottenPassword4
    ||| r3 == Route::Signup3 && r4 == Route::Signup4
}

/// Two links to the two pages with the same token.
pub open spec fn twin_links(c3: Seq<char>, c4: Seq<char>) -> bool {
    exists|token: Seq<char>|
        c3 == link_base(LinkPage::Verify) + token && c4 == link_base(LinkPage::VerifyTwo) + token
}

pub open spec fn twin_stages(s3: StageV, s4: StageV) -> bool {
    match (s3, s4) {
        (StageV::AwaitHash { code: c3 }, StageV::AwaitHash { code: c4 }) => twin_links(c3, c4),
        (StageV::AwaitStore { code: c3 }, StageV::AwaitStore { code: c4 }) => twin_links(c3, c4),
        _ => s3 == s4,
    }
}

/// The same action, or two emails alike but for the link they carry.
pub open spec fn twin_actions(r3: Route, a3: ActionV, a4: ActionV) -> bool {
    ||| a3 == a4
    ||| (a3 matches ActionV::SendEmail(m3) && a4 matches ActionV::SendEmail(m4) && {
        &&& m3.to == m4.to && m3.subject == m4.subject
        &&& exists|c3: Seq<char>, c4: Seq<char>|
            twin_links(c3, c4) && m3.body == body_head(r3) + c3 + body_tail(r3)
                && m4.body == body_head(r3) + c4 + body_tail(r3)
    })
}

proof fn lemma_twin_step(r3: Route, r4: Route, q: RequestV, s3: StageV, s4: StageV, e: Event)
    requires
        link_twins(r3, r4),
        twin_stages(s3, s4),
    ensures
        ({
            let t3 = advance_spec(r3, q, s3, e);
            let t4 = advance_spec(r4, q, s4, e);
            &&& twin_stages(t3.stage, t4.stage)
            &&& twin_actions(r3, t3.action, t4.action)
        }),
{
    let t3 = advance_spec(r3, q, s3, e);
    let t4 = advance_spec(r4, q, s4, e);
    if s3 is AwaitChallenge {
        match e {
            Event::LinkIssued(Ok(token)) => {
                assert(twin_links(link_base(LinkPage::Verify) + token@, link_base(LinkPage::VerifyTwo) + token@));
            },
            _ => {},
        }
    }
    if s3 is AwaitStore && t3.action is SendEmail {
        let c3 = s3->AwaitStore_code;
        let c4 = s4->AwaitStore_code;
        assert(twin_links(c3, c4) && t3.action->SendEmail_0.body == body_head(r3) + c3 + body_tail(r3)
            && t4.action->SendEmail_0.body == body_head(r3) + c4 + body_tail(r3));
    }
}

proof fn lemma_twin_run(r3: Route, r4: Route, q: RequestV, evs: Seq<Event>, k: int)
    requires
        link_twins(r3, r4),
        0 <= k <= evs.len(),
    ensures
        twin_stages(stage_after(r3, q, evs.take(k)), stage_after(r4, q, evs.take(k))),
    decreases k,
{
    if k == 0 {
        assert(evs.take(0).len() == 0);
    } else {
        lemma_twin_run(r3, r4, q, evs, k - 1);
        lemma_take_step(evs, k - 1);
        lemma_twin_step(r3, r4, q, stage_after(r3, q, evs.take(k - 1)), stage_after(r4, q, evs.take(k - 1)), evs[k - 1]);
    }
}

/// On the same request and the same service answers, each `/verify-two`
/// route (`login4`, `change_password_4`, `forgotten_password_4`,
/// `signup4`) takes the same actions and gives the same answer as its
/// `/verify` twin, but for the emailed link, which carries the same token
/// to the other page.
pub proof fn verify_two_routes_follow_their_twins(r3: Route, r4: Route, q: RequestV, evs: Seq<Event>, k: int)
    requires
        link_twins(r3, r4),
        0 <= k < evs.len(),
    ensures
        twin_actions(r3, action_at(r3, q, evs, k), action_at(r4, q, evs, k)),
        is_final(action_at(r3, q, evs, k)) ==> action_at(r4, q, evs, k) == action_at(r3, q, evs, k),
{
    lemma_twin_run(r3, r4, q, evs, k);
    lemma_twin_step(r3, r4, q, stage_after(r3, q, evs.take(k)), stage_after(r4, q, evs.take(k)), evs[k]);
}

} // verus!
