//! What each endpoint does, route by route, with the texts, cache keys,
//! addresses and payload fields it uses written out in full.

use vstd::prelude::*;
use crate::protocol::{
    ActionV, DbCommandV, DbQueryV, EmailV, Event, Fault, JsonBodyV, Lookup, Presence, ResponseV, SignupV,
};
use crate::change_password::ChangePasswordPayload;
use crate::forgotten_password::ForgotPasswordPayload;
use crate::login::LoginPayload;
use crate::signup::TempSignup;
use crate::verification::{verify_spec, Check, OtpPayload, TicketV, TokenQuery, VerifyStageV};
use crate::workflow::{advance_spec, RequestV, Route, StageV, TransitionV};

verus! {

/// The answer to a step whose success the client is told about: `ok` as
/// plain text when it succeeded, `err` as a bad request when it did not.
pub open spec fn told(succeeded: bool, ok: Seq<char>, err: Seq<char>) -> ActionV {
    if succeeded {
        ActionV::Respond(ResponseV::Plain(ok))
    } else {
        ActionV::Respond(ResponseV::BadRequest(err))
    }
}

/// Appending the empty text changes nothing.
proof fn lemma_empty_tail(s: Seq<char>)
    ensures
        s + ""@ == s,
{
    reveal_strlit("");
    assert(s + ""@ =~= s);
}

/// Once the email step is over, every route but the logins by code or link
/// answers with plain text exactly when the email went out, and a bad
/// request when it did not, each with its own text; the logins by code or
/// link (`login2`, `login3`, `login4`) answer with their success text
/// either way.
pub proof fn email_step_answer_by_route(r: Route, q: RequestV, sent: bool)
    ensures
        ({
            let t = advance_spec(r, q, StageV::AwaitEmail, Event::EmailSent(sent));
            let a = t.action;
            &&& t.stage is Done
            &&& !(r == Route::Login2 || r == Route::Login3 || r == Route::Login4) ==> (
                (a matches ActionV::Respond(ResponseV::Plain(_))) <==> sent)
            &&& r == Route::ChangePassword2 ==> a == told(
                sent,
                "Password update initiated. Please check your email for the validation OTP!"@,
                "Failed to send verification email."@,
            )
            &&& (r == Route::ChangePassword3 || r == Route::ChangePassword4) ==> a == told(
                sent,
                "Authorization link has been dispatched to your email."@,
                "Could not dispatch authorization email."@,
            )
            &&& r == Route::ForgottenPassword2 ==> a == told(
                sent,
                "Password reset code triggered. Please inspect your inbox."@,
                "Failed to emit recovery email data payload."@,
            )
            &&& (r == Route::ForgottenPassword3 || r == Route::ForgottenPassword4) ==> a == told(
                sent,
                "Recovery magic interface code successfully distributed via link address!"@,
                "Failed to send link vector payload."@,
            )
            &&& r == Route::Signup2 ==> a == told(
                sent,
                "OTP transmitted successfully! Please finalize via /verify-otp."@,
                "Failed to emit signup OTP."@,
            )
            &&& (r == Route::Signup3 || r == Route::Signup4) ==> a == told(
                sent,
                "Activation link dispatched to email."@,
                "Could not dispatch activation link."@,
            )
            &&& r == Route::Login2 ==> a == ActionV::Respond(
                ResponseV::Plain("Verification OTP dispatched to registered destination info."@),
            )
            &&& (r == Route::Login3 || r == Route::Login4) ==> a == ActionV::Respond(
                ResponseV::Plain("Magic login access hyperlink dispatched."@),
            )
        }),
{
}

/// Once the database write is over, the routes that write the users table
/// tell the client, each in its own words, whether it succeeded.
pub proof fn write_outcome_by_route(r: Route, q: RequestV, code: Seq<char>, ok: bool)
    ensures
        ({
            let a = advance_spec(r, q, StageV::AwaitStore { code }, Event::Executed(ok)).action;
            &&& r == Route::ChangePassword ==> a == told(
                ok,
                "Password changed successfully!"@,
                "Failed to update database record."@,
            )
            &&& r == Route::ForgottenPassword ==> a == told(
                ok,
                "Your account password has been successfully reset!"@,
                "Failed to complete password reset workflow in the system database."@,
            )
            &&& r == Route::Signup ==> a == told(ok, "Registration successful!"@, "Database insertion failed."@)
        }),
{
}

/// The write that follows the hash `h` of the chosen password: the direct
/// routes store it in the users table (a sign-up with the name and email it
/// was given), the others cache it for five minutes under
/// `pending_pwd:<email>` (password change), `forgot_pwd:<email>` (recovery)
/// or, with the name and email, `signup:<email>` (sign-up). The logins
/// never hash a password.
pub proof fn write_by_route(r: Route, q: RequestV, code: Seq<char>, h: String)
    ensures
        ({
            let t = advance_spec(r, q, StageV::AwaitHash { code }, Event::Hashed(Ok::<String, ()>(h)));
            let next = StageV::AwaitStore { code };
            &&& (r == Route::ChangePassword || r == Route::ForgottenPassword) ==> t == TransitionV {
                stage: next,
                action: ActionV::Execute(DbCommandV::UpdatePassword { password_hash: h@, email: q.email }),
            }
            &&& r == Route::Signup ==> t == TransitionV {
                stage: next,
                action: ActionV::Execute(
                    DbCommandV::InsertUser { name: q.name, email: q.email, password_hash: h@ },
                ),
            }
            &&& (r == Route::ChangePassword2 || r == Route::ChangePassword3 || r == Route::ChangePassword4)
                ==> t == TransitionV {
                stage: next,
                action: ActionV::CacheText { key: "pending_pwd:"@ + q.email, value: h@, ttl_secs: 300 },
            }
            &&& (r == Route::ForgottenPassword2 || r == Route::ForgottenPassword3
                || r == Route::ForgottenPassword4) ==> t == TransitionV {
                stage: next,
                action: ActionV::CacheText { key: "forgot_pwd:"@ + q.email, value: h@, ttl_secs: 300 },
            }
            &&& (r == Route::Signup2 || r == Route::Signup3 || r == Route::Signup4) ==> t == TransitionV {
                stage: next,
                action: ActionV::CacheSignup {
                    key: "signup:"@ + q.email,
                    record: SignupV { name: q.name, email: q.email, pwd: h@ },
                    ttl_secs: 300,
                },
            }
            &&& (r == Route::Login || r == Route::Login2 || r == Route::Login3 || r == Route::Login4)
                ==> t.action == ActionV::Abort(Fault::OutOfOrder)
        }),
{
}

/// What each route does first: the routes that check a password look up the
/// stored hash of the given email, the sign-ups look up whether the email is
/// taken, and password recovery, which checks nothing, goes straight to
/// hashing the new password, to a six-digit code for the email that lasts
/// five minutes, or to a five-minute link token for the email.
pub proof fn first_step_by_route(r: Route, q: RequestV)
    ensures
        ({
            let t = advance_spec(r, q, StageV::Idle, Event::Begin);
            &&& (r == Route::Login || r == Route::Login2 || r == Route::Login3 || r == Route::Login4
                || r == Route::ChangePassword || r == Route::ChangePassword2 || r == Route::ChangePassword3
                || r == Route::ChangePassword4) ==> t == TransitionV {
                stage: StageV::AwaitUser,
                action: ActionV::Lookup(DbQueryV::PasswordHash { email: q.email }),
            }
            &&& (r == Route::Signup || r == Route::Signup2 || r == Route::Signup3 || r == Route::Signup4)
                ==> t == TransitionV {
                stage: StageV::AwaitUser,
                action: ActionV::Lookup(DbQueryV::UserId { email: q.email }),
            }
            &&& r == Route::ForgottenPassword ==> t == TransitionV {
                stage: StageV::AwaitHash { code: Seq::empty() },
                action: ActionV::HashPassword { password: q.new_password },
            }
            &&& r == Route::ForgottenPassword2 ==> t == TransitionV {
                stage: StageV::AwaitChallenge,
                action: ActionV::GenerateOtp { user_id: q.email, digits: 6, ttl_secs: 300 },
            }
            &&& (r == Route::ForgottenPassword3 || r == Route::ForgottenPassword4) ==> t == TransitionV {
                stage: StageV::AwaitChallenge,
                action: ActionV::IssueLinkToken { key: q.email, expiry_secs: 300 },
            }
        }),
{
}

/// What each route does once the password has checked out, or once the
/// email of a sign-up has been found free: the plain login asks for a login
/// token, the routes by code ask for a six-digit code for the email that
/// lasts five minutes, the routes by link for a five-minute link token for
/// the email, and the direct password change and sign-up hash the new
/// password.
pub proof fn step_after_the_check_by_route(r: Route, q: RequestV)
    ensures
        ({
            let t = if r == Route::Signup || r == Route::Signup2 || r == Route::Signup3 || r == Route::Signup4 {
                advance_spec(r, q, StageV::AwaitUser, Event::UserPresence(Presence::Absent))
            } else {
                advance_spec(r, q, StageV::AwaitPasswordCheck, Event::PasswordChecked(Ok::<bool, ()>(true)))
            };
            let otp = TransitionV {
                stage: StageV::AwaitChallenge,
                action: ActionV::GenerateOtp { user_id: q.email, digits: 6, ttl_secs: 300 },
            };
            let link = TransitionV {
                stage: StageV::AwaitChallenge,
                action: ActionV::IssueLinkToken { key: q.email, expiry_secs: 300 },
            };
            let hash = TransitionV {
                stage: StageV::AwaitHash { code: Seq::empty() },
                action: ActionV::HashPassword { password: q.new_password },
            };
            &&& r == Route::Login ==> t == TransitionV {
                stage: StageV::AwaitChallenge,
                action: ActionV::IssueAccessToken { subject: q.email },
            }
            &&& (r == Route::Login2 || r == Route::ChangePassword2 || r == Route::Signup2) ==> t == otp
            &&& (r == Route::Login3 || r == Route::Login4 || r == Route::ChangePassword3
                || r == Route::ChangePassword4 || r == Route::Signup3 || r == Route::Signup4) ==> t == link
            &&& (r == Route::ChangePassword || r == Route::Signup) ==> t == hash
        }),
{
}

/// What the client is told when the check fails: an unknown account, a
/// wrong password (or a check that could not be made), an email already
/// taken by an account, each in the words of its route.
pub proof fn refusal_by_route(r: Route, q: RequestV, row: Lookup, checked: Result<bool, ()>)
    ensures
        ({
            let missing = advance_spec(r, q, StageV::AwaitUser, Event::PasswordRow(row)).action;
            let wrong = advance_spec(r, q, StageV::AwaitPasswordCheck, Event::PasswordChecked(checked)).action;
            let taken = advance_spec(r, q, StageV::AwaitUser, Event::UserPresence(Presence::Present)).action;
            let logins = r == Route::Login || r == Route::Login2 || r == Route::Login3 || r == Route::Login4;
            let changes = r == Route::ChangePassword || r == Route::ChangePassword2
                || r == Route::ChangePassword3 || r == Route::ChangePassword4;
            let signups = r == Route::Signup || r == Route::Signup2 || r == Route::Signup3 || r == Route::Signup4;
            &&& (logins && !(row is Found)) ==> missing == ActionV::Respond(
                ResponseV::BadRequest("User account does not exist."@),
            )
            &&& (changes && !(row is Found)) ==> missing == ActionV::Respond(
                ResponseV::BadRequest("User account not found."@),
            )
            &&& (r == Route::Login && checked != Ok::<bool, ()>(true)) ==> wrong == ActionV::Respond(
                ResponseV::BadRequest("Invalid credentials structural validation."@),
            )
            &&& ((r == Route::Login2 || r == Route::Login3 || r == Route::Login4) && checked != Ok::<bool, ()>(
                true,
            )) ==> wrong == ActionV::Respond(ResponseV::BadRequest("Invalid credentials."@))
            &&& (changes && checked != Ok::<bool, ()>(true)) ==> wrong == ActionV::Respond(
                ResponseV::BadRequest("Old password verification failed."@),
            )
            &&& signups ==> taken == ActionV::Respond(
                ResponseV::BadRequest("User already exists with this email."@),
            )
        }),
{
}

/// What follows an issued code or token: the plain login answers with the
/// token and "Login complete"; the login by code emails the code and the
/// logins by link email a link to `/verify` (`login3`) or `/verify-two`
/// (`login4`) carrying the token, each to the requester's email; the other
/// routes hash the new password and keep the code, or that link, for the
/// email that follows.
pub proof fn step_after_the_challenge_by_route(r: Route, q: RequestV, issued: String)
    ensures
        ({
            let by_code = advance_spec(r, q, StageV::AwaitChallenge, Event::OtpIssued(Ok::<String, ()>(issued)));
            let by_link = advance_spec(r, q, StageV::AwaitChallenge, Event::LinkIssued(Ok::<String, ()>(issued)));
            let by_token = advance_spec(r, q, StageV::AwaitChallenge, Event::AccessIssued(Ok::<String, ()>(issued)));
            let verify = "https://example.com/verify?v="@ + issued@;
            let verify_two = "https://example.com/verify-two?v="@ + issued@;
            &&& r == Route::Login ==> by_token == TransitionV {
                stage: StageV::Done,
                action: ActionV::Respond(
                    ResponseV::Json(JsonBodyV::Token { token: issued@, message: "Login complete"@ }),
                ),
            }
            &&& r == Route::Login2 ==> by_code == TransitionV {
                stage: StageV::AwaitEmail,
                action: ActionV::SendEmail(EmailV {
                    to: q.email,
                    subject: "2FA Login Challenge Code"@,
                    body: "Your secure login entry phase security code is: "@ + issued@,
                }),
            }
            &&& r == Route::Login3 ==> by_link == TransitionV {
                stage: StageV::AwaitEmail,
                action: ActionV::SendEmail(EmailV {
                    to: q.email,
                    subject: "Magic Login Entry Node Link"@,
                    body: "Click here to access your session instantly: "@ + verify,
                }),
            }
            &&& r == Route::Login4 ==> by_link == TransitionV {
                stage: StageV::AwaitEmail,
                action: ActionV::SendEmail(EmailV {
                    to: q.email,
                    subject: "Magic Login Entry Node Link"@,
                    body: "Click here to access your session instantly: "@ + verify_two,
                }),
            }
            &&& (r == Route::ChangePassword2 || r == Route::ForgottenPassword2 || r == Route::Signup2)
                ==> by_code == TransitionV {
                stage: StageV::AwaitHash { code: issued@ },
                action: ActionV::HashPassword { password: q.new_password },
            }
            &&& (r == Route::ChangePassword3 || r == Route::ForgottenPassword3 || r == Route::Signup3)
                ==> by_link == TransitionV {
                stage: StageV::AwaitHash { code: verify },
                action: ActionV::HashPassword { password: q.new_password },
            }
            &&& (r == Route::ChangePassword4 || r == Route::ForgottenPassword4 || r == Route::Signup4)
                ==> by_link == TransitionV {
                stage: StageV::AwaitHash { code: verify_two },
                action: ActionV::HashPassword { password: q.new_password },
            }
        }),
{
    let verify = "https://example.com/verify?v="@ + issued@;
    let verify_two = "https://example.com/verify-two?v="@ + issued@;
    lemma_empty_tail("Your secure login entry phase security code is: "@ + issued@);
    lemma_empty_tail("Click here to access your session instantly: "@ + verify);
    lemma_empty_tail("Click here to access your session instantly: "@ + verify_two);
}

/// The email that follows a cached entry: to the requester's email, with
/// the subject of the route and a body that carries the code or link kept
/// for it; a cache that could not be reached ends the request.
pub proof fn email_by_route(r: Route, q: RequestV, code: Seq<char>, connected: bool)
    ensures
        ({
            let t = advance_spec(r, q, StageV::AwaitStore { code }, Event::Cached(connected));
            let mail = |subject: Seq<char>, body: Seq<char>| TransitionV {
                stage: StageV::AwaitEmail,
                action: ActionV::SendEmail(EmailV { to: q.email, subject, body }),
            };
            let caches = r == Route::ChangePassword2 || r == Route::ChangePassword3 || r == Route::ChangePassword4
                || r == Route::ForgottenPassword2 || r == Route::ForgottenPassword3
                || r == Route::ForgottenPassword4 || r == Route::Signup2 || r == Route::Signup3
                || r == Route::Signup4;
            &&& (caches && !connected) ==> t.action == ActionV::Abort(Fault::CacheConnection)
            &&& (r == Route::ChangePassword2 && connected) ==> t == mail(
                "Confirm Password Change Request"@,
                "Use this code to finalize your password update: "@ + code + ". Valid for 5 minutes."@,
            )
            &&& ((r == Route::ChangePassword3 || r == Route::ChangePassword4) && connected) ==> t == mail(
                "Authorize Password Modification"@,
                "Click this secure node link to authorize your new account password: "@ + code,
            )
            &&& (r == Route::ForgottenPassword2 && connected) ==> t == mail(
                "Your Password Reset OTP Code"@,
                "Your temporary recovery security verification code is: "@ + code
                    + ". Enter this to save your new password."@,
            )
            &&& ((r == Route::ForgottenPassword3 || r == Route::ForgottenPassword4) && connected) ==> t == mail(
                "Secure Recovery Password Link Request"@,
                "Click on the following address parameter route to finish changing your access token credentials: "@
                    + code,
            )
            &&& (r == Route::Signup2 && connected) ==> t == mail(
                "Verify Account OTP"@,
                "Your registration security code is: "@ + code + ". Valid for 5 mins."@,
            )
            &&& ((r == Route::Signup3 || r == Route::Signup4) && connected) ==> t == mail(
                "Complete your Signup"@,
                "Click this activation node link to finalize setup: "@ + code,
            )
        }),
{
    lemma_empty_tail("Click this secure node link to authorize your new account password: "@ + code);
    lemma_empty_tail(
        "Click on the following address parameter route to finish changing your access token credentials: "@
            + code,
    );
    lemma_empty_tail("Click this activation node link to finalize setup: "@ + code);
}

/// What `/verify-otp` does: it checks the posted code against the posted
/// key, asks for a login token for that key once the code checks out, and
/// otherwise answers with a JSON error.
pub proof fn code_check_by_outcome(c: TicketV, checked: Result<bool, ()>)
    requires
        c.check == Check::Otp,
    ensures
        ({
            let start = verify_spec(c, VerifyStageV::Idle, Event::Begin);
            let t = verify_spec(c, VerifyStageV::AwaitOtpCheck, Event::OtpChecked(checked));
            &&& start.stage is AwaitOtpCheck
            &&& start.action == ActionV::VerifyOtp { key: c.key, otp: c.otp }
            &&& checked == Ok::<bool, ()>(true) ==> (t.stage is AwaitAccess
                && t.action == ActionV::IssueAccessToken { subject: c.key })
            &&& checked != Ok::<bool, ()>(true) ==> t.action == ActionV::Respond(
                ResponseV::BadRequestJson(JsonBodyV::Rejected { error: "Invalid or expired OTP code code."@ }),
            )
        }),
{
}

/// What `/verify` and `/verify-two` do with a link token: they read whom it
/// names, then check it; a token that cannot be read or does not check is
/// refused, in the words of each endpoint. A token that checks out leads
/// `/verify` to ask for a login token for the user it names, and
/// `/verify-two` to ask for a six-digit code for that user that lasts five
/// minutes.
pub proof fn link_check_by_outcome(c: TicketV, subject: Seq<char>, read: Result<String, ()>, checked: Result<bool, ()>)
    requires
        c.check != Check::Otp,
    ensures
        ({
            let refused = if c.check == Check::Link {
                ActionV::Respond(ResponseV::BadRequest("Invalid or expired verification link."@))
            } else {
                ActionV::Respond(ResponseV::BadRequest("Link verification failed or token expired."@))
            };
            let start = verify_spec(c, VerifyStageV::Idle, Event::Begin);
            let after_read = verify_spec(c, VerifyStageV::AwaitSubject, Event::SubjectRead(read));
            let after_check = verify_spec(c, VerifyStageV::AwaitLinkCheck { subject }, Event::LinkChecked(checked));
            &&& start.stage is AwaitSubject
            &&& start.action == ActionV::ReadTokenSubject { token: c.token }
            &&& read is Err ==> after_read.action == refused
            &&& read matches Ok(named) ==> (after_read.stage == VerifyStageV::AwaitLinkCheck { subject: named@ }
                && after_read.action == ActionV::CheckLinkToken { token: c.token })
            &&& checked != Ok::<bool, ()>(true) ==> after_check.action == refused
            &&& (checked == Ok::<bool, ()>(true) && c.check == Check::Link) ==> (after_check.stage is AwaitAccess
                && after_check.action == ActionV::IssueAccessToken { subject })
            &&& (checked == Ok::<bool, ()>(true) && c.check == Check::LinkThenOtp) ==> (
                after_check.stage == VerifyStageV::AwaitOtp { subject }
                && after_check.action == ActionV::GenerateOtp { user_id: subject, digits: 6, ttl_secs: 300 })
        }),
{
}

/// How `/verify-otp` and `/verify` answer once a login token has been asked
/// for: with the token and a message of their own, or with an error of
/// their own when none could be had.
pub proof fn login_token_answer_by_endpoint(c: TicketV, issued: Result<String, ()>)
    requires
        c.check != Check::LinkThenOtp,
    ensures
        ({
            let a = verify_spec(c, VerifyStageV::AwaitAccess, Event::AccessIssued(issued)).action;
            &&& issued matches Ok(token) ==> a == ActionV::Respond(ResponseV::Json(JsonBodyV::Session {
                message: if c.check == Check::Otp {
                    "OTP verification successful."@
                } else {
                    "Logged in successfully"@
                },
                login_token: token@,
            }))
            &&& (issued is Err && c.check == Check::Otp) ==> a == ActionV::Respond(
                ResponseV::BadRequest("Authentication succeeded, but application session setup failed."@),
            )
            &&& (issued is Err && c.check == Check::Link) ==> a == ActionV::Respond(
                ResponseV::BadRequest("Failed to generate application access token."@),
            )
        }),
{
}

/// Once `/verify-two` has a code for the link's owner, it emails the code
/// to that owner; when no code could be had it says so.
pub proof fn verify_two_code_email(c: TicketV, subject: Seq<char>, issued: Result<String, ()>)
    requires
        c.check == Check::LinkThenOtp,
    ensures
        ({
            let t = verify_spec(c, VerifyStageV::AwaitOtp { subject }, Event::OtpIssued(issued));
            &&& issued matches Ok(code) ==> (t.stage == VerifyStageV::AwaitEmail { subject }
                && t.action == ActionV::SendEmail(EmailV {
                    to: subject,
                    subject: "Your Verification Code"@,
                    body: "Your secure OTP code is: "@ + code@ + ". It expires in 5 minutes."@,
                }))
            &&& issued is Err ==> t.action == ActionV::Respond(
                ResponseV::BadRequest("Failed to initialize secondary verification code."@),
            )
        }),
{
}

/// What the password routes do with the fields of their payload: a password
/// change looks up the account of `email`, checks `old_pwd` against its
/// stored hash and hashes `new_pwd`; a recovery hashes `new_pwd`.
pub proof fn password_payload_fields(
    r: Route,
    change: ChangePasswordPayload,
    recovery: ForgotPasswordPayload,
    stored: String,
    code: Seq<char>,
)
    ensures
        ({
            let q = change.request();
            let changes = r == Route::ChangePassword || r == Route::ChangePassword2
                || r == Route::ChangePassword3 || r == Route::ChangePassword4;
            let recovers = r == Route::ForgottenPassword || r == Route::ForgottenPassword2
                || r == Route::ForgottenPassword3 || r == Route::ForgottenPassword4;
            &&& changes ==> advance_spec(r, q, StageV::Idle, Event::Begin).action == ActionV::Lookup(
                DbQueryV::PasswordHash { email: change.email@ },
            )
            &&& changes ==> advance_spec(r, q, StageV::AwaitUser, Event::PasswordRow(Lookup::Found(stored))).action
                == ActionV::VerifyPassword { password: change.old_pwd@, hash: stored@ }
            &&& r == Route::ChangePassword ==> advance_spec(
                r,
                q,
                StageV::AwaitPasswordCheck,
                Event::PasswordChecked(Ok::<bool, ()>(true)),
            ).action == ActionV::HashPassword { password: change.new_pwd@ }
            &&& (changes && r != Route::ChangePassword) ==> advance_spec(
                r,
                q,
                StageV::AwaitChallenge,
                if r == Route::ChangePassword2 {
                    Event::OtpIssued(Ok::<String, ()>(stored))
                } else {
                    Event::LinkIssued(Ok::<String, ()>(stored))
                },
            ).action == ActionV::HashPassword { password: change.new_pwd@ }
            &&& r == Route::ForgottenPassword ==> advance_spec(r, recovery.request(), StageV::Idle, Event::Begin).action
                == ActionV::HashPassword { password: recovery.new_pwd@ }
            &&& (recovers && r != Route::ForgottenPassword) ==> advance_spec(
                r,
                recovery.request(),
                StageV::AwaitChallenge,
                if r == Route::ForgottenPassword2 {
                    Event::OtpIssued(Ok::<String, ()>(stored))
                } else {
                    Event::LinkIssued(Ok::<String, ()>(stored))
                },
            ).action == ActionV::HashPassword { password: recovery.new_pwd@ }
            &&& r == Route::ForgottenPassword ==> advance_spec(
                r,
                recovery.request(),
                StageV::AwaitHash { code },
                Event::Hashed(Ok::<String, ()>(stored)),
            ).action == ActionV::Execute(DbCommandV::UpdatePassword { password_hash: stored@, email: recovery.email@ })
            &&& (recovers && r != Route::ForgottenPassword) ==> advance_spec(
                r,
                recovery.request(),
                StageV::AwaitHash { code },
                Event::Hashed(Ok::<String, ()>(stored)),
            ).action == ActionV::CacheText { key: "forgot_pwd:"@ + recovery.email@, value: stored@, ttl_secs: 300 }
        }),
{
}

/// What the sign-ups do with the fields of their payload: they look up
/// whether `email` is taken, hash `pwd`, and write `name` and `email` with
/// the hash, to the users table (`signup`) or to the pending sign-up cached
/// under `signup:<email>` (the others).
pub proof fn signup_payload_fields(r: Route, user: TempSignup, hash: String, code: Seq<char>)
    requires
        r == Route::Signup || r == Route::Signup2 || r == Route::Signup3 || r == Route::Signup4,
    ensures
        ({
            let q = user.request();
            let written = advance_spec(r, q, StageV::AwaitHash { code }, Event::Hashed(Ok::<String, ()>(hash))).action;
            &&& advance_spec(r, q, StageV::Idle, Event::Begin).action == ActionV::Lookup(
                DbQueryV::UserId { email: user.email@ },
            )
            &&& r == Route::Signup ==> advance_spec(r, q, StageV::AwaitUser, Event::UserPresence(Presence::Absent)).action
                == ActionV::HashPassword { password: user.pwd@ }
            &&& r != Route::Signup ==> advance_spec(
                r,
                q,
                StageV::AwaitChallenge,
                if r == Route::Signup2 {
                    Event::OtpIssued(Ok::<String, ()>(hash))
                } else {
                    Event::LinkIssued(Ok::<String, ()>(hash))
                },
            ).action == ActionV::HashPassword { password: user.pwd@ }
            &&& r == Route::Signup ==> written == ActionV::Execute(
                DbCommandV::InsertUser { name: user.name@, email: user.email@, password_hash: hash@ },
            )
            &&& r != Route::Signup ==> written == ActionV::CacheSignup {
                key: "signup:"@ + user.email@,
                record: SignupV { name: user.name@, email: user.email@, pwd: hash@ },
                ttl_secs: 300,
            }
        }),
{
}

/// What the logins do with the fields of their payload: they look up the
/// account of `email` and check `pwd` against its stored hash.
pub proof fn login_payload_fields(r: Route, login: LoginPayload, stored: String)
    requires
        r == Route::Login || r == Route::Login2 || r == Route::Login3 || r == Route::Login4,
    ensures
        ({
            let q = login.request();
            &&& advance_spec(r, q, StageV::Idle, Event::Begin).action == ActionV::Lookup(
                DbQueryV::PasswordHash { email: login.email@ },
            )
            &&& advance_spec(r, q, StageV::AwaitUser, Event::PasswordRow(Lookup::Found(stored))).action
                == ActionV::VerifyPassword { password: login.pwd@, hash: stored@ }
        }),
{
}

/// What the verification endpoints do with what they are given:
/// `/verify-otp` checks the posted code against the posted key, and
/// `/verify` and `/verify-two` read the token of their query.
pub proof fn verification_request_fields(payload: OtpPayload, query: TokenQuery, check: Check)
    requires
        check != Check::Otp,
    ensures
        ({
            let by_code = payload.ticket();
            let by_link = query.ticket(check);
            &&& verify_spec(by_code, VerifyStageV::Idle, Event::Begin).action == ActionV::VerifyOtp {
                key: payload.key_text(),
                otp: payload.otp_text(),
            }
            &&& verify_spec(by_code, VerifyStageV::AwaitOtpCheck, Event::OtpChecked(Ok::<bool, ()>(true))).action
                == ActionV::IssueAccessToken { subject: payload.key_text() }
            &&& verify_spec(by_link, VerifyStageV::Idle, Event::Begin).action == ActionV::ReadTokenSubject {
                token: query.token(),
            }
        }),
{
}

/// Once the code for a verified link has been emailed, `/verify-two`
/// answers with the page whose form posts the code, with the link's owner
/// in its hidden `key` field, to `/verify-otp`; when the email did not go
/// out it says so.
pub proof fn verify_two_page_by_outcome(c: TicketV, subject: Seq<char>, sent: bool)
    requires
        c.check == Check::LinkThenOtp,
    ensures
        ({
            let form_start = "<!DOCTYPE html>\n                <html>\n                <head><title>Verify OTP</title></head>\n                <body>\n                    <h2>Enter the OTP sent to your email</h2>\n                    <form action=\"/verify-otp\" method=\"POST\" enctype=\"application/json\">\n                        <input type=\"hidden\" id=\"key\" name=\"key\" value=\""@;
            let form_end = "\">\n                        <input type=\"text\" id=\"otp\" name=\"otp\" placeholder=\"Enter 6-Digit OTP\" required>\n                        <button type=\"submit\">Verify & Login</button>\n                    </form>\n                </body>\n                </html>"@;
            let t = verify_spec(c, VerifyStageV::AwaitEmail { subject }, Event::EmailSent(sent));
            &&& t.stage is Done
            &&& sent ==> t.action == ActionV::Respond(ResponseV::Html(form_start + subject + form_end))
            &&& !sent ==> t.action == ActionV::Respond(
                ResponseV::BadRequest("Could not transmit verification message."@),
            )
        }),
{
}

} // verus!
