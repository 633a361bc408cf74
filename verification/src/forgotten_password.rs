//! Password recovery: the new password is stored at once
//! (`forgotten_password`), or cached under `forgot_pwd:<email>` until it is
//! confirmed with a one-time code (`forgotten_password_2`) or a link
//! (`forgotten_password_3`, `forgotten_password_4`) sent by email.

use vstd::prelude::*;
use crate::protocol::{is_internal, Event};
use crate::workflow::{
    advance, advance_spec, advance_with_link, settles, Request, RequestV, Route, Stage,
    Transition,
};
use fr_rust::linkv::LinkV;

verus! {

/// The body of a password-recovery request.
#[derive(Debug, PartialEq, Eq)]
pub struct ForgotPasswordPayload {
    pub email: String,
    pub new_pwd: String,
}

impl ForgotPasswordPayload {
    /// The request as the workflow reads it: nothing is checked, `new_pwd`
    /// is hashed.
    pub open spec fn request(&self) -> RequestV {
        RequestV { name: Seq::empty(), email: self.email@, password: Seq::empty(), new_password: self.new_pwd@ }
    }

    pub fn to_request(&self) -> (q: Request)
        ensures
            q@ == self.request(),
    {
        Request {
            name: String::new(),
            email: self.email.clone(),
            password: String::new(),
            new_password: self.new_pwd.clone(),
        }
    }
}

/// One step of `/forgotten-password`: stores the hash of the new password.
pub fn forgotten_password(payload: &ForgotPasswordPayload, stage: &Stage, event: Event) -> (t: Transition)
    ensures
        t@ == advance_spec(Route::ForgottenPassword, payload.request(), stage@, event),
        !is_internal(t@.action),
{
    let q = payload.to_request();
    advance(Route::ForgottenPassword, &q, stage, event)
}

/// One step of `/forgotten-password2`: caches the hash of the new password
/// and emails a one-time code.
pub fn forgotten_password_2(payload: &ForgotPasswordPayload, stage: &Stage, event: Event) -> (t: Transition)
    ensures
        t@ == advance_spec(Route::ForgottenPassword2, payload.request(), stage@, event),
        !is_internal(t@.action),
{
    let q = payload.to_request();
    advance(Route::ForgottenPassword2, &q, stage, event)
}

/// One step of `/forgotten-password3`: caches the hash of the new password
/// and emails a link to `/verify` made by `linkv`.
pub fn forgotten_password_3(linkv: &LinkV, payload: &ForgotPasswordPayload, stage: &Stage, event: Event) -> (t: Transition)
    ensures
        settles(Route::ForgottenPassword3, payload.request(), advance_spec(Route::ForgottenPassword3, payload.request(), stage@, event), t@),
        !is_internal(t@.action),
{
    let q = payload.to_request();
    advance_with_link(linkv, Route::ForgottenPassword3, &q, stage, event)
}

/// One step of `/forgotten-password4`: as `forgotten_password_3`, with a
/// link to `/verify-two`.
pub fn forgotten_password_4(linkv: &LinkV, payload: &ForgotPasswordPayload, stage: &Stage, event: Event) -> (t: Transition)
    ensures
        settles(Route::ForgottenPassword4, payload.request(), advance_spec(Route::ForgottenPassword4, payload.request(), stage@, event), t@),
        !is_internal(t@.action),
{
    let q = payload.to_request();
    advance_with_link(linkv, Route::ForgottenPassword4, &q, stage, event)
}

} // verus!
