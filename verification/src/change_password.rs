//! Password change for a signed-in user who knows the old password: at once
//! (`change_password`), or once confirmed with a one-time code
//! (`change_password_2`) or a link (`change_password_3`,
//! `change_password_4`) sent by email.

use vstd::prelude::*;
use crate::protocol::{is_internal, Event};
use crate::workflow::{
    advance, advance_spec, advance_with_link, settles, Request, RequestV, Route, Stage,
    Transition,
};
use fr_rust::linkv::LinkV;

verus! {

/// The body of a password-change request.
#[derive(Debug, PartialEq, Eq)]
pub struct ChangePasswordPayload {
    pub email: String,
    pub old_pwd: String,
    pub new_pwd: String,
}

impl ChangePasswordPayload {
    /// The request as the workflow reads it: `old_pwd` is checked against
    /// the stored hash, `new_pwd` is hashed.
    pub open spec fn request(&self) -> RequestV {
        RequestV { name: Seq::empty(), email: self.email@, password: self.old_pwd@, new_password: self.new_pwd@ }
    }

    pub fn to_request(&self) -> (q: Request)
        ensures
            q@ == self.request(),
    {
        Request {
            name: String::new(),
            email: self.email.clone(),
            password: self.old_pwd.clone(),
            new_password: self.new_pwd.clone(),
        }
    }
}

/// One step of `/change-password`: checks the old password, then stores the
/// hash of the new one.
pub fn change_password(payload: &ChangePasswordPayload, stage: &Stage, event: Event) -> (t: Transition)
    ensures
        t@ == advance_spec(Route::ChangePassword, payload.request(), stage@, event),
        !is_internal(t@.action),
{
    let q = payload.to_request();
    advance(Route::ChangePassword, &q, stage, event)
}

/// One step of `/change-password2`: checks the old password, caches the
/// hash of the new one under `pending_pwd:<email>` and emails a one-time
/// code.
pub fn change_password_2(payload: &ChangePasswordPayload, stage: &Stage, event: Event) -> (t: Transition)
    ensures
        t@ == advance_spec(Route::ChangePassword2, payload.request(), stage@, event),
        !is_internal(t@.action),
{
    let q = payload.to_request();
    advance(Route::ChangePassword2, &q, stage, event)
}

/// One step of `/change-password3`: as `change_password_2`, with a link to
/// `/verify` made by `linkv` in place of the code.
pub fn change_password_3(linkv: &LinkV, payload: &ChangePasswordPayload, stage: &Stage, event: Event) -> (t: Transition)
    ensures
        settles(Route::ChangePassword3, payload.request(), advance_spec(Route::ChangePassword3, payload.request(), stage@, event), t@),
        !is_internal(t@.action),
{
    let q = payload.to_request();
    advance_with_link(linkv, Route::ChangePassword3, &q, stage, event)
}

/// One step of `/change-password4`: as `change_password_3`, with a link to
/// `/verify-two`.
pub fn change_password_4(linkv: &LinkV, payload: &ChangePasswordPayload, stage: &Stage, event: Event) -> (t: Transition)
    ensures
        settles(Route::ChangePassword4, payload.request(), advance_spec(Route::ChangePassword4, payload.request(), stage@, event), t@),
        !is_internal(t@.action),
{
    let q = payload.to_request();
    advance_with_link(linkv, Route::ChangePassword4, &q, stage, event)
}

} // verus!
