//! Sign-up: the account is created at once (`signup`), or the request is
//! cached under `signup:<email>` until it is confirmed with a one-time code
//! (`signup2`) or a link (`signup3`, `signup4`) sent by email. An email that
//! already has an account is refused.

use vstd::prelude::*;
use crate::protocol::{is_internal, Event};
use crate::workflow::{
    advance, advance_spec, advance_with_link, settles, Request, RequestV, Route, Stage,
    Transition,
};
use fr_rust::linkv::LinkV;

verus! {

/// A sign-up request, and the record kept while its confirmation is pending
/// (then `pwd` holds the password's hash).
#[derive(Debug, PartialEq, Eq)]
pub struct TempSignup {
    pub name: String,
    pub email: String,
    pub pwd: String,
}

impl TempSignup {
    /// The request as the workflow reads it: nothing is checked, `pwd` is
    /// hashed.
    pub open spec fn request(&self) -> RequestV {
        RequestV { name: self.name@, email: self.email@, password: Seq::empty(), new_password: self.pwd@ }
    }

    pub fn to_request(&self) -> (q: Request)
        ensures
            q@ == self.request(),
    {
        Request {
            name: self.name.clone(),
            email: self.email.clone(),
            password: String::new(),
            new_password: self.pwd.clone(),
        }
    }
}

/// One step of `/signup`: refuses a known email, then inserts the user with
/// the hash of the password.
pub fn signup(user_data: &TempSignup, stage: &Stage, event: Event) -> (t: Transition)
    ensures
        t@ == advance_spec(Route::Signup, user_data.request(), stage@, event),
        !is_internal(t@.action),
{
    let q = user_data.to_request();
    advance(Route::Signup, &q, stage, event)
}

/// One step of `/signup2`: refuses a known email, caches the request with
/// the password's hash and emails a one-time code.
pub fn signup2(user_data: &TempSignup, stage: &Stage, event: Event) -> (t: Transition)
    ensures
        t@ == advance_spec(Route::Signup2, user_data.request(), stage@, event),
        !is_internal(t@.action),
{
    let q = user_data.to_request();
    advance(Route::Signup2, &q, stage, event)
}

/// One step of `/signup3`: as `signup2`, with a link to `/verify` made by
/// `linkv` in place of the code.
pub fn signup3(linkv: &LinkV, user_data: &TempSignup, stage: &Stage, event: Event) -> (t: Transition)
    ensures
        settles(Route::Signup3, user_data.request(), advance_spec(Route::Signup3, user_data.request(), stage@, event), t@),
        !is_internal(t@.action),
{
    let q = user_data.to_request();
    advance_with_link(linkv, Route::Signup3, &q, stage, event)
}

/// One step of `/signup4`: as `signup3`, with a link to `/verify-two`.
pub fn signup4(linkv: &LinkV, user_data: &TempSignup, stage: &Stage, event: Event) -> (t: Transition)
    ensures
        settles(Route::Signup4, user_data.request(), advance_spec(Route::Signup4, user_data.request(), stage@, event), t@),
        !is_internal(t@.action),
{
    let q = user_data.to_request();
    advance_with_link(linkv, Route::Signup4, &q, stage, event)
}

} // verus!
