//! Login: with a password alone (`login`), or followed by a one-time code
//! (`login2`) or a magic link (`login3`, `login4`) sent by email.

use vstd::prelude::*;
use crate::protocol::{is_internal, Event};
use crate::workflow::{
    advance, advance_spec, advance_with_access, advance_with_link, settles,
    Request, RequestV, Route, Stage, Transition,
};
use fr_rust::jwt::JwtService;
use fr_rust::linkv::LinkV;

verus! {

/// The body of a login request.
#[derive(Debug, PartialEq, Eq)]
pub struct LoginPayload {
    pub email: String,
    pub pwd: String,
}

impl LoginPayload {
    /// The request as the workflow reads it: `pwd` is checked against the
    /// stored hash; nothing is hashed.
    pub open spec fn request(&self) -> RequestV {
        RequestV { name: Seq::empty(), email: self.email@, password: self.pwd@, new_password: Seq::empty() }
    }

    pub fn to_request(&self) -> (q: Request)
        ensures
            q@ == self.request(),
    {
        Request {
            name: String::new(),
            email: self.email.clone(),
            password: self.pwd.clone(),
            new_password: String::new(),
        }
    }
}

/// One step of `/login`: checks the password, then answers with a login
/// token made by `jwt`.
pub fn login(jwt: &JwtService, payload: &LoginPayload, stage: &Stage, event: Event) -> (t: Transition)
    ensures
        settles(Route::Login, payload.request(), advance_spec(Route::Login, payload.request(), stage@, event), t@),
        !is_internal(t@.action),
{
    let q = payload.to_request();
    advance_with_access(jwt, Route::Login, &q, stage, event)
}

/// One step of `/login2`: checks the password, then emails a one-time code.
pub fn login2(payload: &LoginPayload, stage: &Stage, event: Event) -> (t: Transition)
    ensures
        t@ == advance_spec(Route::Login2, payload.request(), stage@, event),
        !is_internal(t@.action),
{
    let q = payload.to_request();
    advance(Route::Login2, &q, stage, event)
}

/// One step of `/login3`: checks the password, then emails a link to
/// `/verify` made by `linkv`.
pub fn login3(linkv: &LinkV, payload: &LoginPayload, stage: &Stage, event: Event) -> (t: Transition)
    ensures
        settles(Route::Login3, payload.request(), advance_spec(Route::Login3, payload.request(), stage@, event), t@),
        !is_internal(t@.action),
{
    let q = payload.to_request();
    advance_with_link(linkv, Route::Login3, &q, stage, event)
}

/// One step of `/login4`: as `login3`, with a link to `/verify-two`.
pub fn login4(linkv: &LinkV, payload: &LoginPayload, stage: &Stage, event: Event) -> (t: Transition)
    ensures
        settles(Route::Login4, payload.request(), advance_spec(Route::Login4, payload.request(), stage@, event), t@),
        !is_internal(t@.action),
{
    let q = payload.to_request();
    advance_with_link(linkv, Route::Login4, &q, stage, event)
}

} // verus!
