//! The calls into `fr_rust` that this library makes itself. Everything here
//! is trusted: Verus believes these contracts, which were read off the
//! crate's source.

use vstd::prelude::*;
use fr_rust::jwt::JwtService;
use fr_rust::linkv::LinkV;

verus! {

#[verifier::external_type_specification]
#[verifier::external_body]
pub struct ExJwtService(JwtService);

#[verifier::external_type_specification]
#[verifier::external_body]
pub struct ExLinkV(LinkV);

/// The `sub` claim carried in the payload of a JSON web token, which is what
/// `JwtService::extract_subject` returns for it when its signature checks.
pub uninterp spec fn token_subject(token: Seq<char>) -> Seq<char>;

/// Calls `JwtService::generate` with `TokenType::Access`: a signed token
/// whose claims are `Claims::new(subject)` with a fifteen-minute expiry.
/// When it succeeds, the token carries `subject` as its subject claim. The
/// rest of the token (issue time, expiry, random id, signature) depends on
/// the clock, on chance and on the service's key, and is not stated.
#[verifier::external_body]
pub(crate) fn access_token(jwt: &JwtService, subject: &str) -> (r: Result<String, ()>)
    ensures
        r matches Ok(t) ==> token_subject(t@) == subject@,
{
    match jwt.generate(subject, fr_rust::jwt::jwt::TokenType::Access) {
        Ok(token) => Ok(token),
        Err(_) => Err(()),
    }
}

/// Calls `LinkV::generate_token`: a signed token for `Claims::new(key)` that
/// expires `ttl_secs` seconds from now. When it succeeds, the token carries
/// `key` as its subject claim; the rest depends on the clock, on chance and
/// on the key of the service, and is not stated.
#[verifier::external_body]
pub(crate) fn link_token(linkv: &LinkV, key: &str, ttl_secs: u32) -> (r: Result<String, ()>)
    ensures
        r matches Ok(t) ==> token_subject(t@) == key@,
{
    match linkv.generate_token(key, ttl_secs) {
        Ok(token) => Ok(token),
        Err(_) => Err(()),
    }
}

/// Calls `JwtService::extract_subject`, which decodes the token, checking
/// its signature but not its expiry, and returns its `sub` claim.
#[verifier::external_body]
pub(crate) fn read_subject(jwt: &JwtService, token: &str) -> (r: Result<String, ()>)
    ensures
        r matches Ok(s) ==> s@ == token_subject(token@),
{
    match jwt.extract_subject(token) {
        Some(subject) => Ok(subject),
        None => Err(()),
    }
}

/// Calls `LinkV::verify_token`, which answers `Ok(true)` when the token's
/// signature and expiry check and an error otherwise; it never answers
/// `Ok(false)`. Which of the two happens depends on the clock and the key,
/// and is not stated.
#[verifier::external_body]
pub(crate) fn check_link(linkv: &LinkV, token: &str) -> (r: Result<bool, ()>)
    ensures
        r matches Ok(valid) ==> valid,
{
    match linkv.verify_token(token) {
        Ok(valid) => Ok(valid),
        Err(_) => Err(()),
    }
}

} // verus!
