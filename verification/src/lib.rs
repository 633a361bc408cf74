//! Account workflows (sign-up, login, password change and recovery, link
//! and one-time-code verification) written as verified decision procedures.
//! Each endpoint is a function that, given the phase a request is in and
//! the answer to the action it asked for, picks the next action; the server
//! around it performs the actions (database, cache, hashing, email) and
//! hands the answers back.

pub mod change_password;
pub mod forgotten_password;
pub mod laws;
pub mod login;
pub mod protocol;
pub mod route_texts;
pub mod services;
pub mod signup;
pub mod utils;
pub mod verification;
pub mod workflow;
