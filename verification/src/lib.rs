//! Cookie-based session and identity subsystem of a photo-album service,
//! together with the pure rules the service's handlers rely on.
//!
//! The heart of the crate is the pair [`my_cookie_policy`] /
//! [`my_identity_service`]: sealing a user's identity into a tamper-evident
//! HTTP cookie, opening and validating such cookies under two key
//! generations, and the per-request middleware state machine that decodes,
//! hydrates, dispatches and finalizes a session.

use vstd::prelude::*;

pub mod db;
pub mod digits;
pub mod album_models;
pub mod config;
pub mod errors;
pub mod gg_storage;
pub mod handlers;
pub mod oauth;
pub mod models;
pub mod pwhash;
pub mod strutil;
pub mod my_cookie_policy;
pub mod my_identity_service;
pub mod user_models;
pub mod utils;

verus! {

} // verus!
