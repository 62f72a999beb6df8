//! The decision cores of the request handlers around the session subsystem.
//! The store queries and the HTTP framing around them live with the
//! surrounding program; what is decided from their answers is here.

use vstd::prelude::*;
use vstd::utf8::encode_utf8;
use crate::album_models::Album;
use crate::errors::{DBError, HandlerError};
use crate::my_cookie_policy::{CookieSpec, MyCookieIdentityPolicy, login_payload, sealed_cookie_ok};
use crate::my_identity_service::{Identity, login_user};
use crate::pwhash::argon_verify_of;
use crate::user_models::{LoginData, SendUser, Status, User};

verus! {

/// The health answer.
pub fn status() -> (r: Status)
    ensures
        r.status@ == "server is working!"@,
{
    Status { status: "server is working!".to_owned() }
}

/// What `/me` answers: the authenticated user, without the password field.
pub fn get_user(id: &Identity) -> (r: SendUser)
    requires
        id@ matches Some(it) && it.user is Some,
    ensures
        ({
            let u = id@->Some_0.user->Some_0;
            r.id == u.id && r.username@ == u.username && r.nickname@ == u.nickname && r.role@
                == u.role
        }),
{
    let user = id.identity();
    SendUser { id: user.id, username: user.username, nickname: user.nickname, role: user.role }
}

/// Logout: clears the slot and marks it changed, so finalizing emits the
/// clearing cookie; the response itself is a plain OK.
pub fn logout(id: &mut Identity)
    ensures
        match old(id)@ {
            Some(_) => final (id)@ matches Some(it) && it.user is None && it.changed == true,
            None => final (id)@ == old(id)@,
        },
{
    id.logout();
}

/// Whether a user may change an album or its photos: its owner may, and so
/// may any administrator.
pub fn can_modify_album(user: &User, album: &Album) -> (r: bool)
    ensures
        r == (user.id == album.users_id || user.role@ == "admin"@),
{
    let admin = "admin".to_owned();
    user.id == album.users_id || user.role.eq(&admin)
}

/// The login decision, given the store's answer for the claimed username: a
/// user found and the password verified mints the session cookie under the
/// user's role; a store miss and a wrong password answer alike with
/// `AuthFail`; store trouble answers `InternalError`, unusable arguments
/// `BadClientData`.
pub fn login(
    data: &LoginData,
    lookup: Result<User, DBError>,
    cookie_factory: &MyCookieIdentityPolicy,
    now: u64,
) -> (r: Result<CookieSpec, HandlerError>)
    requires
        cookie_factory@.wf(),
    ensures
        match lookup {
            Ok(u) => match argon_verify_of(u.password@, encode_utf8(data.password@)) {
                Some(true) => match r {
                    Ok(cs) => sealed_cookie_ok(
                        cookie_factory@,
                        cs,
                        u.role@,
                        Some(login_payload(cookie_factory@, u.username@, now)),
                    ),
                    Err(_) => false,
                },
                Some(false) => r matches Err(e) && e is AuthFail,
                None => r matches Err(e) && e is InternalError,
            },
            Err(DBError::PostgresError(_)) => r matches Err(e) && e is AuthFail,
            Err(DBError::MapperError(_)) => r matches Err(e) && e is InternalError,
            Err(DBError::ArgonError(_)) => r matches Err(e) && e is InternalError,
            Err(DBError::BadArgs { err }) => r matches Err(e) && (e matches
                HandlerError::BadClientData { field } && field@ == err@),
        },
{
    let user = match lookup {
        Ok(u) => u,
        Err(e) => match e {
            DBError::PostgresError(_) => {
                return Err(HandlerError::AuthFail);
            },
            DBError::MapperError(_) => {
                return Err(HandlerError::InternalError);
            },
            DBError::ArgonError(_) => {
                return Err(HandlerError::InternalError);
            },
            DBError::BadArgs { err } => {
                return Err(HandlerError::BadClientData { field: err });
            },
        },
    };
    let correct = match crate::user_models::Hash::verify_password(
        &user,
        data.password.as_str().as_bytes(),
    ) {
        Ok(b) => b,
        Err(_) => {
            return Err(HandlerError::InternalError);
        },
    };
    if !correct {
        return Err(HandlerError::AuthFail);
    }
    Ok(login_user(cookie_factory, user, now))
}

} // verus!
