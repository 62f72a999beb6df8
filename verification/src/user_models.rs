//! User records and credential data as the user-facing endpoints exchange
//! them, and the hashing of the password field they share.

use vstd::prelude::*;
use vstd::utf8::encode_utf8;
use crate::pwhash::{argon_hash_of, argon_verify_of, argon2_hash_encoded, argon2_verify_encoded,
    random_salt, ArgonFailure};

verus! {

pub struct Status {
    pub status: String,
}

#[derive(Debug, Clone)]
pub struct User {
    pub id: i32,
    pub username: String,
    pub nickname: String,
    pub password: String,
    pub role: String,
}

pub ghost struct UserView {
    pub id: i32,
    pub username: Seq<char>,
    pub nickname: Seq<char>,
    pub password: Seq<char>,
    pub role: Seq<char>,
}

impl View for User {
    type V = UserView;

    open spec fn view(&self) -> UserView {
        UserView {
            id: self.id,
            username: self.username@,
            nickname: self.nickname@,
            password: self.password@,
            role: self.role@,
        }
    }
}

#[derive(Debug)]
pub struct UpdateUserAdmin {
    pub nickname: String,
    pub password: String,
    pub role: String,
}

#[derive(Debug)]
pub struct UpdateUser {
    pub nickname: String,
    pub password: String,
}

#[derive(Debug)]
pub struct LoginData {
    pub username: String,
    pub password: String,
}

#[derive(Debug)]
pub struct SendUser {
    pub id: i32,
    pub username: String,
    pub nickname: String,
    pub role: String,
}

#[derive(Debug, Clone)]
pub struct CreateUser {
    pub username: String,
    pub password: String,
    pub nickname: String,
    pub role: String,
}

/// The two session namespaces the service mounts; a user record's `role`
/// field holds one of them.
pub open spec fn is_role(s: Seq<char>) -> bool {
    s == "admin"@ || s == "user"@
}

pub fn role_admin() -> (r: &'static str)
    ensures
        r@ == "admin"@,
{
    "admin"
}

pub fn role_user() -> (r: &'static str)
    ensures
        r@ == "user"@,
{
    "user"
}

/// Hashing of the password field, for every record that carries one.
pub trait Hash: Sized {
    /// The password (or encoded hash) the record currently holds.
    spec fn password_of(&self) -> Seq<char>;

    /// The record with its password field replaced and all else unchanged.
    spec fn spec_set_password(self, h: String) -> Self;

    /// Hashes the held password under a fresh salt and returns the encoding.
    fn get_hashed_password(&self) -> (r: Result<String, ArgonFailure>)
        ensures
            match r {
                Ok(h) => ({
                    &&& exists|salt: Seq<u8>|
                        salt.len() == 32 && h@ == argon_hash_of(
                            encode_utf8(self.password_of()),
                            salt,
                        )
                    &&& argon_verify_of(h@, encode_utf8(self.password_of())) == Some(true)
                }),
                Err(_) => true,
            },
    ;

    /// Replaces the held password by its hash under a fresh salt.
    fn hash_password(&mut self) -> (r: Result<(), ArgonFailure>)
        ensures
            match r {
                Ok(_) => ({
                    &&& exists|h: String| *final (self) == old(self).spec_set_password(h)
                    &&& argon_verify_of(
                        final (self).password_of(),
                        encode_utf8(old(self).password_of()),
                    ) == Some(true)
                }),
                Err(_) => *final (self) == *old(self),
            },
    ;

    /// Checks a password attempt against the held encoded hash.
    fn verify_password(&self, password: &[u8]) -> (r: Result<bool, ArgonFailure>)
        ensures
            match r {
                Ok(b) => argon_verify_of(self.password_of(), password@) == Some(b),
                Err(_) => argon_verify_of(self.password_of(), password@) is None,
            },
    ;
}

impl Hash for User {
    open spec fn password_of(&self) -> Seq<char> {
        self.password@
    }

    open spec fn spec_set_password(self, h: String) -> Self {
        User { password: h, ..self }
    }

    fn get_hashed_password(&self) -> (r: Result<String, ArgonFailure>) {
        let salt = random_salt();
        match argon2_hash_encoded(self.password.as_str().as_bytes(), salt.as_slice()) {
            Some(h) => Ok(h),
            None => Err(ArgonFailure),
        }
    }

    fn hash_password(&mut self) -> (r: Result<(), ArgonFailure>) {
        match self.get_hashed_password() {
            Ok(h) => {
                let ghost gh = h;
                self.password = h;
                proof {
                    assert(*self == old(self).spec_set_password(gh));
                }
                Ok(())
            },
            Err(e) => Err(e),
        }
    }

    fn verify_password(&self, password: &[u8]) -> (r: Result<bool, ArgonFailure>) {
        match argon2_verify_encoded(self.password.as_str(), password) {
            Some(b) => Ok(b),
            None => Err(ArgonFailure),
        }
    }
}

impl Hash for LoginData {
    open spec fn password_of(&self) -> Seq<char> {
        self.password@
    }

    open spec fn spec_set_password(self, h: String) -> Self {
        LoginData { password: h, ..self }
    }

    fn get_hashed_password(&self) -> (r: Result<String, ArgonFailure>) {
        let salt = random_salt();
        match argon2_hash_encoded(self.password.as_str().as_bytes(), salt.as_slice()) {
            Some(h) => Ok(h),
            None => Err(ArgonFailure),
        }
    }

    fn hash_password(&mut self) -> (r: Result<(), ArgonFailure>) {
        match self.get_hashed_password() {
            Ok(h) => {
                let ghost gh = h;
                self.password = h;
                proof {
                    assert(*self == old(self).spec_set_password(gh));
                }
                Ok(())
            },
            Err(e) => Err(e),
        }
    }

    fn verify_password(&self, password: &[u8]) -> (r: Result<bool, ArgonFailure>) {
        match argon2_verify_encoded(self.password.as_str(), password) {
            Some(b) => Ok(b),
            None => Err(ArgonFailure),
        }
    }
}

impl Hash for CreateUser {
    open spec fn password_of(&self) -> Seq<char> {
        self.password@
    }

    open spec fn spec_set_password(self, h: String) -> Self {
        CreateUser { password: h, ..self }
    }

    fn get_hashed_password(&self) -> (r: Result<String, ArgonFailure>) {
        let salt = random_salt();
        match argon2_hash_encoded(self.password.as_str().as_bytes(), salt.as_slice()) {
            Some(h) => Ok(h),
            None => Err(ArgonFailure),
        }
    }

    fn hash_password(&mut self) -> (r: Result<(), ArgonFailure>) {
        match self.get_hashed_password() {
            Ok(h) => {
                let ghost gh = h;
                self.password = h;
                proof {
                    assert(*self == old(self).spec_set_password(gh));
                }
                Ok(())
            },
            Err(e) => Err(e),
        }
    }

    fn verify_password(&self, password: &[u8]) -> (r: Result<bool, ArgonFailure>) {
        match argon2_verify_encoded(self.password.as_str(), password) {
            Some(b) => Ok(b),
            None => Err(ArgonFailure),
        }
    }
}

} // verus!
