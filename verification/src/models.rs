//! User records as the admin-facing endpoints exchange them.

use vstd::prelude::*;
use crate::pwhash::{argon2_hash_encoded, argon2_verify_encoded, random_salt, ArgonFailure};

verus! {

pub struct Status {
    pub status: String,
}

#[derive(Debug)]
pub struct User {
    pub username: String,
    pub nickname: String,
    pub password: String,
    pub is_admin: bool,
}

#[derive(Debug)]
pub struct ReceivedUser {
    pub username: String,
    pub password: String,
    pub repeat_password: String,
}

#[derive(Debug)]
pub struct ReceivedLoginData {
    pub username: String,
    pub password: String,
}

#[derive(Debug)]
pub struct Nickname {
    pub nickname: Option<String>,
}

#[derive(Debug)]
pub struct Password {
    pub password: String,
    pub repeat_password: String,
}

#[derive(Debug)]
pub struct SendUser {
    pub username: String,
    pub nickname: String,
    pub is_admin: bool,
}

impl User {
    /// A user record whose nickname starts out as the username; the password
    /// is stored as given, not yet hashed.
    pub fn create_user(username: &str, password: &str, is_admin: bool) -> (u: User)
        ensures
            u.username@ == username@,
            u.nickname@ == username@,
            u.password@ == password@,
            u.is_admin == is_admin,
    {
        User {
            username: username.to_owned(),
            nickname: username.to_owned(),
            password: password.to_owned(),
            is_admin,
        }
    }
}

impl crate::user_models::Hash for User {
    open spec fn password_of(&self) -> Seq<char> {
        self.password@
    }

    open spec fn spec_set_password(self, h: String) -> Self {
        User { password: h, ..self }
    }

    fn get_hashed_password(&self) -> (r: Result<String, ArgonFailure>) {
        let salt = random_salt();
        match argon2_hash_encoded(self.password.as_str().as_bytes(), salt.as_slice()) {
            Some(h) => Ok(h),
            None => Err(ArgonFailure),
        }
    }

    fn hash_password(&mut self) -> (r: Result<(), ArgonFailure>) {
        match self.get_hashed_password() {
            Ok(h) => {
                let ghost gh = h;
                self.password = h;
                proof {
                    assert(*self == old(self).spec_set_password(gh));
                }
                Ok(())
            },
            Err(e) => Err(e),
        }
    }

    fn verify_password(&self, password: &[u8]) -> (r: Result<bool, ArgonFailure>) {
        match argon2_verify_encoded(self.password.as_str(), password) {
            Some(b) => Ok(b),
            None => Err(ArgonFailure),
        }
    }
}

impl crate::user_models::Hash for Password {
    open spec fn password_of(&self) -> Seq<char> {
        self.password@
    }

    open spec fn spec_set_password(self, h: String) -> Self {
        Password { password: h, ..self }
    }

    fn get_hashed_password(&self) -> (r: Result<String, ArgonFailure>) {
        let salt = random_salt();
        match argon2_hash_encoded(self.password.as_str().as_bytes(), salt.as_slice()) {
            Some(h) => Ok(h),
            None => Err(ArgonFailure),
        }
    }

    fn hash_password(&mut self) -> (r: Result<(), ArgonFailure>) {
        match self.get_hashed_password() {
            Ok(h) => {
                let ghost gh = h;
                self.password = h;
                proof {
                    assert(*self == old(self).spec_set_password(gh));
                }
                Ok(())
            },
            Err(e) => Err(e),
        }
    }

    fn verify_password(&self, password: &[u8]) -> (r: Result<bool, ArgonFailure>) {
        match argon2_verify_encoded(self.password.as_str(), password) {
            Some(b) => Ok(b),
            None => Err(ArgonFailure),
        }
    }
}

} // verus!
