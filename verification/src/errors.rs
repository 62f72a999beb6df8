//! The error taxonomy of the request handlers and of the store layer.
//!
//! An `AuthFail` deliberately says nothing about which check failed: a
//! missing, malformed, forged or expired cookie and an unknown username all
//! answer alike, so a client learns nothing from the shape of a rejection.

use vstd::prelude::*;

verus! {

/// What a handler answers when it cannot serve a request.
#[derive(Debug)]
pub enum HandlerError {
    /// A request field could not be used; carries the field's description.
    BadClientData { field: String },
    /// Something on the server side failed; the client may try again later.
    InternalError,
    /// The request carries no usable identity.
    AuthFail,
    /// A valid identity whose role the namespace does not admit.
    PermissionDenied,
}

impl HandlerError {
    pub open spec fn spec_status_code(&self) -> u16 {
        match *self {
            HandlerError::InternalError => 500,
            HandlerError::BadClientData { .. } => 400,
            HandlerError::AuthFail => 401,
            HandlerError::PermissionDenied => 403,
        }
    }

    /// The HTTP status the transport answers with.
    pub fn status_code(&self) -> (r: u16)
        ensures
            r == self.spec_status_code(),
    {
        match *self {
            HandlerError::InternalError => 500,
            HandlerError::BadClientData { .. } => 400,
            HandlerError::AuthFail => 401,
            HandlerError::PermissionDenied => 403,
        }
    }

    pub open spec fn spec_message(&self) -> Seq<char> {
        match *self {
            HandlerError::BadClientData { field } => "Parsing error on field: "@ + field@,
            HandlerError::InternalError => "An internal error occured. Try again later"@,
            HandlerError::AuthFail => "You are not logged in"@,
            HandlerError::PermissionDenied => "You may not use this resource"@,
        }
    }

    /// The body of the error response; generic on purpose (see the module
    /// note).
    pub fn message(&self) -> (r: String)
        ensures
            r@ == self.spec_message(),
    {
        match self {
            HandlerError::BadClientData { field } => {
                let mut m = "Parsing error on field: ".to_owned();
                m.append(field.as_str());
                m
            },
            HandlerError::InternalError => "An internal error occured. Try again later".to_owned(),
            HandlerError::AuthFail => "You are not logged in".to_owned(),
            HandlerError::PermissionDenied => "You may not use this resource".to_owned(),
        }
    }
}

/// What the store layer reports; the outside failures are carried as their
/// descriptions.
#[derive(Debug)]
pub enum DBError {
    /// A row could not be mapped onto a record.
    MapperError(String),
    /// The database itself refused or failed the query.
    PostgresError(String),
    /// Password hashing failed.
    ArgonError(String),
    /// The arguments were unusable; carries what was wrong.
    BadArgs { err: String },
}

} // verus!
