//! The service's error values: what each one answers with (HTTP status) and
//! the public message it carries.

use vstd::prelude::*;

use crate::text::{push_str, string_of};

verus! {

/// Unified application error. The message (see `message`) is what the client
/// is shown; its status is given by `status`.
#[derive(Debug, Clone, PartialEq, Eq)]
pub enum ApiError {
    Internal,
    NotFound(String),
    InvalidCredentials,
    EmailAlreadyExists,
    Conflict(String),
    Unprocessable(String),
}

/// The HTTP status that answers an `ApiError`.
pub open spec fn api_error_status(e: ApiError) -> u16 {
    match e {
        ApiError::Internal => 500,
        ApiError::NotFound(_) => 404,
        ApiError::InvalidCredentials => 401,
        ApiError::EmailAlreadyExists => 409,
        ApiError::Conflict(_) => 409,
        ApiError::Unprocessable(_) => 422,
    }
}

/// The public message of an `ApiError`.
pub open spec fn api_error_message(e: ApiError) -> Seq<char> {
    match e {
        ApiError::Internal => "internal error"@,
        ApiError::NotFound(m) => m@,
        ApiError::InvalidCredentials => "invalid credentials"@,
        ApiError::EmailAlreadyExists => "email already in use"@,
        ApiError::Conflict(m) => m@,
        ApiError::Unprocessable(m) => m@,
    }
}

impl ApiError {
    /// The HTTP status code of this error.
    pub fn status(&self) -> (res: u16)
        ensures
            res == api_error_status(*self),
    {
        match self {
            ApiError::Internal => 500,
            ApiError::NotFound(_) => 404,
            ApiError::InvalidCredentials => 401,
            ApiError::EmailAlreadyExists => 409,
            ApiError::Conflict(_) => 409,
            ApiError::Unprocessable(_) => 422,
        }
    }

    /// The public message of this error.
    pub fn message(&self) -> (res: String)
        ensures
            res@ == api_error_message(*self),
    {
        match self {
            ApiError::Internal => string_of("internal error"),
            ApiError::NotFound(m) => m.clone(),
            ApiError::InvalidCredentials => string_of("invalid credentials"),
            ApiError::EmailAlreadyExists => string_of("email already in use"),
            ApiError::Conflict(m) => m.clone(),
            ApiError::Unprocessable(m) => m.clone(),
        }
    }
}

/// Errors of the credential operations.
#[derive(Debug, Clone, PartialEq, Eq)]
pub enum CredentialError {
    Internal,
    InUse,
}

/// The HTTP status that answers a `CredentialError`.
pub open spec fn credential_error_status(e: CredentialError) -> u16 {
    match e {
        CredentialError::Internal => 500,
        CredentialError::InUse => 409,
    }
}

/// The public message of a `CredentialError`.
pub open spec fn credential_error_message(e: CredentialError) -> Seq<char> {
    match e {
        CredentialError::Internal => "internal error"@,
        CredentialError::InUse => "credential is in use by a link"@,
    }
}

impl CredentialError {
    /// The HTTP status code of this error.
    pub fn status(&self) -> (res: u16)
        ensures
            res == credential_error_status(*self),
    {
        match self {
            CredentialError::Internal => 500,
            CredentialError::InUse => 409,
        }
    }

    /// The public message of this error.
    pub fn message(&self) -> (res: String)
        ensures
            res@ == credential_error_message(*self),
    {
        match self {
            CredentialError::Internal => string_of("internal error"),
            CredentialError::InUse => string_of("credential is in use by a link"),
        }
    }
}

/// Errors of the invoice operations.
#[derive(Debug, Clone, PartialEq, Eq)]
pub enum InvoiceError {
    Internal,
    NotFound,
    ParseFailed(String),
}

/// The HTTP status that answers an `InvoiceError`.
pub open spec fn invoice_error_status(e: InvoiceError) -> u16 {
    match e {
        InvoiceError::Internal => 500,
        InvoiceError::NotFound => 404,
        InvoiceError::ParseFailed(_) => 422,
    }
}

/// The public message of an `InvoiceError`.
pub open spec fn invoice_error_message(e: InvoiceError) -> Seq<char> {
    match e {
        InvoiceError::Internal => "internal error"@,
        InvoiceError::NotFound => "not found"@,
        InvoiceError::ParseFailed(m) => m@,
    }
}

impl InvoiceError {
    /// The HTTP status code of this error.
    pub fn status(&self) -> (res: u16)
        ensures
            res == invoice_error_status(*self),
    {
        match self {
            InvoiceError::Internal => 500,
            InvoiceError::NotFound => 404,
            InvoiceError::ParseFailed(_) => 422,
        }
    }

    /// The public message of this error.
    pub fn message(&self) -> (res: String)
        ensures
            res@ == invoice_error_message(*self),
    {
        match self {
            InvoiceError::Internal => string_of("internal error"),
            InvoiceError::NotFound => string_of("not found"),
            InvoiceError::ParseFailed(m) => m.clone(),
        }
    }
}

/// An error of the credential encryption; it prints as
/// `crypto error: <detail>`.
#[derive(Debug, Clone, PartialEq, Eq)]
pub struct CryptoError(pub String);

impl CryptoError {
    /// The printed form: `crypto error: ` followed by the detail.
    pub fn to_string(&self) -> (res: String)
        ensures
            res@ == "crypto error: "@ + self.0@,
    {
        let mut s = string_of("crypto error: ");
        push_str(&mut s, self.0.as_str());
        s
    }
}

/// An error of the object storage; it prints as `storage error: <detail>`.
#[derive(Debug, Clone, PartialEq, Eq)]
pub struct StorageError(pub String);

impl StorageError {
    /// The printed form: `storage error: ` followed by the detail.
    pub fn to_string(&self) -> (res: String)
        ensures
            res@ == "storage error: "@ + self.0@,
    {
        let mut s = string_of("storage error: ");
        push_str(&mut s, self.0.as_str());
        s
    }
}

} // verus!
