//! Credentials: the upload form of an e.firma (FIEL), where its files are
//! kept, and what a refused deletion answers.

use vstd::prelude::*;

use crate::errors::{ApiError, CredentialError};
use crate::text::{decimal, push_decimal, push_str, str_eq, string_of};

verus! {

/// A password (CIEC) credential request.
#[derive(Debug, Clone)]
pub struct CreateCiecRequest {
    pub taxpayer_id: String,
    pub password: String,
}

/// A complete e.firma (FIEL) credential request: RFC, private-key password,
/// certificate file and private-key file.
#[derive(Debug, Clone)]
pub struct CreateFielRequest {
    pub taxpayer_id: String,
    pub password: String,
    pub cer_file: Vec<u8>,
    pub key_file: Vec<u8>,
}

/// The parts of the FIEL upload form.
#[derive(Debug, Clone, Copy, PartialEq, Eq)]
pub enum FielField {
    TaxpayerId,
    Password,
    CerFile,
    KeyFile,
    Other,
}

/// The form part with a name.
pub open spec fn fiel_field_named(name: Option<Seq<char>>) -> FielField {
    match name {
        Some(n) => if n == "taxpayer_id"@ {
            FielField::TaxpayerId
        } else if n == "password"@ {
            FielField::Password
        } else if n == "cer_file"@ {
            FielField::CerFile
        } else if n == "key_file"@ {
            FielField::KeyFile
        } else {
            FielField::Other
        },
        None => FielField::Other,
    }
}

/// The form part that a multipart field name stands for (`Other` for
/// unnamed or unknown fields, which are ignored).
pub fn fiel_field(name: Option<&str>) -> (res: FielField)
    ensures
        res == fiel_field_named(match name {
            Some(n) => Some(n@),
            None => None,
        }),
{
    match name {
        Some(n) => if str_eq(n, "taxpayer_id") {
            FielField::TaxpayerId
        } else if str_eq(n, "password") {
            FielField::Password
        } else if str_eq(n, "cer_file") {
            FielField::CerFile
        } else if str_eq(n, "key_file") {
            FielField::KeyFile
        } else {
            FielField::Other
        },
        None => FielField::Other,
    }
}

/// The FIEL upload form as read so far. A field read again replaces the
/// earlier reading, and a field whose content could not be read counts as
/// missing.
#[derive(Debug, Clone)]
pub struct FielForm {
    pub taxpayer_id: Option<String>,
    pub password: Option<String>,
    pub cer_file: Option<Vec<u8>>,
    pub key_file: Option<Vec<u8>>,
}

/// The message of an incomplete FIEL form.
pub open spec fn msg_missing_fields() -> Seq<char> {
    "missing required fields: taxpayer_id, password, cer_file, key_file"@
}

impl FielForm {
    /// The form before any field is read.
    pub fn new() -> (res: FielForm)
        ensures
            res.taxpayer_id is None,
            res.password is None,
            res.cer_file is None,
            res.key_file is None,
    {
        FielForm { taxpayer_id: None, password: None, cer_file: None, key_file: None }
    }

    /// Records a text part (`taxpayer_id` or `password`); other parts are
    /// left as they are.
    pub fn accept_text(&mut self, field: FielField, text: Option<String>)
        ensures
            final(self).taxpayer_id == if field == FielField::TaxpayerId {
                text
            } else {
                old(self).taxpayer_id
            },
            final(self).password == if field == FielField::Password {
                text
            } else {
                old(self).password
            },
            final(self).cer_file == old(self).cer_file,
            final(self).key_file == old(self).key_file,
    {
        match field {
            FielField::TaxpayerId => {
                self.taxpayer_id = text;
            },
            FielField::Password => {
                self.password = text;
            },
            _ => {},
        }
    }

    /// Records a file part (`cer_file` or `key_file`); other parts are left
    /// as they are.
    pub fn accept_file(&mut self, field: FielField, bytes: Option<Vec<u8>>)
        ensures
            final(self).cer_file == if field == FielField::CerFile {
                bytes
            } else {
                old(self).cer_file
            },
            final(self).key_file == if field == FielField::KeyFile {
                bytes
            } else {
                old(self).key_file
            },
            final(self).taxpayer_id == old(self).taxpayer_id,
            final(self).password == old(self).password,
    {
        match field {
            FielField::CerFile => {
                self.cer_file = bytes;
            },
            FielField::KeyFile => {
                self.key_file = bytes;
            },
            _ => {},
        }
    }

    /// The complete request, or the message listing the required fields
    /// when any is missing.
    pub fn finish(self) -> (res: Result<CreateFielRequest, String>)
        ensures
            match res {
                Ok(r) => {
                    &&& self.taxpayer_id == Some(r.taxpayer_id)
                    &&& self.password == Some(r.password)
                    &&& self.cer_file == Some(r.cer_file)
                    &&& self.key_file == Some(r.key_file)
                },
                Err(m) => {
                    &&& m@ == msg_missing_fields()
                    &&& (self.taxpayer_id is None || self.password is None || self.cer_file is None
                        || self.key_file is None)
                },
            },
    {
        match (self.taxpayer_id, self.password, self.cer_file, self.key_file) {
            (Some(taxpayer_id), Some(password), Some(cer_file), Some(key_file)) => Ok(
                CreateFielRequest { taxpayer_id, password, cer_file, key_file },
            ),
            _ => Err(string_of("missing required fields: taxpayer_id, password, cer_file, key_file")),
        }
    }
}

/// Where the files of a FIEL credential are kept.
#[derive(Debug, Clone)]
pub struct FielPaths {
    pub dir: String,
    pub cer_path: String,
    pub key_path: String,
}

/// `<upload_path>/<user_id>/<taxpayer_id>`.
pub open spec fn fiel_dir(upload_path: Seq<char>, user_id: i32, taxpayer_id: Seq<char>) -> Seq<char> {
    upload_path + "/"@ + decimal(user_id as int) + "/"@ + taxpayer_id
}

/// The directory of a user's FIEL files for a taxpayer, and in it
/// `cert.cer` and `private.key`.
pub fn fiel_paths(upload_path: &str, user_id: i32, taxpayer_id: &str) -> (res: FielPaths)
    ensures
        res.dir@ == fiel_dir(upload_path@, user_id, taxpayer_id@),
        res.cer_path@ == fiel_dir(upload_path@, user_id, taxpayer_id@) + "/cert.cer"@,
        res.key_path@ == fiel_dir(upload_path@, user_id, taxpayer_id@) + "/private.key"@,
{
    let mut dir = string_of(upload_path);
    push_str(&mut dir, "/");
    push_decimal(&mut dir, user_id as i64);
    push_str(&mut dir, "/");
    push_str(&mut dir, taxpayer_id);
    let mut cer_path = dir.clone();
    push_str(&mut cer_path, "/cert.cer");
    let mut key_path = dir.clone();
    push_str(&mut key_path, "/private.key");
    FielPaths { dir, cer_path, key_path }
}

/// Whether a database error code is PostgreSQL's foreign-key violation
/// (`23503`).
pub fn is_fk_violation(code: Option<&str>) -> (res: bool)
    ensures
        res == (code is Some && code->0@ == "23503"@),
{
    match code {
        Some(c) => str_eq(c, "23503"),
        None => false,
    }
}

/// The error of a refused credential deletion: still used by a link when a
/// foreign key refused it, otherwise internal.
pub fn credential_delete_error(fk_violation: bool) -> (res: CredentialError)
    ensures
        res == if fk_violation {
            CredentialError::InUse
        } else {
            CredentialError::Internal
        },
{
    if fk_violation {
        CredentialError::InUse
    } else {
        CredentialError::Internal
    }
}

/// The error of a refused link deletion: a conflict when a foreign key
/// refused it, otherwise internal.
pub fn link_delete_error(fk_violation: bool) -> (res: ApiError)
    ensures
        fk_violation ==> (res matches ApiError::Conflict(m) && m@ == "link cannot be deleted"@),
        !fk_violation ==> res == ApiError::Internal,
{
    if fk_violation {
        ApiError::Conflict(string_of("link cannot be deleted"))
    } else {
        ApiError::Internal
    }
}

} // verus!
