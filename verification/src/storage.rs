//! Object-storage naming.

use vstd::prelude::*;

use crate::text::{decimal, push_decimal, push_str, string_of};

verus! {

/// `invoices/<user_id>/<uuid>/<uuid>.<extension>`.
pub open spec fn spec_invoice_s3_key(user_id: i32, uuid: Seq<char>, extension: Seq<char>) -> Seq<char> {
    "invoices/"@ + decimal(user_id as int) + "/"@ + uuid + "/"@ + uuid + "."@ + extension
}

/// Returns the S3 key for an invoice file.
pub fn invoice_s3_key(user_id: i32, uuid: &str, extension: &str) -> (res: String)
    ensures
        res@ == spec_invoice_s3_key(user_id, uuid@, extension@),
{
    let mut key = string_of("invoices/");
    push_decimal(&mut key, user_id as i64);
    push_str(&mut key, "/");
    push_str(&mut key, uuid);
    push_str(&mut key, "/");
    push_str(&mut key, uuid);
    push_str(&mut key, ".");
    push_str(&mut key, extension);
    key
}

} // verus!
