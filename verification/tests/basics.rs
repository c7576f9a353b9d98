use sat_api::errors::{ApiError, CredentialError, CryptoError, InvoiceError, StorageError};
use sat_api::pagination::{default_page, default_per_page, paginate};
use sat_api::storage::invoice_s3_key;
use sat_api::text::{decimal_string, str_eq, trimmed};

#[test]
fn decimal_rendering() {
    assert_eq!(decimal_string(0), "0");
    assert_eq!(decimal_string(7), "7");
    assert_eq!(decimal_string(1234567890), "1234567890");
    assert_eq!(decimal_string(-42), "-42");
    assert_eq!(decimal_string(i64::MIN), "-9223372036854775808");
    assert_eq!(decimal_string(i64::MAX), "9223372036854775807");
}

#[test]
fn string_slice_equality() {
    assert!(str_eq("FIEL", "FIEL"));
    assert!(!str_eq("FIEL", "FIE"));
    assert!(!str_eq("fiel", "FIEL"));
    assert!(str_eq("", ""));
    assert!(str_eq("añó", "añó"));
}

#[test]
fn trimming_matches_std() {
    for s in ["  a b  ", "\t\n x\u{3000}", "", "   ", "abc", "\u{a0}1,000\u{2003}"] {
        assert_eq!(trimmed(s), s.trim());
    }
}

#[test]
fn default_paging() {
    assert_eq!(default_page(), 1);
    assert_eq!(default_per_page(), 20);
}

#[test]
fn pagination_normalises_and_offsets() {
    assert_eq!(paginate(1, 20), (1, 20, 0));
    assert_eq!(paginate(3, 20), (3, 20, 40));
    assert_eq!(paginate(0, 0), (1, 1, 0));
    assert_eq!(paginate(-5, 500), (1, 100, 0));
    assert_eq!(paginate(2, 101), (2, 100, 100));
    assert_eq!(paginate(4, -3), (4, 1, 3));
}

#[test]
fn pagination_law_on_values() {
    for page in -3i64..10 {
        for per_page in -5i64..130 {
            let (p, pp, off) = paginate(page, per_page);
            assert!(p >= 1);
            assert!((1..=100).contains(&pp));
            assert_eq!(off, (p - 1) * pp);
            assert_eq!(off % pp, 0);
            assert_eq!(paginate(p, pp), (p, pp, off));
            let (_, _, next_off) = paginate(p + 1, pp);
            assert_eq!(next_off, off + pp);
        }
    }
}

#[test]
fn api_error_statuses_and_messages() {
    assert_eq!(ApiError::Internal.status(), 500);
    assert_eq!(ApiError::NotFound("crawl not found".to_string()).status(), 404);
    assert_eq!(ApiError::InvalidCredentials.status(), 401);
    assert_eq!(ApiError::EmailAlreadyExists.status(), 409);
    assert_eq!(ApiError::Conflict("x".to_string()).status(), 409);
    assert_eq!(ApiError::Unprocessable("y".to_string()).status(), 422);
    assert_eq!(ApiError::Internal.message(), "internal error");
    assert_eq!(ApiError::NotFound("crawl not found".to_string()).message(), "crawl not found");
    assert_eq!(ApiError::InvalidCredentials.message(), "invalid credentials");
    assert_eq!(ApiError::EmailAlreadyExists.message(), "email already in use");
    assert_eq!(ApiError::Conflict("link cannot be deleted".to_string()).message(), "link cannot be deleted");
    assert_eq!(ApiError::Unprocessable("bad".to_string()).message(), "bad");
}

#[test]
fn credential_and_invoice_errors() {
    assert_eq!(CredentialError::Internal.status(), 500);
    assert_eq!(CredentialError::InUse.status(), 409);
    assert_eq!(CredentialError::Internal.message(), "internal error");
    assert_eq!(CredentialError::InUse.message(), "credential is in use by a link");
    assert_eq!(InvoiceError::Internal.status(), 500);
    assert_eq!(InvoiceError::NotFound.status(), 404);
    assert_eq!(InvoiceError::ParseFailed("m".to_string()).status(), 422);
    assert_eq!(InvoiceError::NotFound.message(), "not found");
    assert_eq!(InvoiceError::ParseFailed("bad xml".to_string()).message(), "bad xml");
}

#[test]
fn printed_forms() {
    assert_eq!(CryptoError("invalid base64".to_string()).to_string(), "crypto error: invalid base64");
    assert_eq!(StorageError("code=NoSuchKey".to_string()).to_string(), "storage error: code=NoSuchKey");
}

#[test]
fn s3_key_layout() {
    assert_eq!(
        invoice_s3_key(7, "0f3c6a1e-1111-2222-3333-444455556666", "xml"),
        "invoices/7/0f3c6a1e-1111-2222-3333-444455556666/0f3c6a1e-1111-2222-3333-444455556666.xml"
    );
    assert_eq!(invoice_s3_key(-3, "u", "pdf"), "invoices/-3/u/u.pdf");
}
