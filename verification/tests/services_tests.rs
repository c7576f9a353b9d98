use sat_api::auth::{check_login, hash_password, registration_error, Claims, LoginUser};
use sat_api::credentials::{
    credential_delete_error, fiel_field, fiel_paths, is_fk_violation, link_delete_error, FielField,
    FielForm,
};
use sat_api::dates::Timestamp;
use sat_api::errors::{ApiError, CredentialError, InvoiceError};
use sat_api::invoices::{
    content_disposition, installment_number, invoice_file_id, issuer_taxpayer, recipient_taxpayer,
    tally, ParseAllResult,
};
use sat_api::requests::{
    health_response, health_status_code, require_found, CrawlQueryParams, ParseAllResponse,
    TaxpayerQueryParams,
};

#[test]
fn registered_password_logs_in() {
    let hash = hash_password("hunter2").unwrap();
    assert_ne!(hash, "hunter2");
    let user = LoginUser { id: 41, password_hash: hash.clone() };
    assert_eq!(check_login(Some(user), "hunter2", 1_000), Ok(Claims { sub: 41, exp: 87_400 }));
    let user = LoginUser { id: 41, password_hash: hash };
    assert_eq!(check_login(Some(user), "hunter3", 1_000), Err(ApiError::InvalidCredentials));
    assert_eq!(check_login(None, "hunter2", 1_000), Err(ApiError::InvalidCredentials));
    let user = LoginUser { id: 41, password_hash: "not a hash".to_string() };
    assert_eq!(check_login(Some(user), "hunter2", 1_000), Err(ApiError::Internal));
}

#[test]
fn registration_errors() {
    assert_eq!(registration_error(Some("users_email_key")), ApiError::EmailAlreadyExists);
    assert_eq!(registration_error(Some("users_pkey")), ApiError::Internal);
    assert_eq!(registration_error(None), ApiError::Internal);
}

#[test]
fn fiel_form_completion() {
    let mut form = FielForm::new();
    form.accept_text(fiel_field(Some("taxpayer_id")), Some("AAA010101AAA".to_string()));
    form.accept_text(fiel_field(Some("password")), Some("pw".to_string()));
    form.accept_file(fiel_field(Some("cer_file")), Some(vec![1, 2]));
    form.accept_text(fiel_field(Some("other")), Some("ignored".to_string()));
    let incomplete = form.clone().finish();
    assert_eq!(
        incomplete.unwrap_err(),
        "missing required fields: taxpayer_id, password, cer_file, key_file"
    );
    form.accept_file(fiel_field(Some("key_file")), Some(vec![3]));
    let req = form.clone().finish().unwrap();
    assert_eq!(req.taxpayer_id, "AAA010101AAA");
    assert_eq!(req.password, "pw");
    assert_eq!(req.cer_file, vec![1, 2]);
    assert_eq!(req.key_file, vec![3]);
    form.accept_text(FielField::Password, None);
    assert!(form.finish().is_err());
    assert_eq!(fiel_field(None), FielField::Other);
    assert_eq!(fiel_field(Some("cer_file")), FielField::CerFile);
}

#[test]
fn fiel_file_locations() {
    let p = fiel_paths("/data/uploads", 9, "AAA010101AAA");
    assert_eq!(p.dir, "/data/uploads/9/AAA010101AAA");
    assert_eq!(p.cer_path, "/data/uploads/9/AAA010101AAA/cert.cer");
    assert_eq!(p.key_path, "/data/uploads/9/AAA010101AAA/private.key");
}

#[test]
fn deletion_errors() {
    assert!(is_fk_violation(Some("23503")));
    assert!(!is_fk_violation(Some("23505")));
    assert!(!is_fk_violation(None));
    assert_eq!(credential_delete_error(true), CredentialError::InUse);
    assert_eq!(credential_delete_error(false), CredentialError::Internal);
    assert_eq!(link_delete_error(true), ApiError::Conflict("link cannot be deleted".to_string()));
    assert_eq!(link_delete_error(false), ApiError::Internal);
}

#[test]
fn invoice_files() {
    assert_eq!(invoice_file_id("xml", Some(1), Some(2)), Ok(1));
    assert_eq!(invoice_file_id("pdf", Some(1), Some(2)), Ok(2));
    assert_eq!(invoice_file_id("anything", Some(1), Some(2)), Ok(2));
    assert_eq!(invoice_file_id("xml", None, Some(2)), Err(InvoiceError::NotFound));
    assert_eq!(invoice_file_id("pdf", Some(1), None), Err(InvoiceError::NotFound));
    assert_eq!(content_disposition("abc", "xml"), "attachment; filename=\"abc.xml\"");
}

#[test]
fn bulk_parse_counts() {
    assert_eq!(tally(&vec![]), ParseAllResult { processed: 0, succeeded: 0, failed: 0 });
    let r = tally(&vec![true, false, true, true, false]);
    assert_eq!(r, ParseAllResult { processed: 5, succeeded: 3, failed: 2 });
    assert_eq!(r.succeeded + r.failed, r.processed);
    let resp = ParseAllResponse::from_result(r);
    assert_eq!((resp.processed, resp.succeeded, resp.failed), (5, 3, 2));
}

#[test]
fn taxpayer_records() {
    let seen = Timestamp { secs: 50, nanos: 0 };
    let issuer = issuer_taxpayer("AAA010101AAA".to_string(), None, "601".to_string(), seen);
    assert_eq!(issuer.name, "AAA010101AAA");
    assert_eq!(issuer.fiscal_regime.as_deref(), Some("601"));
    assert_eq!(issuer.cfdi_use, None);
    let issuer = issuer_taxpayer("AAA010101AAA".to_string(), Some("Acme".to_string()), "601".to_string(), seen);
    assert_eq!(issuer.name, "Acme");
    let r = recipient_taxpayer(
        "BBB010101BBB".to_string(),
        None,
        "G03".to_string(),
        Some("64000".to_string()),
        None,
        None,
        None,
        seen,
    );
    assert_eq!(r.name, "BBB010101BBB");
    assert_eq!(r.cfdi_use.as_deref(), Some("G03"));
    assert_eq!(r.fiscal_domicile.as_deref(), Some("64000"));
    assert_eq!(r.last_seen_at, seen);
}

#[test]
fn installments() {
    assert_eq!(installment_number("3"), 3);
    assert_eq!(installment_number("+12"), 12);
    assert_eq!(installment_number("-2"), -2);
    assert_eq!(installment_number(""), 1);
    assert_eq!(installment_number("1.0"), 1);
    assert_eq!(installment_number("x"), 1);
    assert_eq!(installment_number("99999999999"), 1);
}

#[test]
fn health_reports() {
    let h = health_response(true, true);
    assert_eq!((h.status.as_str(), h.database.as_str(), h.storage.as_str()), ("ok", "connected", "connected"));
    assert_eq!(health_status_code(true, true), 200);
    let h = health_response(true, false);
    assert_eq!((h.status.as_str(), h.database.as_str(), h.storage.as_str()), ("degraded", "connected", "unreachable"));
    assert_eq!(health_status_code(false, true), 503);
    let h = health_response(false, false);
    assert_eq!((h.status.as_str(), h.database.as_str(), h.storage.as_str()), ("degraded", "unreachable", "unreachable"));
}

#[test]
fn lookups_and_query_filters() {
    assert_eq!(require_found(Some(5), "crawl not found"), Ok(5));
    assert_eq!(
        require_found::<i32>(None, "crawl not found"),
        Err(ApiError::NotFound("crawl not found".to_string()))
    );
    let q = CrawlQueryParams {
        link_id: Some(3),
        crawl_type: Some("DOWNLOAD_INVOICES".to_string()),
        status: None,
        page: 1,
        per_page: 20,
    };
    let f = q.filters();
    assert_eq!(f.link_id, Some(3));
    assert_eq!(f.crawl_type.as_deref(), Some("DOWNLOAD_INVOICES"));
    assert_eq!(f.status, None);
    let t = TaxpayerQueryParams { taxpayer_id: None, name: Some("acme".to_string()), page: 2, per_page: 5 };
    let f = t.filters();
    assert_eq!(f.taxpayer_id, None);
    assert_eq!(f.name.as_deref(), Some("acme"));
}
