use sat_api::crawl::{
    copy_params, crawl_kind, crawl_kind_name, crawl_run_start, crawl_step, login_kind, CrawlAction,
    CrawlEvent, CrawlKind, CrawlParams, CrawlRecord, CrawlRun, CredentialRecord, DateField,
    LinkRecord, LoginKind,
};
use sat_api::crypto::encrypt;

const KEY: &str = "000102030405060708090a0b0c0d0e0f101112131415161718191a1b1c1d1e1f";

fn params(start: Option<&str>, end: Option<&str>, old: Option<i64>) -> CrawlParams {
    CrawlParams {
        start_date: start.map(|s| s.to_string()),
        end_date: end.map(|s| s.to_string()),
        old_credential_id: old,
    }
}

fn crawl(id: i32, link_id: Option<i32>, kind: &str, p: CrawlParams) -> CrawlRecord {
    CrawlRecord { id, link_id, crawl_type: kind.to_string(), params: p }
}

fn link() -> LinkRecord {
    LinkRecord { id: 5, user_id: 9, credential_id: 11 }
}

fn credential(cred_type: &str, password: &str) -> CredentialRecord {
    CredentialRecord {
        id: 11,
        taxpayer_id: "AAA010101AAA".to_string(),
        cred_type: cred_type.to_string(),
        password: encrypt(Some(KEY), password).unwrap(),
        cer_path: None,
        key_path: None,
    }
}

fn step(run: CrawlRun, e: CrawlEvent) -> (CrawlRun, CrawlAction) {
    crawl_step(run, e, Some(KEY))
}

/// Runs a crawl up to the crawler request.
fn up_to_crawler(record: CrawlRecord, cred: CredentialRecord) -> (CrawlRun, CrawlAction) {
    let (run, a) = step(crawl_run_start(3), CrawlEvent::Begin);
    assert!(matches!(a, CrawlAction::LoadCrawl { crawl_id: 3 }));
    let (run, a) = step(run, CrawlEvent::CrawlLoaded(Ok(Some(record))));
    assert!(matches!(a, CrawlAction::MarkRunning { crawl_id: 3 }));
    let (run, a) = step(run, CrawlEvent::Marked(Ok(())));
    assert!(matches!(a, CrawlAction::LoadLink { link_id: 5 }));
    let (run, a) = step(run, CrawlEvent::LinkLoaded(Ok(Some(link()))));
    assert!(matches!(a, CrawlAction::LoadCredential { credential_id: 11 }));
    step(run, CrawlEvent::CredentialLoaded(Ok(Some(cred))))
}

fn failure_message(a: CrawlAction) -> String {
    match a {
        CrawlAction::RecordFailure { crawl_id, message } => {
            assert_eq!(crawl_id, 3);
            message
        }
        other => panic!("expected a failure, got {other:?}"),
    }
}

#[test]
fn crawl_kinds_by_name() {
    assert_eq!(crawl_kind("VALIDATE_CREDENTIALS"), Some(CrawlKind::ValidateCredentials));
    assert_eq!(crawl_kind("DOWNLOAD_INVOICES"), Some(CrawlKind::DownloadInvoices));
    assert_eq!(crawl_kind("DOWNLOAD_ISSUED_INVOICES"), Some(CrawlKind::DownloadIssuedInvoices));
    assert_eq!(crawl_kind("DOWNLOAD_RECEIVED_INVOICES"), Some(CrawlKind::DownloadReceivedInvoices));
    assert_eq!(crawl_kind("download_invoices"), None);
    for k in [
        CrawlKind::ValidateCredentials,
        CrawlKind::DownloadInvoices,
        CrawlKind::DownloadIssuedInvoices,
        CrawlKind::DownloadReceivedInvoices,
    ] {
        assert_eq!(crawl_kind(&crawl_kind_name(k)), Some(k));
    }
    assert_eq!(login_kind("FIEL"), LoginKind::Fiel);
    assert_eq!(login_kind("CIEC"), LoginKind::Ciec);
    assert_eq!(login_kind("anything"), LoginKind::Ciec);
}

#[test]
fn download_crawl_happy_path() {
    let record = crawl(3, Some(5), "DOWNLOAD_ISSUED_INVOICES", params(None, Some("31/01/2024"), None));
    let (run, a) = up_to_crawler(record, credential("CIEC", "pw1"));
    match a {
        CrawlAction::RunCrawler(r) => {
            assert_eq!(r.kind, CrawlKind::DownloadIssuedInvoices);
            assert_eq!(r.login, LoginKind::Ciec);
            assert_eq!(r.username, "AAA010101AAA");
            assert_eq!(r.password, "pw1");
            assert!(r.headless);
            assert!(!r.sandbox);
            assert_eq!(r.start_date.as_deref(), Some("01/01/2026"));
            assert_eq!(r.end_date.as_deref(), Some("31/01/2024"));
        }
        other => panic!("unexpected {other:?}"),
    }
    let (run, a) = step(run, CrawlEvent::CrawlerFinished { success: true, message: "done".to_string() });
    match a {
        CrawlAction::RecordFinished { crawl_id, status, message } => {
            assert_eq!(crawl_id, 3);
            assert_eq!(status, "COMPLETED");
            assert_eq!(message, "done");
        }
        other => panic!("unexpected {other:?}"),
    }
    let (_, a) = step(run, CrawlEvent::Recorded(Ok(())));
    assert!(matches!(a, CrawlAction::Stop));
}

#[test]
fn failed_crawler_is_recorded_failed() {
    let record = crawl(3, Some(5), "DOWNLOAD_INVOICES", params(Some("01/02/2024"), None, None));
    let (run, a) = up_to_crawler(record, credential("FIEL", "pw"));
    match &a {
        CrawlAction::RunCrawler(r) => {
            assert_eq!(r.login, LoginKind::Fiel);
            assert_eq!(r.start_date.as_deref(), Some("01/02/2024"));
            assert_eq!(r.end_date, None);
        }
        other => panic!("unexpected {other:?}"),
    }
    let (_, a) = step(run, CrawlEvent::CrawlerFinished { success: false, message: "login refused".to_string() });
    match a {
        CrawlAction::RecordFinished { status, message, .. } => {
            assert_eq!(status, "FAILED");
            assert_eq!(message, "login refused");
        }
        other => panic!("unexpected {other:?}"),
    }
}

#[test]
fn run_failures_carry_their_message() {
    let (run, _) = step(crawl_run_start(3), CrawlEvent::Begin);
    let (run, a) = step(run, CrawlEvent::CrawlLoaded(Ok(None)));
    assert_eq!(failure_message(a), "crawl 3 not found");
    let (_, a) = step(run, CrawlEvent::FailureRecorded);
    assert!(matches!(a, CrawlAction::Stop));

    let (run, _) = step(crawl_run_start(3), CrawlEvent::Begin);
    let (_, a) = step(run, CrawlEvent::CrawlLoaded(Err("pool timed out".to_string())));
    assert_eq!(failure_message(a), "pool timed out");

    let (run, _) = step(crawl_run_start(3), CrawlEvent::Begin);
    let (run, _) = step(run, CrawlEvent::CrawlLoaded(Ok(Some(crawl(3, None, "DOWNLOAD_INVOICES", params(None, None, None))))));
    let (_, a) = step(run, CrawlEvent::Marked(Ok(())));
    assert_eq!(failure_message(a), "crawl 3 has no link");

    let (run, _) = step(crawl_run_start(3), CrawlEvent::Begin);
    let (run, _) = step(run, CrawlEvent::CrawlLoaded(Ok(Some(crawl(3, Some(5), "DOWNLOAD_INVOICES", params(None, None, None))))));
    let (run, _) = step(run, CrawlEvent::Marked(Ok(())));
    let (_, a) = step(run, CrawlEvent::LinkLoaded(Ok(None)));
    assert_eq!(failure_message(a), "link 5 not found");

    let (run, _) = step(crawl_run_start(3), CrawlEvent::Begin);
    let (run, _) = step(run, CrawlEvent::CrawlLoaded(Ok(Some(crawl(3, Some(5), "DOWNLOAD_INVOICES", params(None, None, None))))));
    let (run, _) = step(run, CrawlEvent::Marked(Ok(())));
    let (run, _) = step(run, CrawlEvent::LinkLoaded(Ok(Some(link()))));
    let (_, a) = step(run, CrawlEvent::CredentialLoaded(Ok(None)));
    assert_eq!(failure_message(a), "credential 11 not found");
}

#[test]
fn unknown_type_and_bad_password_fail() {
    let (_, a) = up_to_crawler(crawl(3, Some(5), "SOMETHING", params(None, None, None)), credential("CIEC", "pw"));
    assert_eq!(failure_message(a), "unknown crawl type: SOMETHING");

    let mut cred = credential("CIEC", "pw");
    cred.password = "AAAA".to_string();
    let (_, a) = up_to_crawler(crawl(3, Some(5), "SOMETHING", params(None, None, None)), cred);
    assert_eq!(failure_message(a), "crypto error: ciphertext too short");
}

#[test]
fn rejected_dates_fail_the_crawl() {
    let record = crawl(3, Some(5), "DOWNLOAD_INVOICES", params(Some("32/13/2024"), None, None));
    let (run, _) = up_to_crawler(record, credential("CIEC", "pw"));
    let (_, a) = step(run, CrawlEvent::FiltersRejected { field: DateField::Start, detail: "bad day".to_string() });
    assert_eq!(failure_message(a), "invalid start_date: bad day");

    let record = crawl(3, Some(5), "DOWNLOAD_INVOICES", params(None, Some("x"), None));
    let (run, _) = up_to_crawler(record, credential("CIEC", "pw"));
    let (_, a) = step(run, CrawlEvent::FiltersRejected { field: DateField::End, detail: "x".to_string() });
    assert_eq!(failure_message(a), "invalid end_date: x");
}

#[test]
fn successful_validation_activates_link_and_backfills() {
    let record = crawl(3, Some(5), "VALIDATE_CREDENTIALS", params(None, None, None));
    let (run, a) = up_to_crawler(record, credential("CIEC", "pw"));
    match &a {
        CrawlAction::RunCrawler(r) => {
            assert_eq!(r.kind, CrawlKind::ValidateCredentials);
            assert_eq!(r.start_date, None);
            assert_eq!(r.end_date, None);
        }
        other => panic!("unexpected {other:?}"),
    }
    let (run, _) = step(run, CrawlEvent::CrawlerFinished { success: true, message: "ok".to_string() });
    let (run, a) = step(run, CrawlEvent::Recorded(Ok(())));
    match a {
        CrawlAction::SetLinkStatus { link_id, status } => {
            assert_eq!(link_id, 5);
            assert_eq!(status, "VALID");
        }
        other => panic!("unexpected {other:?}"),
    }
    let (run, a) = step(run, CrawlEvent::LinkUpdated(Ok(())));
    match a {
        CrawlAction::StartDownloads { link_id, user_id, kinds, start_date } => {
            assert_eq!((link_id, user_id), (5, 9));
            assert_eq!(kinds, vec![CrawlKind::DownloadIssuedInvoices, CrawlKind::DownloadReceivedInvoices]);
            assert_eq!(start_date, "01/01/2017");
        }
        other => panic!("unexpected {other:?}"),
    }
    let (_, a) = step(run, CrawlEvent::DownloadsStarted);
    assert!(matches!(a, CrawlAction::Stop));
}

#[test]
fn failed_validation_restores_or_invalidates() {
    let record = crawl(3, Some(5), "VALIDATE_CREDENTIALS", params(None, None, Some(4)));
    let (run, _) = up_to_crawler(record, credential("CIEC", "pw"));
    let (run, _) = step(run, CrawlEvent::CrawlerFinished { success: false, message: "no".to_string() });
    let (run, a) = step(run, CrawlEvent::Recorded(Ok(())));
    match a {
        CrawlAction::RestoreLinkCredential { link_id, credential_id, status } => {
            assert_eq!((link_id, credential_id), (5, 4));
            assert_eq!(status, "VALID");
        }
        other => panic!("unexpected {other:?}"),
    }
    let (_, a) = step(run, CrawlEvent::LinkUpdated(Ok(())));
    assert!(matches!(a, CrawlAction::Stop));

    let record = crawl(3, Some(5), "VALIDATE_CREDENTIALS", params(None, None, None));
    let (run, _) = up_to_crawler(record, credential("CIEC", "pw"));
    let (run, _) = step(run, CrawlEvent::CrawlerFinished { success: false, message: "no".to_string() });
    let (_, a) = step(run, CrawlEvent::Recorded(Ok(())));
    match a {
        CrawlAction::SetLinkStatus { link_id, status } => {
            assert_eq!(link_id, 5);
            assert_eq!(status, "INVALID");
        }
        other => panic!("unexpected {other:?}"),
    }

    let record = crawl(3, Some(5), "VALIDATE_CREDENTIALS", params(None, None, Some(1 << 40)));
    let (run, _) = up_to_crawler(record, credential("CIEC", "pw"));
    let (run, _) = step(run, CrawlEvent::CrawlerFinished { success: false, message: "no".to_string() });
    let (_, a) = step(run, CrawlEvent::Recorded(Ok(())));
    assert_eq!(failure_message(a), "out of range integral type conversion attempted");
}

#[test]
fn link_update_errors_fail_the_crawl() {
    let record = crawl(3, Some(5), "VALIDATE_CREDENTIALS", params(None, None, None));
    let (run, _) = up_to_crawler(record, credential("CIEC", "pw"));
    let (run, _) = step(run, CrawlEvent::CrawlerFinished { success: true, message: "ok".to_string() });
    let (run, _) = step(run, CrawlEvent::Recorded(Ok(())));
    let (_, a) = step(run, CrawlEvent::LinkUpdated(Err("deadlock".to_string())));
    assert_eq!(failure_message(a), "deadlock");
}

#[test]
fn stray_events_end_the_run() {
    let (run, a) = step(crawl_run_start(3), CrawlEvent::Marked(Ok(())));
    assert!(matches!(a, CrawlAction::Stop));
    assert_eq!(run.crawl_id, 3);
}

#[test]
fn params_copy_is_identical() {
    let p = params(Some("a"), None, Some(7));
    let q = copy_params(&p);
    assert_eq!(q.start_date, p.start_date);
    assert_eq!(q.end_date, p.end_date);
    assert_eq!(q.old_credential_id, p.old_credential_id);
}
