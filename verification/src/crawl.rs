//! How a crawl is run: the decisions taken between the database reads and
//! writes, the portal crawler and the credential decryption, written as a
//! step function from the run's state and what just happened to the next
//! state and the next thing to do.

use vstd::prelude::*;

use crate::crypto::{decrypt, opt_text, spec_decrypt};
use crate::text::{decimal, opt_view, str_eq, string_of, text_number_text, concat2};

verus! {

/// The kinds of crawl the service runs.
#[derive(Debug, Clone, Copy, PartialEq, Eq)]
pub enum CrawlKind {
    ValidateCredentials,
    DownloadInvoices,
    DownloadIssuedInvoices,
    DownloadReceivedInvoices,
}

/// The stored name of a crawl kind.
pub open spec fn kind_name(k: CrawlKind) -> Seq<char> {
    match k {
        CrawlKind::ValidateCredentials => "VALIDATE_CREDENTIALS"@,
        CrawlKind::DownloadInvoices => "DOWNLOAD_INVOICES"@,
        CrawlKind::DownloadIssuedInvoices => "DOWNLOAD_ISSUED_INVOICES"@,
        CrawlKind::DownloadReceivedInvoices => "DOWNLOAD_RECEIVED_INVOICES"@,
    }
}

/// The crawl kind with a stored name, if any.
pub open spec fn kind_named(t: Seq<char>) -> Option<CrawlKind> {
    if t == "VALIDATE_CREDENTIALS"@ {
        Some(CrawlKind::ValidateCredentials)
    } else if t == "DOWNLOAD_INVOICES"@ {
        Some(CrawlKind::DownloadInvoices)
    } else if t == "DOWNLOAD_ISSUED_INVOICES"@ {
        Some(CrawlKind::DownloadIssuedInvoices)
    } else if t == "DOWNLOAD_RECEIVED_INVOICES"@ {
        Some(CrawlKind::DownloadReceivedInvoices)
    } else {
        None
    }
}

/// The crawl kind stored under the name `t`.
pub fn crawl_kind(t: &str) -> (res: Option<CrawlKind>)
    ensures
        res == kind_named(t@),
{
    if str_eq(t, "VALIDATE_CREDENTIALS") {
        Some(CrawlKind::ValidateCredentials)
    } else if str_eq(t, "DOWNLOAD_INVOICES") {
        Some(CrawlKind::DownloadInvoices)
    } else if str_eq(t, "DOWNLOAD_ISSUED_INVOICES") {
        Some(CrawlKind::DownloadIssuedInvoices)
    } else if str_eq(t, "DOWNLOAD_RECEIVED_INVOICES") {
        Some(CrawlKind::DownloadReceivedInvoices)
    } else {
        None
    }
}

/// The name under which a crawl kind is stored.
pub fn crawl_kind_name(k: CrawlKind) -> (res: String)
    ensures
        res@ == kind_name(k),
{
    match k {
        CrawlKind::ValidateCredentials => string_of("VALIDATE_CREDENTIALS"),
        CrawlKind::DownloadInvoices => string_of("DOWNLOAD_INVOICES"),
        CrawlKind::DownloadIssuedInvoices => string_of("DOWNLOAD_ISSUED_INVOICES"),
        CrawlKind::DownloadReceivedInvoices => string_of("DOWNLOAD_RECEIVED_INVOICES"),
    }
}

/// How the crawler logs in to the SAT portal.
#[derive(Debug, Clone, Copy, PartialEq, Eq)]
pub enum LoginKind {
    Fiel,
    Ciec,
}

/// The login of a credential type: e.firma (`FIEL`) or password (anything
/// else).
pub open spec fn login_for(cred_type: Seq<char>) -> LoginKind {
    if cred_type == "FIEL"@ {
        LoginKind::Fiel
    } else {
        LoginKind::Ciec
    }
}

/// The login used for a credential of the given type.
pub fn login_kind(cred_type: &str) -> (res: LoginKind)
    ensures
        res == login_for(cred_type@),
{
    if str_eq(cred_type, "FIEL") {
        LoginKind::Fiel
    } else {
        LoginKind::Ciec
    }
}

/// What the crawl logic reads of a crawl's JSON parameters: the string
/// members `start_date` and `end_date` and the integer member
/// `old_credential_id`.
#[derive(Debug, Clone)]
pub struct CrawlParams {
    pub start_date: Option<String>,
    pub end_date: Option<String>,
    pub old_credential_id: Option<i64>,
}

/// A stored crawl, as far as running it reads it.
#[derive(Debug, Clone)]
pub struct CrawlRecord {
    pub id: i32,
    pub link_id: Option<i32>,
    pub crawl_type: String,
    pub params: CrawlParams,
}

/// A stored link between a user, a taxpayer and a credential.
#[derive(Debug, Clone, Copy, PartialEq, Eq)]
pub struct LinkRecord {
    pub id: i32,
    pub user_id: i32,
    pub credential_id: i32,
}

/// A stored credential, its password still encrypted.
#[derive(Debug, Clone)]
pub struct CredentialRecord {
    pub id: i32,
    pub taxpayer_id: String,
    pub cred_type: String,
    pub password: String,
    pub cer_path: Option<String>,
    pub key_path: Option<String>,
}

/// Which date filter a crawl parameter gave.
#[derive(Debug, Clone, Copy, PartialEq, Eq)]
pub enum DateField {
    Start,
    End,
}

/// What the portal crawler is started with.
#[derive(Debug, Clone)]
pub struct CrawlerRequest {
    pub kind: CrawlKind,
    pub login: LoginKind,
    pub username: String,
    pub password: String,
    pub cer_path: Option<String>,
    pub key_path: Option<String>,
    pub headless: bool,
    pub sandbox: bool,
    /// The start date text, for the download kinds.
    pub start_date: Option<String>,
    /// The end date text, for the download kinds when one was given.
    pub end_date: Option<String>,
}

/// A crawler request as values.
pub struct CrawlerRequestView {
    pub kind: CrawlKind,
    pub login: LoginKind,
    pub username: Seq<char>,
    pub password: Seq<char>,
    pub cer_path: Option<Seq<char>>,
    pub key_path: Option<Seq<char>>,
    pub headless: bool,
    pub sandbox: bool,
    pub start_date: Option<Seq<char>>,
    pub end_date: Option<Seq<char>>,
}

impl View for CrawlerRequest {
    type V = CrawlerRequestView;

    open spec fn view(&self) -> CrawlerRequestView {
        CrawlerRequestView {
            kind: self.kind,
            login: self.login,
            username: self.username@,
            password: self.password@,
            cer_path: opt_view(self.cer_path),
            key_path: opt_view(self.key_path),
            headless: self.headless,
            sandbox: self.sandbox,
            start_date: opt_view(self.start_date),
            end_date: opt_view(self.end_date),
        }
    }
}

/// The next thing a crawl run asks to be done.
#[derive(Debug, Clone)]
pub enum CrawlAction {
    /// Read the crawl.
    LoadCrawl { crawl_id: i32 },
    /// Mark the crawl as running.
    MarkRunning { crawl_id: i32 },
    /// Read the crawl's link.
    LoadLink { link_id: i32 },
    /// Read the link's credential.
    LoadCredential { credential_id: i32 },
    /// Run the portal crawler.
    RunCrawler(CrawlerRequest),
    /// Store the crawl's final status and message.
    RecordFinished { crawl_id: i32, status: String, message: String },
    /// Set a link's status.
    SetLinkStatus { link_id: i32, status: String },
    /// Point a link back at a credential and set its status.
    RestoreLinkCredential { link_id: i32, credential_id: i32, status: String },
    /// Create and start one crawl of each kind for the link, from the start
    /// date given.
    StartDownloads { link_id: i32, user_id: i32, kinds: Vec<CrawlKind>, start_date: String },
    /// Mark the crawl failed with the message.
    RecordFailure { crawl_id: i32, message: String },
    /// Nothing more.
    Stop,
}

/// A crawl action as values.
pub enum CrawlActionView {
    LoadCrawl { crawl_id: i32 },
    MarkRunning { crawl_id: i32 },
    LoadLink { link_id: i32 },
    LoadCredential { credential_id: i32 },
    RunCrawler(CrawlerRequestView),
    RecordFinished { crawl_id: i32, status: Seq<char>, message: Seq<char> },
    SetLinkStatus { link_id: i32, status: Seq<char> },
    RestoreLinkCredential { link_id: i32, credential_id: i32, status: Seq<char> },
    StartDownloads { link_id: i32, user_id: i32, kinds: Seq<CrawlKind>, start_date: Seq<char> },
    RecordFailure { crawl_id: i32, message: Seq<char> },
    Stop,
}

impl View for CrawlAction {
    type V = CrawlActionView;

    open spec fn view(&self) -> CrawlActionView {
        match self {
            CrawlAction::LoadCrawl { crawl_id } => CrawlActionView::LoadCrawl { crawl_id: *crawl_id },
            CrawlAction::MarkRunning { crawl_id } => CrawlActionView::MarkRunning { crawl_id: *crawl_id },
            CrawlAction::LoadLink { link_id } => CrawlActionView::LoadLink { link_id: *link_id },
            CrawlAction::LoadCredential { credential_id } => CrawlActionView::LoadCredential {
                credential_id: *credential_id,
            },
            CrawlAction::RunCrawler(r) => CrawlActionView::RunCrawler(r@),
            CrawlAction::RecordFinished { crawl_id, status, message } => CrawlActionView::RecordFinished {
                crawl_id: *crawl_id,
                status: status@,
                message: message@,
            },
            CrawlAction::SetLinkStatus { link_id, status } => CrawlActionView::SetLinkStatus {
                link_id: *link_id,
                status: status@,
            },
            CrawlAction::RestoreLinkCredential { link_id, credential_id, status } => CrawlActionView::RestoreLinkCredential {
                link_id: *link_id,
                credential_id: *credential_id,
                status: status@,
            },
            CrawlAction::StartDownloads { link_id, user_id, kinds, start_date } => CrawlActionView::StartDownloads {
                link_id: *link_id,
                user_id: *user_id,
                kinds: kinds@,
                start_date: start_date@,
            },
            CrawlAction::RecordFailure { crawl_id, message } => CrawlActionView::RecordFailure {
                crawl_id: *crawl_id,
                message: message@,
            },
            CrawlAction::Stop => CrawlActionView::Stop,
        }
    }
}

/// What happened since the last step.
#[derive(Debug)]
pub enum CrawlEvent {
    /// The run is starting.
    Begin,
    /// The crawl was read (or the read failed with the message).
    CrawlLoaded(Result<Option<CrawlRecord>, String>),
    /// The crawl was marked running.
    Marked(Result<(), String>),
    /// The link was read.
    LinkLoaded(Result<Option<LinkRecord>, String>),
    /// The credential was read.
    CredentialLoaded(Result<Option<CredentialRecord>, String>),
    /// A date filter could not be read; the detail is the reader's message.
    FiltersRejected { field: DateField, detail: String },
    /// The crawler finished with its verdict and message.
    CrawlerFinished { success: bool, message: String },
    /// The final status was stored.
    Recorded(Result<(), String>),
    /// The link was updated.
    LinkUpdated(Result<(), String>),
    /// The follow-up download crawls were started.
    DownloadsStarted,
    /// The failure was stored.
    FailureRecorded,
}

/// Where a crawl run stands.
#[derive(Debug, Clone)]
pub enum CrawlPhase {
    Start,
    LoadingCrawl,
    MarkingRunning { crawl: CrawlRecord },
    LoadingLink { crawl: CrawlRecord, link_id: i32 },
    LoadingCredential { crawl: CrawlRecord, link: LinkRecord },
    Crawling { crawl: CrawlRecord, link: LinkRecord, kind: CrawlKind },
    RecordingResult { crawl: CrawlRecord, link: LinkRecord, kind: CrawlKind, success: bool },
    UpdatingLink { link: LinkRecord, success: bool },
    StartingDownloads,
    RecordingFailure,
    Finished,
}

/// The state of the run of one crawl.
#[derive(Debug, Clone)]
pub struct CrawlRun {
    pub crawl_id: i32,
    pub phase: CrawlPhase,
}

/// The start date used by the download crawls when the parameters give
/// none.
pub open spec fn default_start_date() -> Seq<char> {
    "01/01/2026"@
}

/// The start date of the download crawls started after a credential is
/// validated.
pub open spec fn backfill_start_date() -> Seq<char> {
    "01/01/2017"@
}

/// `crawl <id> not found`.
pub open spec fn msg_crawl_not_found(id: i32) -> Seq<char> {
    "crawl "@ + decimal(id as int) + " not found"@
}

/// `crawl <id> has no link`.
pub open spec fn msg_crawl_without_link(id: i32) -> Seq<char> {
    "crawl "@ + decimal(id as int) + " has no link"@
}

/// `link <id> not found`.
pub open spec fn msg_link_not_found(id: i32) -> Seq<char> {
    "link "@ + decimal(id as int) + " not found"@
}

/// `credential <id> not found`.
pub open spec fn msg_credential_not_found(id: i32) -> Seq<char> {
    "credential "@ + decimal(id as int) + " not found"@
}

/// `unknown crawl type: <type>`.
pub open spec fn msg_unknown_type(t: Seq<char>) -> Seq<char> {
    "unknown crawl type: "@ + t
}

/// `invalid start_date: <detail>` or `invalid end_date: <detail>`.
pub open spec fn msg_bad_date(field: DateField, detail: Seq<char>) -> Seq<char> {
    match field {
        DateField::Start => "invalid start_date: "@ + detail,
        DateField::End => "invalid end_date: "@ + detail,
    }
}

/// The message of an integer that does not fit an `i32`
/// (`TryFromIntError`'s printed form).
pub open spec fn msg_out_of_range() -> Seq<char> {
    "out of range integral type conversion attempted"@
}

/// The status a finished crawl is stored with.
pub open spec fn finished_status(success: bool) -> Seq<char> {
    if success {
        "COMPLETED"@
    } else {
        "FAILED"@
    }
}

/// Whether a kind downloads invoices (and so takes date filters).
pub open spec fn is_download(k: CrawlKind) -> bool {
    k != CrawlKind::ValidateCredentials
}

/// The crawler request for a crawl of kind `k` with a credential, its
/// decrypted password and the crawl's parameters.
pub open spec fn crawler_request(
    k: CrawlKind,
    cred: CredentialRecord,
    password: Seq<char>,
    params: CrawlParams,
) -> CrawlerRequestView {
    CrawlerRequestView {
        kind: k,
        login: login_for(cred.cred_type@),
        username: cred.taxpayer_id@,
        password: password,
        cer_path: opt_view(cred.cer_path),
        key_path: opt_view(cred.key_path),
        headless: true,
        sandbox: false,
        start_date: if is_download(k) {
            match params.start_date {
                Some(s) => Some(s@),
                None => Some(default_start_date()),
            }
        } else {
            None
        },
        end_date: if is_download(k) {
            opt_view(params.end_date)
        } else {
            None
        },
    }
}

/// Giving up: record the failure of the run's crawl with the message.
pub open spec fn fail(crawl_id: i32, message: Seq<char>) -> (CrawlRun, CrawlActionView) {
    (
        CrawlRun { crawl_id, phase: CrawlPhase::RecordingFailure },
        CrawlActionView::RecordFailure { crawl_id, message },
    )
}

/// Nothing left to do.
pub open spec fn finish(crawl_id: i32) -> (CrawlRun, CrawlActionView) {
    (CrawlRun { crawl_id, phase: CrawlPhase::Finished }, CrawlActionView::Stop)
}

/// The step once the result was recorded: a validation crawl updates its
/// link, other kinds are done.
pub open spec fn after_recorded(
    crawl_id: i32,
    crawl: CrawlRecord,
    link: LinkRecord,
    kind: CrawlKind,
    success: bool,
) -> (CrawlRun, CrawlActionView) {
    if kind != CrawlKind::ValidateCredentials {
        finish(crawl_id)
    } else if success {
        (
            CrawlRun { crawl_id, phase: CrawlPhase::UpdatingLink { link, success: true } },
            CrawlActionView::SetLinkStatus { link_id: link.id, status: "VALID"@ },
        )
    } else {
        match crawl.params.old_credential_id {
            None => (
                CrawlRun { crawl_id, phase: CrawlPhase::UpdatingLink { link, success: false } },
                CrawlActionView::SetLinkStatus { link_id: link.id, status: "INVALID"@ },
            ),
            Some(old) => if i32::MIN <= old <= i32::MAX {
                (
                    CrawlRun { crawl_id, phase: CrawlPhase::UpdatingLink { link, success: false } },
                    CrawlActionView::RestoreLinkCredential {
                        link_id: link.id,
                        credential_id: old as i32,
                        status: "VALID"@,
                    },
                )
            } else {
                fail(crawl_id, msg_out_of_range())
            },
        }
    }
}

/// The step once the credential was read.
pub open spec fn after_credential(
    crawl_id: i32,
    crawl: CrawlRecord,
    link: LinkRecord,
    cred: CredentialRecord,
    key_setting: Option<Seq<char>>,
) -> (CrawlRun, CrawlActionView) {
    match spec_decrypt(key_setting, cred.password@) {
        Err(m) => fail(crawl_id, "crypto error: "@ + m),
        Ok(password) => match kind_named(crawl.crawl_type@) {
            None => fail(crawl_id, msg_unknown_type(crawl.crawl_type@)),
            Some(k) => (
                CrawlRun { crawl_id, phase: CrawlPhase::Crawling { crawl, link, kind: k } },
                CrawlActionView::RunCrawler(crawler_request(k, cred, password, crawl.params)),
            ),
        },
    }
}

/// One step of a crawl run: from the state and what happened to the next
/// state and action. An event that does not belong to the state ends the
/// run.
pub open spec fn crawl_step_spec(
    run: CrawlRun,
    event: CrawlEvent,
    key_setting: Option<Seq<char>>,
) -> (CrawlRun, CrawlActionView) {
    let id = run.crawl_id;
    match (run.phase, event) {
        (CrawlPhase::Start, CrawlEvent::Begin) => (
            CrawlRun { crawl_id: id, phase: CrawlPhase::LoadingCrawl },
            CrawlActionView::LoadCrawl { crawl_id: id },
        ),
        (CrawlPhase::LoadingCrawl, CrawlEvent::CrawlLoaded(r)) => match r {
            Err(m) => fail(id, m@),
            Ok(None) => fail(id, msg_crawl_not_found(id)),
            Ok(Some(crawl)) => (
                CrawlRun { crawl_id: id, phase: CrawlPhase::MarkingRunning { crawl } },
                CrawlActionView::MarkRunning { crawl_id: id },
            ),
        },
        (CrawlPhase::MarkingRunning { crawl }, CrawlEvent::Marked(r)) => match r {
            Err(m) => fail(id, m@),
            Ok(_) => match crawl.link_id {
                None => fail(id, msg_crawl_without_link(id)),
                Some(link_id) => (
                    CrawlRun { crawl_id: id, phase: CrawlPhase::LoadingLink { crawl, link_id } },
                    CrawlActionView::LoadLink { link_id },
                ),
            },
        },
        (CrawlPhase::LoadingLink { crawl, link_id }, CrawlEvent::LinkLoaded(r)) => match r {
            Err(m) => fail(id, m@),
            Ok(None) => fail(id, msg_link_not_found(link_id)),
            Ok(Some(link)) => (
                CrawlRun { crawl_id: id, phase: CrawlPhase::LoadingCredential { crawl, link } },
                CrawlActionView::LoadCredential { credential_id: link.credential_id },
            ),
        },
        (CrawlPhase::LoadingCredential { crawl, link }, CrawlEvent::CredentialLoaded(r)) => match r {
            Err(m) => fail(id, m@),
            Ok(None) => fail(id, msg_credential_not_found(link.credential_id)),
            Ok(Some(cred)) => after_credential(id, crawl, link, cred, key_setting),
        },
        (CrawlPhase::Crawling { .. }, CrawlEvent::FiltersRejected { field, detail }) => fail(
            id,
            msg_bad_date(field, detail@),
        ),
        (CrawlPhase::Crawling { crawl, link, kind }, CrawlEvent::CrawlerFinished { success, message }) => (
            CrawlRun { crawl_id: id, phase: CrawlPhase::RecordingResult { crawl, link, kind, success } },
            CrawlActionView::RecordFinished {
                crawl_id: id,
                status: finished_status(success),
                message: message@,
            },
        ),
        (CrawlPhase::RecordingResult { crawl, link, kind, success }, CrawlEvent::Recorded(r)) => match r {
            Err(m) => fail(id, m@),
            Ok(_) => after_recorded(id, crawl, link, kind, success),
        },
        (CrawlPhase::UpdatingLink { link, success }, CrawlEvent::LinkUpdated(r)) => match r {
            Err(m) => fail(id, m@),
            Ok(_) => if success {
                (
                    CrawlRun { crawl_id: id, phase: CrawlPhase::StartingDownloads },
                    CrawlActionView::StartDownloads {
                        link_id: link.id,
                        user_id: link.user_id,
                        kinds: seq![CrawlKind::DownloadIssuedInvoices, CrawlKind::DownloadReceivedInvoices],
                        start_date: backfill_start_date(),
                    },
                )
            } else {
                finish(id)
            },
        },
        (CrawlPhase::StartingDownloads, CrawlEvent::DownloadsStarted) => finish(id),
        (CrawlPhase::RecordingFailure, CrawlEvent::FailureRecorded) => finish(id),
        _ => finish(id),
    }
}

/// The state in which the run of a crawl begins.
pub fn crawl_run_start(crawl_id: i32) -> (res: CrawlRun)
    ensures
        res.crawl_id == crawl_id,
        res.phase is Start,
{
    CrawlRun { crawl_id, phase: CrawlPhase::Start }
}

fn fail_with(crawl_id: i32, message: String) -> (res: (CrawlRun, CrawlAction))
    ensures
        (res.0, res.1@) == fail(crawl_id, message@),
{
    (
        CrawlRun { crawl_id, phase: CrawlPhase::RecordingFailure },
        CrawlAction::RecordFailure { crawl_id, message },
    )
}

fn finish_run(crawl_id: i32) -> (res: (CrawlRun, CrawlAction))
    ensures
        (res.0, res.1@) == finish(crawl_id),
{
    (CrawlRun { crawl_id, phase: CrawlPhase::Finished }, CrawlAction::Stop)
}

fn copy_opt_string(o: &Option<String>) -> (res: Option<String>)
    ensures
        res == *o,
{
    match o {
        Some(s) => Some(s.clone()),
        None => None,
    }
}

/// An identical copy of crawl parameters.
pub fn copy_params(p: &CrawlParams) -> (res: CrawlParams)
    ensures
        res == *p,
{
    CrawlParams {
        start_date: copy_opt_string(&p.start_date),
        end_date: copy_opt_string(&p.end_date),
        old_credential_id: p.old_credential_id,
    }
}

fn request_for(k: CrawlKind, cred: CredentialRecord, password: String, params: CrawlParams) -> (res: CrawlerRequest)
    ensures
        res@ == crawler_request(k, cred, password@, params),
{
    let login = login_kind(cred.cred_type.as_str());
    let download = match k {
        CrawlKind::ValidateCredentials => false,
        _ => true,
    };
    let start_date = if download {
        match params.start_date {
            Some(s) => Some(s),
            None => Some(string_of("01/01/2026")),
        }
    } else {
        None
    };
    let end_date = if download {
        params.end_date
    } else {
        None
    };
    CrawlerRequest {
        kind: k,
        login,
        username: cred.taxpayer_id,
        password,
        cer_path: cred.cer_path,
        key_path: cred.key_path,
        headless: true,
        sandbox: false,
        start_date,
        end_date,
    }
}

fn step_after_credential(
    crawl_id: i32,
    crawl: CrawlRecord,
    link: LinkRecord,
    cred: CredentialRecord,
    key_setting: Option<&str>,
) -> (res: (CrawlRun, CrawlAction))
    ensures
        (res.0, res.1@) == after_credential(crawl_id, crawl, link, cred, opt_text(key_setting)),
{
    match decrypt(key_setting, cred.password.as_str()) {
        Err(e) => fail_with(crawl_id, e.to_string()),
        Ok(password) => match crawl_kind(crawl.crawl_type.as_str()) {
            None => fail_with(crawl_id, concat2("unknown crawl type: ", crawl.crawl_type.as_str())),
            Some(k) => {
                let params = copy_params(&crawl.params);
                let req = request_for(k, cred, password, params);
                (
                    CrawlRun { crawl_id, phase: CrawlPhase::Crawling { crawl, link, kind: k } },
                    CrawlAction::RunCrawler(req),
                )
            },
        },
    }
}

fn step_after_recorded(
    crawl_id: i32,
    crawl: CrawlRecord,
    link: LinkRecord,
    kind: CrawlKind,
    success: bool,
) -> (res: (CrawlRun, CrawlAction))
    ensures
        (res.0, res.1@) == after_recorded(crawl_id, crawl, link, kind, success),
{
    match kind {
        CrawlKind::ValidateCredentials => {},
        _ => {
            return finish_run(crawl_id);
        },
    }
    if success {
        return (
            CrawlRun { crawl_id, phase: CrawlPhase::UpdatingLink { link, success: true } },
            CrawlAction::SetLinkStatus { link_id: link.id, status: string_of("VALID") },
        );
    }
    match crawl.params.old_credential_id {
        None => (
            CrawlRun { crawl_id, phase: CrawlPhase::UpdatingLink { link, success: false } },
            CrawlAction::SetLinkStatus { link_id: link.id, status: string_of("INVALID") },
        ),
        Some(old) => if i32::MIN as i64 <= old && old <= i32::MAX as i64 {
            (
                CrawlRun { crawl_id, phase: CrawlPhase::UpdatingLink { link, success: false } },
                CrawlAction::RestoreLinkCredential {
                    link_id: link.id,
                    credential_id: old as i32,
                    status: string_of("VALID"),
                },
            )
        } else {
            fail_with(crawl_id, string_of("out of range integral type conversion attempted"))
        },
    }
}

fn date_message(field: DateField, detail: &str) -> (res: String)
    ensures
        res@ == msg_bad_date(field, detail@),
{
    match field {
        DateField::Start => concat2("invalid start_date: ", detail),
        DateField::End => concat2("invalid end_date: ", detail),
    }
}

/// One step of a crawl run (see `crawl_step_spec`): `key_setting` is the
/// credential encryption key setting, used to decrypt the password.
pub fn crawl_step(run: CrawlRun, event: CrawlEvent, key_setting: Option<&str>) -> (res: (CrawlRun, CrawlAction))
    ensures
        (res.0, res.1@) == crawl_step_spec(run, event, opt_text(key_setting)),
{
    let id = run.crawl_id;
    match (run.phase, event) {
        (CrawlPhase::Start, CrawlEvent::Begin) => (
            CrawlRun { crawl_id: id, phase: CrawlPhase::LoadingCrawl },
            CrawlAction::LoadCrawl { crawl_id: id },
        ),
        (CrawlPhase::LoadingCrawl, CrawlEvent::CrawlLoaded(r)) => match r {
            Err(m) => fail_with(id, m),
            Ok(None) => fail_with(id, text_number_text("crawl ", id as i64, " not found")),
            Ok(Some(crawl)) => (
                CrawlRun { crawl_id: id, phase: CrawlPhase::MarkingRunning { crawl } },
                CrawlAction::MarkRunning { crawl_id: id },
            ),
        },
        (CrawlPhase::MarkingRunning { crawl }, CrawlEvent::Marked(r)) => match r {
            Err(m) => fail_with(id, m),
            Ok(_) => match crawl.link_id {
                None => fail_with(id, text_number_text("crawl ", id as i64, " has no link")),
                Some(link_id) => (
                    CrawlRun { crawl_id: id, phase: CrawlPhase::LoadingLink { crawl, link_id } },
                    CrawlAction::LoadLink { link_id },
                ),
            },
        },
        (CrawlPhase::LoadingLink { crawl, link_id }, CrawlEvent::LinkLoaded(r)) => match r {
            Err(m) => fail_with(id, m),
            Ok(None) => fail_with(id, text_number_text("link ", link_id as i64, " not found")),
            Ok(Some(link)) => (
                CrawlRun { crawl_id: id, phase: CrawlPhase::LoadingCredential { crawl, link } },
                CrawlAction::LoadCredential { credential_id: link.credential_id },
            ),
        },
        (CrawlPhase::LoadingCredential { crawl, link }, CrawlEvent::CredentialLoaded(r)) => match r {
            Err(m) => fail_with(id, m),
            Ok(None) => fail_with(
                id,
                text_number_text("credential ", link.credential_id as i64, " not found"),
            ),
            Ok(Some(cred)) => step_after_credential(id, crawl, link, cred, key_setting),
        },
        (CrawlPhase::Crawling { .. }, CrawlEvent::FiltersRejected { field, detail }) => fail_with(
            id,
            date_message(field, detail.as_str()),
        ),
        (CrawlPhase::Crawling { crawl, link, kind }, CrawlEvent::CrawlerFinished { success, message }) => {
            let status = if success {
                string_of("COMPLETED")
            } else {
                string_of("FAILED")
            };
            (
                CrawlRun { crawl_id: id, phase: CrawlPhase::RecordingResult { crawl, link, kind, success } },
                CrawlAction::RecordFinished { crawl_id: id, status, message },
            )
        },
        (CrawlPhase::RecordingResult { crawl, link, kind, success }, CrawlEvent::Recorded(r)) => match r {
            Err(m) => fail_with(id, m),
            Ok(_) => step_after_recorded(id, crawl, link, kind, success),
        },
        (CrawlPhase::UpdatingLink { link, success }, CrawlEvent::LinkUpdated(r)) => match r {
            Err(m) => fail_with(id, m),
            Ok(_) => if success {
                let mut kinds: Vec<CrawlKind> = Vec::new();
                kinds.push(CrawlKind::DownloadIssuedInvoices);
                kinds.push(CrawlKind::DownloadReceivedInvoices);
                assert(kinds@ == seq![CrawlKind::DownloadIssuedInvoices, CrawlKind::DownloadReceivedInvoices]);
                (
                    CrawlRun { crawl_id: id, phase: CrawlPhase::StartingDownloads },
                    CrawlAction::StartDownloads {
                        link_id: link.id,
                        user_id: link.user_id,
                        kinds,
                        start_date: string_of("01/01/2017"),
                    },
                )
            } else {
                finish_run(id)
            },
        },
        (CrawlPhase::StartingDownloads, CrawlEvent::DownloadsStarted) => finish_run(id),
        (CrawlPhase::RecordingFailure, CrawlEvent::FailureRecorded) => finish_run(id),
        _ => finish_run(id),
    }
}


/// The crawl that an action concerns, for the actions that name one.
pub open spec fn action_crawl(a: CrawlActionView) -> Option<i32> {
    match a {
        CrawlActionView::LoadCrawl { crawl_id } => Some(crawl_id),
        CrawlActionView::MarkRunning { crawl_id } => Some(crawl_id),
        CrawlActionView::RecordFinished { crawl_id, .. } => Some(crawl_id),
        CrawlActionView::RecordFailure { crawl_id, .. } => Some(crawl_id),
        _ => None,
    }
}

/// A run stays with its crawl: every step keeps the run's crawl id, and
/// every action that names a crawl names that one.
pub proof fn step_stays_with_its_crawl(run: CrawlRun, event: CrawlEvent, key_setting: Option<Seq<char>>)
    ensures
        crawl_step_spec(run, event, key_setting).0.crawl_id == run.crawl_id,
        action_crawl(crawl_step_spec(run, event, key_setting).1) is Some ==> action_crawl(
            crawl_step_spec(run, event, key_setting).1,
        ) == Some(run.crawl_id),
{
}

/// The event that reports a failed database operation with message `m` to
/// a run waiting in `phase`, for the phases that wait on the database.
pub open spec fn database_failure(phase: CrawlPhase, m: String) -> Option<CrawlEvent> {
    match phase {
        CrawlPhase::LoadingCrawl => Some(CrawlEvent::CrawlLoaded(Err(m))),
        CrawlPhase::MarkingRunning { .. } => Some(CrawlEvent::Marked(Err(m))),
        CrawlPhase::LoadingLink { .. } => Some(CrawlEvent::LinkLoaded(Err(m))),
        CrawlPhase::LoadingCredential { .. } => Some(CrawlEvent::CredentialLoaded(Err(m))),
        CrawlPhase::RecordingResult { .. } => Some(CrawlEvent::Recorded(Err(m))),
        CrawlPhase::UpdatingLink { .. } => Some(CrawlEvent::LinkUpdated(Err(m))),
        _ => None,
    }
}

/// A failed database operation fails the crawl: the run records the
/// failure of its crawl with the operation's message, and once that is
/// recorded it stops.
pub proof fn database_failure_fails_the_crawl(run: CrawlRun, m: String, key_setting: Option<Seq<char>>)
    requires
        database_failure(run.phase, m) is Some,
    ensures
        ({
            let (next, action) = crawl_step_spec(run, database_failure(run.phase, m)->0, key_setting);
            &&& action == CrawlActionView::RecordFailure { crawl_id: run.crawl_id, message: m@ }
            &&& next.phase is RecordingFailure
            &&& crawl_step_spec(next, CrawlEvent::FailureRecorded, key_setting).1 == CrawlActionView::Stop
        }),
{
}

/// A crawl that finished is stored as `COMPLETED` when the crawler
/// succeeded and as `FAILED` otherwise, with the crawler's message.
pub proof fn finished_status_follows_verdict(
    run: CrawlRun,
    success: bool,
    message: String,
    key_setting: Option<Seq<char>>,
)
    requires
        (run.phase is Crawling),
    ensures
        (crawl_step_spec(run, (CrawlEvent::CrawlerFinished { success, message }), key_setting).1
            == (CrawlActionView::RecordFinished {
            crawl_id: run.crawl_id,
            status: if success { "COMPLETED"@ } else { "FAILED"@ },
            message: message@,
        })),
{
}

/// A validation crawl that succeeded marks its link `VALID` and then starts
/// one download crawl of issued and one of received invoices from
/// 01/01/2017 for the link's user.
pub proof fn validation_success_activates_link(
    crawl_id: i32,
    crawl: CrawlRecord,
    link: LinkRecord,
    key_setting: Option<Seq<char>>,
)
    ensures
        ({
            let run = CrawlRun {
                crawl_id,
                phase: CrawlPhase::RecordingResult {
                    crawl,
                    link,
                    kind: CrawlKind::ValidateCredentials,
                    success: true,
                },
            };
            let (next, action) = crawl_step_spec(run, CrawlEvent::Recorded(Ok(())), key_setting);
            let (last, follow) = crawl_step_spec(next, CrawlEvent::LinkUpdated(Ok(())), key_setting);
            &&& action == CrawlActionView::SetLinkStatus { link_id: link.id, status: "VALID"@ }
            &&& follow == CrawlActionView::StartDownloads {
                link_id: link.id,
                user_id: link.user_id,
                kinds: seq![CrawlKind::DownloadIssuedInvoices, CrawlKind::DownloadReceivedInvoices],
                start_date: "01/01/2017"@,
            }
            &&& crawl_step_spec(last, CrawlEvent::DownloadsStarted, key_setting).1 == CrawlActionView::Stop
        }),
{
}

/// A validation crawl that failed puts the link back on the credential it
/// replaced, marked `VALID`, when its parameters name one; otherwise it
/// marks the link `INVALID`. Either way the run then stops.
pub proof fn validation_failure_restores_or_invalidates(
    crawl_id: i32,
    crawl: CrawlRecord,
    link: LinkRecord,
    key_setting: Option<Seq<char>>,
)
    requires
        crawl.params.old_credential_id matches Some(old) ==> i32::MIN <= old <= i32::MAX,
    ensures
        ({
            let run = CrawlRun {
                crawl_id,
                phase: CrawlPhase::RecordingResult {
                    crawl,
                    link,
                    kind: CrawlKind::ValidateCredentials,
                    success: false,
                },
            };
            let (next, action) = crawl_step_spec(run, CrawlEvent::Recorded(Ok(())), key_setting);
            &&& match crawl.params.old_credential_id {
                Some(old) => action == CrawlActionView::RestoreLinkCredential {
                    link_id: link.id,
                    credential_id: old as i32,
                    status: "VALID"@,
                },
                None => action == CrawlActionView::SetLinkStatus { link_id: link.id, status: "INVALID"@ },
            }
            &&& crawl_step_spec(next, CrawlEvent::LinkUpdated(Ok(())), key_setting).1 == CrawlActionView::Stop
        }),
{
}

/// The crawler runs the crawl that was stored: once the credential is read
/// and its password decrypts, the crawler request has the kind that the
/// crawl's stored type names (`VALIDATE_CREDENTIALS`, `DOWNLOAD_INVOICES`,
/// `DOWNLOAD_ISSUED_INVOICES`, `DOWNLOAD_RECEIVED_INVOICES` in turn), logs in
/// with the e.firma for a `FIEL` credential and with the password otherwise,
/// as the credential's taxpayer with the decrypted password and the
/// credential's files, headless and without sandbox; a validation carries no
/// dates, a download carries the stored start date (01/01/2026 when none)
/// and the stored end date.
pub proof fn crawler_runs_the_stored_crawl(
    crawl_id: i32,
    crawl: CrawlRecord,
    link: LinkRecord,
    cred: CredentialRecord,
    key_setting: Option<Seq<char>>,
)
    requires
        spec_decrypt(key_setting, cred.password@) is Ok,
        kind_named(crawl.crawl_type@) is Some,
    ensures
        ({
            let run = CrawlRun { crawl_id, phase: CrawlPhase::LoadingCredential { crawl, link } };
            let (next, action) = crawl_step_spec(run, CrawlEvent::CredentialLoaded(Ok(Some(cred))), key_setting);
            let k = kind_named(crawl.crawl_type@)->0;
            &&& action matches CrawlActionView::RunCrawler(r)
            &&& next.phase == (CrawlPhase::Crawling { crawl, link, kind: k })
            &&& action->RunCrawler_0.kind == k
            &&& (crawl.crawl_type@ == "VALIDATE_CREDENTIALS"@ ==> k == CrawlKind::ValidateCredentials)
            &&& (crawl.crawl_type@ == "DOWNLOAD_INVOICES"@ ==> k == CrawlKind::DownloadInvoices)
            &&& (crawl.crawl_type@ == "DOWNLOAD_ISSUED_INVOICES"@ ==> k == CrawlKind::DownloadIssuedInvoices)
            &&& (crawl.crawl_type@ == "DOWNLOAD_RECEIVED_INVOICES"@ ==> k == CrawlKind::DownloadReceivedInvoices)
            &&& action->RunCrawler_0.login == (if cred.cred_type@ == "FIEL"@ {
                LoginKind::Fiel
            } else {
                LoginKind::Ciec
            })
            &&& action->RunCrawler_0.username == cred.taxpayer_id@
            &&& action->RunCrawler_0.password == spec_decrypt(key_setting, cred.password@)->Ok_0
            &&& action->RunCrawler_0.cer_path == opt_view(cred.cer_path)
            &&& action->RunCrawler_0.key_path == opt_view(cred.key_path)
            &&& action->RunCrawler_0.headless
            &&& !action->RunCrawler_0.sandbox
            &&& (k == CrawlKind::ValidateCredentials ==> {
                &&& action->RunCrawler_0.start_date is None
                &&& action->RunCrawler_0.end_date is None
            })
            &&& (k != CrawlKind::ValidateCredentials ==> {
                &&& action->RunCrawler_0.start_date == Some(match crawl.params.start_date {
                    Some(s) => s@,
                    None => "01/01/2026"@,
                })
                &&& action->RunCrawler_0.end_date == opt_view(crawl.params.end_date)
            })
        }),
{
    kind_names_differ();
}

/// Stored crawl types read back as the kind they were stored for, and the
/// four kinds are stored under four different names.
pub proof fn kind_names_read_back(k: CrawlKind, j: CrawlKind)
    ensures
        kind_named(kind_name(k)) == Some(k),
        kind_name(k) == kind_name(j) ==> k == j,
{
    kind_names_differ();
}

proof fn kind_names_differ()
    ensures
        "VALIDATE_CREDENTIALS"@ != "DOWNLOAD_INVOICES"@,
        "VALIDATE_CREDENTIALS"@ != "DOWNLOAD_ISSUED_INVOICES"@,
        "VALIDATE_CREDENTIALS"@ != "DOWNLOAD_RECEIVED_INVOICES"@,
        "DOWNLOAD_INVOICES"@ != "DOWNLOAD_ISSUED_INVOICES"@,
        "DOWNLOAD_INVOICES"@ != "DOWNLOAD_RECEIVED_INVOICES"@,
        "DOWNLOAD_ISSUED_INVOICES"@ != "DOWNLOAD_RECEIVED_INVOICES"@,
{
    reveal_strlit("VALIDATE_CREDENTIALS");
    reveal_strlit("DOWNLOAD_INVOICES");
    reveal_strlit("DOWNLOAD_ISSUED_INVOICES");
    reveal_strlit("DOWNLOAD_RECEIVED_INVOICES");
    assert("VALIDATE_CREDENTIALS"@.len() == 20);
    assert("DOWNLOAD_INVOICES"@.len() == 17);
    assert("DOWNLOAD_ISSUED_INVOICES"@.len() == 24);
    assert("DOWNLOAD_RECEIVED_INVOICES"@.len() == 26);
}

} // verus!
