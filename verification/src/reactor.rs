//! What follows the creation of a credential: the taxpayer's link is set
//! up (a link already valid for that taxpayer is switched to the new
//! credential, pending validation; otherwise a new link is made) and a
//! validation crawl is created for it and started.

use vstd::prelude::*;

use crate::crawl::{
    CrawlKind, CrawlParams, CrawlActionView, CrawlEvent, CrawlPhase, CrawlRecord, CrawlRun,
    LinkRecord, crawl_step_spec,
};
use crate::text::string_of;

verus! {

/// A link of the user for the taxpayer that is currently valid.
#[derive(Debug, Clone, Copy, PartialEq, Eq)]
pub struct ValidLink {
    pub link_id: i32,
    pub credential_id: i32,
}

/// Where the setup after a new credential stands.
#[derive(Debug, Clone, Copy, PartialEq, Eq)]
pub enum SetupPhase {
    Start,
    FindingLink,
    SwitchingLink { link_id: i32, old_credential_id: i32 },
    CreatingLink,
    CreatingCrawl { link_id: i32, old_credential_id: Option<i32> },
    Done,
}

/// The setup after a new credential.
#[derive(Debug, Clone)]
pub struct CredentialSetup {
    pub user_id: i32,
    pub credential_id: i32,
    pub taxpayer_id: String,
    pub phase: SetupPhase,
}

/// What happened since the last step of the setup.
#[derive(Debug)]
pub enum SetupEvent {
    Begin,
    /// The valid link for the user and taxpayer was looked up.
    LinkFound(Result<Option<ValidLink>, String>),
    /// The found link was switched to the new credential.
    LinkSwitched(Result<(), String>),
    /// A new link was created, with its id.
    LinkCreated(Result<i32, String>),
    /// The validation crawl was created, with its id.
    CrawlCreated(Result<i32, String>),
}

/// The next thing the setup asks to be done.
#[derive(Debug)]
pub enum SetupAction {
    /// Look up the user's valid link for the taxpayer.
    FindValidLink { user_id: i32, taxpayer_id: String },
    /// Point a link at a credential and set its status.
    SwitchLinkCredential { link_id: i32, credential_id: i32, status: String },
    /// Create a link for the user, credential and taxpayer.
    CreateLink { user_id: i32, credential_id: i32, taxpayer_id: String },
    /// Create a crawl of the kind for the user's link with the parameters.
    CreateCrawl { user_id: i32, link_id: i32, kind: CrawlKind, params: CrawlParams },
    /// Start running the crawl.
    SpawnCrawl { crawl_id: i32 },
    /// Nothing more.
    Stop,
}

/// A setup action as values.
pub enum SetupActionView {
    FindValidLink { user_id: i32, taxpayer_id: Seq<char> },
    SwitchLinkCredential { link_id: i32, credential_id: i32, status: Seq<char> },
    CreateLink { user_id: i32, credential_id: i32, taxpayer_id: Seq<char> },
    CreateCrawl { user_id: i32, link_id: i32, kind: CrawlKind, params: CrawlParams },
    SpawnCrawl { crawl_id: i32 },
    Stop,
}

impl View for SetupAction {
    type V = SetupActionView;

    open spec fn view(&self) -> SetupActionView {
        match self {
            SetupAction::FindValidLink { user_id, taxpayer_id } => SetupActionView::FindValidLink {
                user_id: *user_id,
                taxpayer_id: taxpayer_id@,
            },
            SetupAction::SwitchLinkCredential { link_id, credential_id, status } => SetupActionView::SwitchLinkCredential {
                link_id: *link_id,
                credential_id: *credential_id,
                status: status@,
            },
            SetupAction::CreateLink { user_id, credential_id, taxpayer_id } => SetupActionView::CreateLink {
                user_id: *user_id,
                credential_id: *credential_id,
                taxpayer_id: taxpayer_id@,
            },
            SetupAction::CreateCrawl { user_id, link_id, kind, params } => SetupActionView::CreateCrawl {
                user_id: *user_id,
                link_id: *link_id,
                kind: *kind,
                params: *params,
            },
            SetupAction::SpawnCrawl { crawl_id } => SetupActionView::SpawnCrawl { crawl_id: *crawl_id },
            SetupAction::Stop => SetupActionView::Stop,
        }
    }
}

/// The parameters of the validation crawl: the credential the link used
/// before, when it was switched.
pub open spec fn validation_params(old_credential_id: Option<i32>) -> CrawlParams {
    CrawlParams {
        start_date: None,
        end_date: None,
        old_credential_id: match old_credential_id {
            Some(c) => Some(c as i64),
            None => None,
        },
    }
}

/// The setup in the given phase.
pub open spec fn in_phase(s: CredentialSetup, phase: SetupPhase) -> CredentialSetup {
    CredentialSetup { phase, ..s }
}

/// One step of the setup after a new credential. A failed operation, or an
/// event that does not belong to the phase, ends the setup.
pub open spec fn setup_step_spec(s: CredentialSetup, event: SetupEvent) -> (CredentialSetup, SetupActionView) {
    let done = (in_phase(s, SetupPhase::Done), SetupActionView::Stop);
    match (s.phase, event) {
        (SetupPhase::Start, SetupEvent::Begin) => (
            in_phase(s, SetupPhase::FindingLink),
            SetupActionView::FindValidLink { user_id: s.user_id, taxpayer_id: s.taxpayer_id@ },
        ),
        (SetupPhase::FindingLink, SetupEvent::LinkFound(r)) => match r {
            Err(_) => done,
            Ok(Some(link)) => (
                in_phase(s, SetupPhase::SwitchingLink { link_id: link.link_id, old_credential_id: link.credential_id }),
                SetupActionView::SwitchLinkCredential {
                    link_id: link.link_id,
                    credential_id: s.credential_id,
                    status: "INVALID"@,
                },
            ),
            Ok(None) => (
                in_phase(s, SetupPhase::CreatingLink),
                SetupActionView::CreateLink {
                    user_id: s.user_id,
                    credential_id: s.credential_id,
                    taxpayer_id: s.taxpayer_id@,
                },
            ),
        },
        (SetupPhase::SwitchingLink { link_id, old_credential_id }, SetupEvent::LinkSwitched(r)) => match r {
            Err(_) => done,
            Ok(_) => (
                in_phase(s, SetupPhase::CreatingCrawl { link_id, old_credential_id: Some(old_credential_id) }),
                SetupActionView::CreateCrawl {
                    user_id: s.user_id,
                    link_id,
                    kind: CrawlKind::ValidateCredentials,
                    params: validation_params(Some(old_credential_id)),
                },
            ),
        },
        (SetupPhase::CreatingLink, SetupEvent::LinkCreated(r)) => match r {
            Err(_) => done,
            Ok(link_id) => (
                in_phase(s, SetupPhase::CreatingCrawl { link_id, old_credential_id: None }),
                SetupActionView::CreateCrawl {
                    user_id: s.user_id,
                    link_id,
                    kind: CrawlKind::ValidateCredentials,
                    params: validation_params(None),
                },
            ),
        },
        (SetupPhase::CreatingCrawl { .. }, SetupEvent::CrawlCreated(r)) => match r {
            Err(_) => done,
            Ok(crawl_id) => (in_phase(s, SetupPhase::Done), SetupActionView::SpawnCrawl { crawl_id }),
        },
        _ => done,
    }
}

/// The setup for a credential of a user for a taxpayer, before its first
/// step.
pub fn credential_setup(user_id: i32, credential_id: i32, taxpayer_id: String) -> (res: CredentialSetup)
    ensures
        res.user_id == user_id,
        res.credential_id == credential_id,
        res.taxpayer_id == taxpayer_id,
        res.phase == SetupPhase::Start,
{
    CredentialSetup { user_id, credential_id, taxpayer_id, phase: SetupPhase::Start }
}

fn params_for(old_credential_id: Option<i32>) -> (res: CrawlParams)
    ensures
        res == validation_params(old_credential_id),
{
    CrawlParams {
        start_date: None,
        end_date: None,
        old_credential_id: match old_credential_id {
            Some(c) => Some(c as i64),
            None => None,
        },
    }
}

/// One step of the setup after a new credential (see `setup_step_spec`).
pub fn setup_step(s: CredentialSetup, event: SetupEvent) -> (res: (CredentialSetup, SetupAction))
    ensures
        (res.0, res.1@) == setup_step_spec(s, event),
{
    let user_id = s.user_id;
    let credential_id = s.credential_id;
    let taxpayer_id = s.taxpayer_id;
    let ghost s0 = s;
    let done = |t: String| -> (r: (CredentialSetup, SetupAction))
        ensures
            r.0 == in_phase(CredentialSetup { taxpayer_id: t, ..s0 }, SetupPhase::Done),
            r.1@ == SetupActionView::Stop,
        { (CredentialSetup { user_id, credential_id, taxpayer_id: t, phase: SetupPhase::Done }, SetupAction::Stop) };
    match (s.phase, event) {
        (SetupPhase::Start, SetupEvent::Begin) => {
            let t = taxpayer_id.clone();
            (
                CredentialSetup { user_id, credential_id, taxpayer_id, phase: SetupPhase::FindingLink },
                SetupAction::FindValidLink { user_id, taxpayer_id: t },
            )
        },
        (SetupPhase::FindingLink, SetupEvent::LinkFound(r)) => match r {
            Err(_) => done(taxpayer_id),
            Ok(Some(link)) => (
                CredentialSetup {
                    user_id,
                    credential_id,
                    taxpayer_id,
                    phase: SetupPhase::SwitchingLink { link_id: link.link_id, old_credential_id: link.credential_id },
                },
                SetupAction::SwitchLinkCredential {
                    link_id: link.link_id,
                    credential_id,
                    status: string_of("INVALID"),
                },
            ),
            Ok(None) => {
                let t = taxpayer_id.clone();
                (
                    CredentialSetup { user_id, credential_id, taxpayer_id, phase: SetupPhase::CreatingLink },
                    SetupAction::CreateLink { user_id, credential_id, taxpayer_id: t },
                )
            },
        },
        (SetupPhase::SwitchingLink { link_id, old_credential_id }, SetupEvent::LinkSwitched(r)) => match r {
            Err(_) => done(taxpayer_id),
            Ok(_) => (
                CredentialSetup {
                    user_id,
                    credential_id,
                    taxpayer_id,
                    phase: SetupPhase::CreatingCrawl { link_id, old_credential_id: Some(old_credential_id) },
                },
                SetupAction::CreateCrawl {
                    user_id,
                    link_id,
                    kind: CrawlKind::ValidateCredentials,
                    params: params_for(Some(old_credential_id)),
                },
            ),
        },
        (SetupPhase::CreatingLink, SetupEvent::LinkCreated(r)) => match r {
            Err(_) => done(taxpayer_id),
            Ok(link_id) => (
                CredentialSetup {
                    user_id,
                    credential_id,
                    taxpayer_id,
                    phase: SetupPhase::CreatingCrawl { link_id, old_credential_id: None },
                },
                SetupAction::CreateCrawl {
                    user_id,
                    link_id,
                    kind: CrawlKind::ValidateCredentials,
                    params: params_for(None),
                },
            ),
        },
        (SetupPhase::CreatingCrawl { .. }, SetupEvent::CrawlCreated(r)) => match r {
            Err(_) => done(taxpayer_id),
            Ok(crawl_id) => (
                CredentialSetup { user_id, credential_id, taxpayer_id, phase: SetupPhase::Done },
                SetupAction::SpawnCrawl { crawl_id },
            ),
        },
        _ => done(taxpayer_id),
    }
}


/// A new credential replaces the one of a valid link: the link is switched
/// to the new credential and marked `INVALID` until validated, and a
/// validation crawl is created for it, remembering the replaced credential,
/// and started.
pub proof fn new_credential_takes_over_valid_link(
    s: CredentialSetup,
    link: ValidLink,
    crawl_id: i32,
)
    requires
        s.phase == SetupPhase::Start,
    ensures
        ({
            let (s1, a1) = setup_step_spec(s, SetupEvent::Begin);
            let (s2, a2) = setup_step_spec(s1, SetupEvent::LinkFound(Ok(Some(link))));
            let (s3, a3) = setup_step_spec(s2, SetupEvent::LinkSwitched(Ok(())));
            let (s4, a4) = setup_step_spec(s3, SetupEvent::CrawlCreated(Ok(crawl_id)));
            &&& a1 == SetupActionView::FindValidLink { user_id: s.user_id, taxpayer_id: s.taxpayer_id@ }
            &&& a2 == SetupActionView::SwitchLinkCredential {
                link_id: link.link_id,
                credential_id: s.credential_id,
                status: "INVALID"@,
            }
            &&& a3 == SetupActionView::CreateCrawl {
                user_id: s.user_id,
                link_id: link.link_id,
                kind: CrawlKind::ValidateCredentials,
                params: validation_params(Some(link.credential_id)),
            }
            &&& a4 == SetupActionView::SpawnCrawl { crawl_id }
            &&& s4.phase == SetupPhase::Done
        }),
{
}

/// A new credential without a valid link gets a new link, and a validation
/// crawl is created for that link, with no replaced credential, and started.
pub proof fn new_credential_gets_new_link(s: CredentialSetup, link_id: i32, crawl_id: i32)
    requires
        s.phase == SetupPhase::Start,
    ensures
        ({
            let (s1, a1) = setup_step_spec(s, SetupEvent::Begin);
            let (s2, a2) = setup_step_spec(s1, SetupEvent::LinkFound(Ok(None)));
            let (s3, a3) = setup_step_spec(s2, SetupEvent::LinkCreated(Ok(link_id)));
            let (s4, a4) = setup_step_spec(s3, SetupEvent::CrawlCreated(Ok(crawl_id)));
            &&& a1 == SetupActionView::FindValidLink { user_id: s.user_id, taxpayer_id: s.taxpayer_id@ }
            &&& a2 == SetupActionView::CreateLink {
                user_id: s.user_id,
                credential_id: s.credential_id,
                taxpayer_id: s.taxpayer_id@,
            }
            &&& a3 == SetupActionView::CreateCrawl {
                user_id: s.user_id,
                link_id,
                kind: CrawlKind::ValidateCredentials,
                params: validation_params(None),
            }
            &&& a4 == SetupActionView::SpawnCrawl { crawl_id }
            &&& s4.phase == SetupPhase::Done
        }),
{
}

/// A replacement credential that fails validation does not lose the link:
/// the validation crawl created when the link was switched, run against
/// that link, puts the link back on the replaced credential, marked
/// `VALID`.
pub proof fn failed_replacement_restores_old_credential(
    s: CredentialSetup,
    old_credential_id: i32,
    crawl_id: i32,
    crawl: CrawlRecord,
    link: LinkRecord,
    key_setting: Option<Seq<char>>,
)
    requires
        s.phase == (SetupPhase::SwitchingLink { link_id: link.id, old_credential_id }),
        crawl.params == validation_params(Some(old_credential_id)),
    ensures
        setup_step_spec(s, SetupEvent::LinkSwitched(Ok(()))).1 == (SetupActionView::CreateCrawl {
            user_id: s.user_id,
            link_id: link.id,
            kind: CrawlKind::ValidateCredentials,
            params: crawl.params,
        }),
        crawl_step_spec(
            (CrawlRun {
                crawl_id,
                phase: CrawlPhase::RecordingResult {
                    crawl,
                    link,
                    kind: CrawlKind::ValidateCredentials,
                    success: false,
                },
            }),
            CrawlEvent::Recorded(Ok(())),
            key_setting,
        ).1 == (CrawlActionView::RestoreLinkCredential {
            link_id: link.id,
            credential_id: old_credential_id,
            status: "VALID"@,
        }),
{
}

} // verus!
