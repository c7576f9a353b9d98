use sat_api::crawl::CrawlKind;
use sat_api::reactor::{credential_setup, setup_step, SetupAction, SetupEvent, SetupPhase, ValidLink};

#[test]
fn new_credential_replaces_valid_link() {
    let s = credential_setup(9, 12, "AAA010101AAA".to_string());
    let (s, a) = setup_step(s, SetupEvent::Begin);
    match a {
        SetupAction::FindValidLink { user_id, taxpayer_id } => {
            assert_eq!(user_id, 9);
            assert_eq!(taxpayer_id, "AAA010101AAA");
        }
        other => panic!("unexpected {other:?}"),
    }
    let (s, a) = setup_step(s, SetupEvent::LinkFound(Ok(Some(ValidLink { link_id: 5, credential_id: 4 }))));
    match a {
        SetupAction::SwitchLinkCredential { link_id, credential_id, status } => {
            assert_eq!((link_id, credential_id), (5, 12));
            assert_eq!(status, "INVALID");
        }
        other => panic!("unexpected {other:?}"),
    }
    let (s, a) = setup_step(s, SetupEvent::LinkSwitched(Ok(())));
    match a {
        SetupAction::CreateCrawl { user_id, link_id, kind, params } => {
            assert_eq!((user_id, link_id), (9, 5));
            assert_eq!(kind, CrawlKind::ValidateCredentials);
            assert_eq!(params.old_credential_id, Some(4));
            assert_eq!(params.start_date, None);
            assert_eq!(params.end_date, None);
        }
        other => panic!("unexpected {other:?}"),
    }
    let (s, a) = setup_step(s, SetupEvent::CrawlCreated(Ok(77)));
    assert!(matches!(a, SetupAction::SpawnCrawl { crawl_id: 77 }));
    assert_eq!(s.phase, SetupPhase::Done);
}

#[test]
fn new_credential_without_link_creates_one() {
    let s = credential_setup(9, 12, "AAA010101AAA".to_string());
    let (s, _) = setup_step(s, SetupEvent::Begin);
    let (s, a) = setup_step(s, SetupEvent::LinkFound(Ok(None)));
    match a {
        SetupAction::CreateLink { user_id, credential_id, taxpayer_id } => {
            assert_eq!((user_id, credential_id), (9, 12));
            assert_eq!(taxpayer_id, "AAA010101AAA");
        }
        other => panic!("unexpected {other:?}"),
    }
    let (s, a) = setup_step(s, SetupEvent::LinkCreated(Ok(6)));
    match a {
        SetupAction::CreateCrawl { link_id, kind, params, .. } => {
            assert_eq!(link_id, 6);
            assert_eq!(kind, CrawlKind::ValidateCredentials);
            assert_eq!(params.old_credential_id, None);
        }
        other => panic!("unexpected {other:?}"),
    }
    let (_, a) = setup_step(s, SetupEvent::CrawlCreated(Ok(78)));
    assert!(matches!(a, SetupAction::SpawnCrawl { crawl_id: 78 }));
}

#[test]
fn setup_stops_on_errors() {
    let s = credential_setup(9, 12, "X".to_string());
    let (s, _) = setup_step(s, SetupEvent::Begin);
    let (s, a) = setup_step(s, SetupEvent::LinkFound(Err("db down".to_string())));
    assert!(matches!(a, SetupAction::Stop));
    assert_eq!(s.phase, SetupPhase::Done);

    let s = credential_setup(9, 12, "X".to_string());
    let (s, _) = setup_step(s, SetupEvent::Begin);
    let (s, _) = setup_step(s, SetupEvent::LinkFound(Ok(None)));
    let (_, a) = setup_step(s, SetupEvent::LinkCreated(Err("unique".to_string())));
    assert!(matches!(a, SetupAction::Stop));

    let s = credential_setup(9, 12, "X".to_string());
    let (s, _) = setup_step(s, SetupEvent::Begin);
    let (s, _) = setup_step(s, SetupEvent::LinkFound(Ok(None)));
    let (s, _) = setup_step(s, SetupEvent::LinkCreated(Ok(1)));
    let (_, a) = setup_step(s, SetupEvent::CrawlCreated(Err("enum".to_string())));
    assert!(matches!(a, SetupAction::Stop));
}
