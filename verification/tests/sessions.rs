use aj_rs::error::AjError;
use aj_rs::resolve::NameCache;
use aj_rs::session::OpenGuard;
use aj_rs::session::ProviderConfig;

#[test]
fn open_requires_both_setup_steps() {
    let mut guard = OpenGuard::new();
    assert!(matches!(
        guard.try_open(false, true),
        Err(AjError::InitializationError)
    ));
    assert!(matches!(
        guard.try_open(true, false),
        Err(AjError::InitializationError)
    ));
    assert!(guard.try_open(true, true).is_ok());
}

#[test]
fn second_open_is_rejected_while_live() {
    let mut guard = OpenGuard::new();
    let first = guard.try_open(true, true);
    assert!(first.is_ok());
    assert!(matches!(
        guard.try_open(true, true),
        Err(AjError::InitializationError)
    ));
    guard.note_closed();
    assert!(guard.try_open(true, true).is_ok());
}

#[test]
fn close_is_idempotent() {
    let mut guard = OpenGuard::new();
    let mut session = guard.try_open(true, true).unwrap();
    session.close();
    session.close();
    guard.note_closed();
    guard.note_closed();
}

#[test]
fn unknown_method_resolution_reports_error() {
    let mut guard = OpenGuard::new();
    let mut session = guard.try_open(true, true).unwrap();
    assert_eq!(session.resolve_hint("NoSuchMethod"), None);
    let r = session.note_resolution("NoSuchMethod", None);
    assert_eq!(r, Err(AjError::UnknownMethodError));
    // a failed resolution is not cached, so it is retried on next use
    assert_eq!(session.resolve_hint("NoSuchMethod"), None);
}

#[test]
fn successful_resolution_is_cached() {
    let mut guard = OpenGuard::new();
    let mut session = guard.try_open(true, true).unwrap();
    assert_eq!(session.resolve_hint("VerS"), None);
    assert_eq!(session.note_resolution("VerS", Some(12)), Ok(12));
    assert_eq!(session.resolve_hint("VerS"), Some(12));
    assert_eq!(session.resolve_hint("SetPath"), None);
}

#[test]
fn first_recorded_identifier_wins() {
    let mut cache = NameCache::new();
    assert_eq!(cache.lookup("M"), None);
    cache.record("M", 4);
    cache.record("M", 9);
    assert_eq!(cache.lookup("M"), Some(4));
    cache.record("N", 9);
    assert_eq!(cache.lookup("N"), Some(9));
    assert_eq!(cache.lookup("M"), Some(4));
}

#[test]
fn provider_paths_first_call_wins() {
    let mut config = ProviderConfig::new();
    assert!(config.propose("loader.dll", "provider.dll"));
    assert!(!config.propose("other.dll", "elsewhere.dll"));
    assert!(!config.propose("loader.dll", "provider.dll"));
}
