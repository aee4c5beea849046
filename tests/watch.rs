use lune_std_fs::{
    category_of, ConfigError, RecordField, EventCategory, EventPath, HandlerSet, PathFilter, PathKind,
    RawEvent, RawEventKind, SessionAction, SessionInput, SessionState, WatchError, WatchOptions,
    WatchSession,
};

fn field<T>(value: Option<T>) -> RecordField<T> {
    match value {
        Some(v) => RecordField::Present(v),
        None => RecordField::Absent,
    }
}

fn record(
    pattern: Option<String>,
    recursive: Option<bool>,
    watch_files: Option<bool>,
    watch_directories: Option<bool>,
    interval: Option<u64>,
) -> Result<WatchOptions, WatchError> {
    WatchOptions::from_record(
        field(pattern),
        field(recursive),
        field(watch_files),
        field(watch_directories),
        field(interval),
    )
}

fn file(path: &str) -> EventPath {
    EventPath { path: path.to_string(), kind: PathKind::File }
}

fn dir(path: &str) -> EventPath {
    EventPath { path: path.to_string(), kind: PathKind::Directory }
}

fn gone(path: &str) -> EventPath {
    EventPath { path: path.to_string(), kind: PathKind::Unavailable }
}

fn no_handlers() -> HandlerSet {
    HandlerSet { added: false, removed: false, changed: false, read: false }
}

fn all_handlers() -> HandlerSet {
    HandlerSet { added: true, removed: true, changed: true, read: true }
}

fn running(options: &WatchOptions, handlers: HandlerSet) -> WatchSession {
    let mut session = WatchSession::new(options, handlers).expect("valid pattern");
    assert!(matches!(session.step(SessionInput::Registered), SessionAction::Continue));
    assert_eq!(session.state(), SessionState::Running);
    session
}

fn event(kind: RawEventKind, paths: Vec<EventPath>) -> SessionInput {
    SessionInput::Event(RawEvent { kind, paths })
}

fn dispatched(action: &SessionAction) -> Option<(EventCategory, Vec<String>)> {
    match action {
        SessionAction::Dispatch(c, paths) => Some((*c, paths.clone())),
        _ => None,
    }
}

#[test]
fn no_handlers_means_no_invocation() {
    let options = WatchOptions::from_pattern("*".to_string());
    let mut session = running(&options, no_handlers());
    let action = session.step(event(RawEventKind::Created, vec![file("/tmp/w/a.txt")]));
    assert!(matches!(action, SessionAction::Continue));
    assert_eq!(session.state(), SessionState::Running);
}

#[test]
fn changed_handler_sees_only_matching_files() {
    let options = record(
        Some("*.txt".to_string()),
        None,
        Some(true),
        Some(false),
        None,
    )
    .unwrap();
    let handlers = HandlerSet { added: false, removed: false, changed: true, read: false };
    let mut session = running(&options, handlers);

    let action = session.step(event(RawEventKind::Modified, vec![file("b.txt")]));
    assert_eq!(dispatched(&action), Some((EventCategory::Changed, vec!["b.txt".to_string()])));

    let action = session.step(event(RawEventKind::Modified, vec![file("b.bin")]));
    assert!(matches!(action, SessionAction::Continue));
    assert_eq!(session.state(), SessionState::Running);
}

#[test]
fn missing_root_fails_registration() {
    let options = WatchOptions::from_pattern("*".to_string());
    let mut session = WatchSession::new(&options, no_handlers()).unwrap();
    assert_eq!(session.state(), SessionState::Created);
    let action = session.step(SessionInput::RegistrationFailed);
    assert!(matches!(action, SessionAction::Fail(WatchError::Registration)));
    assert_eq!(session.state(), SessionState::Errored);
    assert!(session.is_finished());
    // no event is processed after the failure
    let action = session.step(event(RawEventKind::Created, vec![file("/does/not/exist/a")]));
    assert!(matches!(action, SessionAction::Continue));
    assert_eq!(session.state(), SessionState::Errored);
}

#[test]
fn burst_of_creations_is_dispatched_in_order() {
    let options = WatchOptions::from_pattern("*".to_string());
    let mut session = running(&options, all_handlers());
    let mut seen: Vec<String> = Vec::new();
    for name in ["/w/one", "/w/two", "/w/three"] {
        let action = session.step(event(RawEventKind::Created, vec![file(name)]));
        let (category, paths) = dispatched(&action).expect("dispatch");
        assert_eq!(category, EventCategory::Added);
        seen.extend(paths);
    }
    assert_eq!(seen, vec!["/w/one".to_string(), "/w/two".to_string(), "/w/three".to_string()]);
}

#[test]
fn kinds_map_to_fixed_categories() {
    assert_eq!(category_of(RawEventKind::Created), Some(EventCategory::Added));
    assert_eq!(category_of(RawEventKind::Removed), Some(EventCategory::Removed));
    assert_eq!(category_of(RawEventKind::Modified), Some(EventCategory::Changed));
    assert_eq!(category_of(RawEventKind::AccessRead), Some(EventCategory::Read));
    assert_eq!(category_of(RawEventKind::Other), None);
}

#[test]
fn each_kind_reaches_its_handler() {
    let options = WatchOptions::from_pattern("*".to_string());
    let mut session = running(&options, all_handlers());
    let cases = [
        (RawEventKind::Created, EventCategory::Added),
        (RawEventKind::Removed, EventCategory::Removed),
        (RawEventKind::Modified, EventCategory::Changed),
        (RawEventKind::AccessRead, EventCategory::Read),
    ];
    for (kind, category) in cases {
        let action = session.step(event(kind, vec![file("/w/x")]));
        assert_eq!(dispatched(&action), Some((category, vec!["/w/x".to_string()])));
    }
}

#[test]
fn unmapped_kind_calls_nothing() {
    let options = WatchOptions::from_pattern("*".to_string());
    let mut session = running(&options, all_handlers());
    let action = session.step(event(RawEventKind::Other, vec![file("/w/x"), dir("/w/d")]));
    assert!(matches!(action, SessionAction::Continue));
    assert_eq!(session.state(), SessionState::Running);
}

#[test]
fn empty_filtered_list_calls_nothing() {
    let options = record(
        Some("*.txt".to_string()),
        None,
        Some(false),
        Some(true),
        None,
    )
    .unwrap();
    let mut session = running(&options, all_handlers());
    let action = session.step(event(
        RawEventKind::Created,
        vec![file("/w/a.txt"), dir("/w/sub"), gone("/w/b.txt")],
    ));
    assert!(matches!(action, SessionAction::Continue));
    let action = session.step(event(RawEventKind::Created, vec![]));
    assert!(matches!(action, SessionAction::Continue));
    assert_eq!(session.state(), SessionState::Running);
}

#[test]
fn filter_keeps_order_and_drops_unavailable_paths() {
    let options = WatchOptions::from_pattern("*.txt".to_string());
    let filter = PathFilter::new(&options).unwrap();
    let paths = vec![
        file("/w/c.txt"),
        file("/w/a.bin"),
        dir("/w/d.txt"),
        gone("/w/e.txt"),
        file("/w/b.txt"),
    ];
    assert_eq!(
        filter.filter_paths(&paths),
        vec!["/w/c.txt".to_string(), "/w/d.txt".to_string(), "/w/b.txt".to_string()]
    );
}

#[test]
fn glob_pattern_is_matched_not_compared() {
    let options = WatchOptions::from_pattern("**/sub/*.rs".to_string());
    let filter = PathFilter::new(&options).unwrap();
    assert!(filter.keeps_path(&file("/root/proj/sub/main.rs")));
    assert!(!filter.keeps_path(&file("**/sub/*.rs.bak")));
    assert!(!filter.keeps_path(&file("/root/proj/other/main.rs")));
}

#[test]
fn type_filter_selects_files_or_directories() {
    let files_only =
        record(Some("*".to_string()), None, Some(true), Some(false), None)
            .unwrap();
    let filter = PathFilter::new(&files_only).unwrap();
    assert!(filter.keeps_path(&file("/w/a")));
    assert!(!filter.keeps_path(&dir("/w/a")));
    assert!(!filter.keeps_path(&gone("/w/a")));

    let dirs_only =
        record(Some("*".to_string()), None, Some(false), Some(true), None)
            .unwrap();
    let filter = PathFilter::new(&dirs_only).unwrap();
    assert!(!filter.keeps_path(&file("/w/a")));
    assert!(filter.keeps_path(&dir("/w/a")));
}

#[test]
fn invalid_pattern_is_a_config_error() {
    let options = WatchOptions::from_pattern("a[".to_string());
    assert!(matches!(
        WatchSession::new(&options, all_handlers()),
        Err(WatchError::Config(ConfigError::InvalidPattern))
    ));
    assert!(matches!(
        PathFilter::new(&options),
        Err(WatchError::Config(ConfigError::InvalidPattern))
    ));
}

#[test]
fn record_without_pattern_is_a_config_error() {
    let r = record(None, Some(true), None, None, Some(5));
    assert!(matches!(r, Err(WatchError::Config(ConfigError::MissingPattern))));
}

#[test]
fn option_defaults() {
    let o = WatchOptions::from_pattern("*.lua".to_string());
    assert_eq!(o.pattern, "*.lua");
    assert!(!o.recursive);
    assert!(o.watch_files);
    assert!(o.watch_directories);
    assert_eq!(o.interval, Some(30));
    assert_eq!(o.poll_interval_secs(), 30);

    let o = record(Some("x".to_string()), None, None, None, None).unwrap();
    assert!(!o.recursive && o.watch_files && o.watch_directories);
    assert_eq!(o.poll_interval_secs(), 30);

    let o = record(Some("x".to_string()), Some(true), Some(false), None, Some(2))
        .unwrap();
    assert!(o.recursive && !o.watch_files && o.watch_directories);
    assert_eq!(o.poll_interval_secs(), 2);

    let d = WatchOptions::default();
    assert_eq!(d.pattern, "");
    assert!(!d.recursive && d.watch_files && d.watch_directories);
    assert_eq!(d.interval, Some(30));
}

#[test]
fn recursive_option_reaches_the_session() {
    let o = record(Some("*".to_string()), Some(true), None, None, None).unwrap();
    assert!(WatchSession::new(&o, no_handlers()).unwrap().recursive());
    let o = WatchOptions::from_pattern("*".to_string());
    assert!(!WatchSession::new(&o, no_handlers()).unwrap().recursive());
}

#[test]
fn channel_close_completes_and_notifier_failure_errors() {
    let options = WatchOptions::from_pattern("*".to_string());
    let mut session = running(&options, all_handlers());
    assert!(matches!(session.step(SessionInput::ChannelClosed), SessionAction::Complete));
    assert_eq!(session.state(), SessionState::Closed);
    assert!(session.is_finished());

    let mut session = running(&options, all_handlers());
    assert!(matches!(
        session.step(SessionInput::NotifierFailed),
        SessionAction::Fail(WatchError::Notifier)
    ));
    assert_eq!(session.state(), SessionState::Errored);
    assert!(session.is_finished());
}

#[test]
fn events_before_registration_are_ignored() {
    let options = WatchOptions::from_pattern("*".to_string());
    let mut session = WatchSession::new(&options, all_handlers()).unwrap();
    let action = session.step(event(RawEventKind::Created, vec![file("/w/a")]));
    assert!(matches!(action, SessionAction::Continue));
    assert_eq!(session.state(), SessionState::Created);
    assert!(!session.is_finished());
}

#[test]
fn record_with_only_a_pattern_takes_defaults() {
    let o = record(Some("*".to_string()), None, None, None, None).unwrap();
    assert_eq!(o.pattern, "*");
    assert!(!o.recursive);
    assert!(o.watch_files);
    assert!(o.watch_directories);
    assert_eq!(o.interval, Some(30));
}

#[test]
fn full_record_keeps_its_values() {
    let o = record(Some("src/**".to_string()), Some(true), Some(false), Some(true), Some(5))
        .unwrap();
    assert_eq!(o.pattern, "src/**");
    assert!(o.recursive);
    assert!(!o.watch_files);
    assert!(o.watch_directories);
    assert_eq!(o.interval, Some(5));
}

#[test]
fn malformed_record_field_is_a_config_error() {
    let r = WatchOptions::from_record(
        RecordField::Present("*".to_string()),
        RecordField::Malformed,
        RecordField::Absent,
        RecordField::Absent,
        RecordField::Absent,
    );
    assert!(matches!(r, Err(WatchError::Config(ConfigError::MalformedOptions))));
    let r = WatchOptions::from_record(
        RecordField::Absent,
        RecordField::Absent,
        RecordField::Absent,
        RecordField::Absent,
        RecordField::Malformed,
    );
    assert!(matches!(r, Err(WatchError::Config(ConfigError::MalformedOptions))));
    let r = WatchOptions::from_record(
        RecordField::Malformed,
        RecordField::Present(true),
        RecordField::Absent,
        RecordField::Absent,
        RecordField::Absent,
    );
    assert!(matches!(r, Err(WatchError::Config(ConfigError::MalformedOptions))));
}

#[test]
fn pattern_too_deep_to_compile_is_a_config_error() {
    let text = format!("{}a{}", "{".repeat(251), "}".repeat(251));
    let options = WatchOptions::from_pattern(text);
    assert!(matches!(
        WatchSession::new(&options, all_handlers()),
        Err(WatchError::Config(ConfigError::InvalidPattern))
    ));
}
