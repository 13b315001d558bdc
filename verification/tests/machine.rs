use ftp_transfer::errors::FatalError;
use ftp_transfer::pattern::Matcher;
use ftp_transfer::pipeline::Action;
use ftp_transfer::pipeline::Config;
use ftp_transfer::pipeline::Event;
use ftp_transfer::pipeline::Pipeline;
use ftp_transfer::time_window::TimeWindow;
use ftp_transfer::time_window::Timestamp;

fn ts(seconds: i64) -> Timestamp {
    Timestamp { seconds }
}

fn start(pattern: &str, start: i64, end: i64) -> (Pipeline, Action) {
    let config = Config {
        source_path: "/src".to_string(),
        target_path: "/dst".to_string(),
        window: TimeWindow { start: ts(start), end: ts(end) },
    };
    let matcher = Matcher::new(pattern).unwrap();
    Pipeline::new(config, matcher)
}

fn listing(v: &[&str]) -> Event {
    Event::Listed(v.iter().map(|s| s.to_string()).collect())
}

fn reported_names(a: &Action) -> Vec<String> {
    match a {
        Action::Report(l) => l.clone(),
        _ => panic!("expected a report action"),
    }
}

#[test]
fn end_to_end_single_file_transfer() {
    let (p, a) = start(r"report_2024.*\.csv", 100, 200);
    assert!(matches!(a, Action::ConnectSource));

    let (p, a) = p.step(Event::SourceConnected);
    assert!(matches!(a, Action::ConnectTarget));

    let (p, a) = p.step(Event::TargetConnected);
    match &a {
        Action::List(d) => assert_eq!(d, "/src"),
        _ => panic!("expected a listing action"),
    }

    let (p, a) = p.step(listing(&[
        "/src/report_2024.csv",
        "/src/notes.txt",
        "/src/report_2023.csv",
    ]));
    assert_eq!(reported_names(&a), vec!["/src/report_2024.csv".to_string()]);

    let (p, a) = p.step(Event::Reported);
    match &a {
        Action::QueryModifiedTime(f) => assert_eq!(f, "/src/report_2024.csv"),
        _ => panic!("expected a modification-time query"),
    }

    let (p, a) = p.step(Event::ModifiedTime(Some(ts(150))));
    assert_eq!(reported_names(&a), vec!["/src/report_2024.csv".to_string()]);

    let (p, a) = p.step(Event::Reported);
    match &a {
        Action::Retrieve(f) => assert_eq!(f, "/src/report_2024.csv"),
        _ => panic!("expected a retrieval"),
    }

    let (p, a) = p.step(Event::Contents(b"payload".to_vec()));
    match &a {
        Action::ChangeDirectory(d) => assert_eq!(d, "/dst"),
        _ => panic!("expected a directory change"),
    }

    let (p, a) = p.step(Event::DirectoryChanged);
    match &a {
        Action::Store(name, bytes) => {
            assert_eq!(name, "report_2024.csv");
            assert_eq!(bytes, b"payload");
        }
        _ => panic!("expected a store"),
    }

    let (p, a) = p.step(Event::Stored);
    assert!(matches!(a, Action::CloseConnections));

    let (p, a) = p.step(Event::ConnectionsClosed);
    assert!(matches!(a, Action::Done));
    assert_eq!(p.outcome(), Some(Ok(())));
}

#[test]
fn source_login_failure_aborts_before_anything_else() {
    let (p, a) = start(".*", 0, 10);
    // The very first action is the source connection: nothing is listed and
    // the target is never opened before it stands.
    assert!(matches!(a, Action::ConnectSource));
    let (p, a) = p.step(Event::SourceConnectFailed);
    assert!(matches!(a, Action::Done));
    assert_eq!(p.outcome(), Some(Err(FatalError::SourceConnect)));
    assert_eq!(FatalError::SourceConnect.exit_code(), 2);
}

#[test]
fn target_login_failure_aborts() {
    let (p, _) = start(".*", 0, 10);
    let (p, _) = p.step(Event::SourceConnected);
    let (p, a) = p.step(Event::TargetConnectFailed);
    assert!(matches!(a, Action::Done));
    assert_eq!(p.outcome(), Some(Err(FatalError::TargetConnect)));
    assert_eq!(FatalError::TargetConnect.exit_code(), 2);
}

#[test]
fn listing_failure_aborts() {
    let (p, _) = start(".*", 0, 10);
    let (p, _) = p.step(Event::SourceConnected);
    let (p, _) = p.step(Event::TargetConnected);
    let (p, a) = p.step(Event::ListFailed);
    assert!(matches!(a, Action::Done));
    assert_eq!(p.outcome(), Some(Err(FatalError::List)));
    assert_eq!(FatalError::List.exit_code(), 3);
}

#[test]
fn retrieve_failure_aborts_mid_transfer() {
    let (p, _) = start("keep", 0, 100);
    let (p, _) = p.step(Event::SourceConnected);
    let (p, _) = p.step(Event::TargetConnected);
    let (p, _) = p.step(listing(&["keep_a", "drop_b", "keep_c"]));
    let (p, _) = p.step(Event::Reported);
    let (p, _) = p.step(Event::ModifiedTime(Some(ts(50))));
    let (p, a) = p.step(Event::ModifiedTime(Some(ts(60))));
    assert_eq!(reported_names(&a), vec!["keep_a".to_string(), "keep_c".to_string()]);
    let (p, _) = p.step(Event::Reported);
    let (p, a) = p.step(Event::RetrieveFailed);
    assert!(matches!(a, Action::Done));
    assert_eq!(p.outcome(), Some(Err(FatalError::Retrieve)));
    assert_eq!(FatalError::Retrieve.exit_code(), 4);
}

#[test]
fn directory_change_failure_aborts() {
    let (p, _) = start(".*", 0, 100);
    let (p, _) = p.step(Event::SourceConnected);
    let (p, _) = p.step(Event::TargetConnected);
    let (p, _) = p.step(listing(&["a"]));
    let (p, _) = p.step(Event::Reported);
    let (p, _) = p.step(Event::ModifiedTime(Some(ts(1))));
    let (p, _) = p.step(Event::Reported);
    let (p, _) = p.step(Event::Contents(vec![1, 2, 3]));
    let (p, a) = p.step(Event::ChangeDirectoryFailed);
    assert!(matches!(a, Action::Done));
    assert_eq!(p.outcome(), Some(Err(FatalError::ChangeDirectory)));
    assert_eq!(FatalError::ChangeDirectory.exit_code(), 4);
}

#[test]
fn store_failure_aborts() {
    let (p, _) = start(".*", 0, 100);
    let (p, _) = p.step(Event::SourceConnected);
    let (p, _) = p.step(Event::TargetConnected);
    let (p, _) = p.step(listing(&["a"]));
    let (p, _) = p.step(Event::Reported);
    let (p, _) = p.step(Event::ModifiedTime(Some(ts(1))));
    let (p, _) = p.step(Event::Reported);
    let (p, _) = p.step(Event::Contents(vec![1]));
    let (p, _) = p.step(Event::DirectoryChanged);
    let (p, a) = p.step(Event::StoreFailed);
    assert!(matches!(a, Action::Done));
    assert_eq!(p.outcome(), Some(Err(FatalError::Store)));
    assert_eq!(FatalError::Store.exit_code(), 4);
}

#[test]
fn failed_time_query_drops_only_that_entry() {
    let (p, _) = start(".*", 0, 100);
    let (p, _) = p.step(Event::SourceConnected);
    let (p, _) = p.step(Event::TargetConnected);
    let (p, _) = p.step(listing(&["a", "b"]));
    let (p, _) = p.step(Event::Reported);
    let (p, _) = p.step(Event::ModifiedTime(None));
    let (_, a) = p.step(Event::ModifiedTime(Some(ts(1))));
    assert_eq!(reported_names(&a), vec!["b".to_string()]);
}

#[test]
fn empty_listing_transfers_nothing_and_still_closes() {
    let (p, _) = start(".*", 0, 100);
    let (p, _) = p.step(Event::SourceConnected);
    let (p, _) = p.step(Event::TargetConnected);
    let (p, a) = p.step(listing(&[]));
    assert!(reported_names(&a).is_empty());
    let (p, a) = p.step(Event::Reported);
    assert!(reported_names(&a).is_empty());
    let (p, a) = p.step(Event::Reported);
    assert!(matches!(a, Action::CloseConnections));
    let (p, a) = p.step(Event::ConnectionsClosed);
    assert!(matches!(a, Action::Done));
    assert_eq!(p.outcome(), Some(Ok(())));
}

#[test]
fn two_files_are_transferred_in_listing_order() {
    let (p, _) = start(".*", 0, 100);
    let (p, _) = p.step(Event::SourceConnected);
    let (p, _) = p.step(Event::TargetConnected);
    let (p, _) = p.step(listing(&["d/one", "d/two"]));
    let (p, _) = p.step(Event::Reported);
    let (p, _) = p.step(Event::ModifiedTime(Some(ts(1))));
    let (p, _) = p.step(Event::ModifiedTime(Some(ts(2))));
    let (p, a) = p.step(Event::Reported);
    match &a {
        Action::Retrieve(f) => assert_eq!(f, "d/one"),
        _ => panic!("expected a retrieval"),
    }
    let (p, _) = p.step(Event::Contents(vec![1]));
    let (p, a) = p.step(Event::DirectoryChanged);
    match &a {
        Action::Store(name, _) => assert_eq!(name, "one"),
        _ => panic!("expected a store"),
    }
    let (p, a) = p.step(Event::Stored);
    match &a {
        Action::Retrieve(f) => assert_eq!(f, "d/two"),
        _ => panic!("expected a retrieval"),
    }
    let (p, _) = p.step(Event::Contents(vec![2]));
    let (p, a) = p.step(Event::DirectoryChanged);
    match &a {
        Action::Store(name, _) => assert_eq!(name, "two"),
        _ => panic!("expected a store"),
    }
    let (p, a) = p.step(Event::Stored);
    assert!(matches!(a, Action::CloseConnections));
    let (p, a) = p.step(Event::ConnectionsClosed);
    assert!(matches!(a, Action::Done));
    assert_eq!(p.outcome(), Some(Ok(())));
}

#[test]
fn fatal_error_descriptions_are_distinct() {
    let errors = [
        FatalError::SourceConnect,
        FatalError::TargetConnect,
        FatalError::List,
        FatalError::InvalidPattern,
        FatalError::Retrieve,
        FatalError::ChangeDirectory,
        FatalError::Store,
    ];
    for e in errors.iter() {
        assert!(!e.describe().is_empty());
        assert_ne!(e.exit_code(), 0);
    }
    assert_eq!(FatalError::InvalidPattern.exit_code(), 5);
}
