use std::sync::Arc;

use resource_cache::local::LocalStep;
use resource_cache::state_manager::{Local, ResourceProps, ResourceState};
use resource_cache::time::{TimeSpan, Timestamp};
use resource_cache::traits::{DataResult, ResourceError, ResourceFileType, ResourceReader};
use resource_cache::utilities::{get_files_starts_with, DiskCandidate, SourceRead};

fn reader(ttl: Option<TimeSpan>) -> Local<String> {
    Local::new(ResourceState::new(ResourceProps::new(
        "cfg".to_string(),
        ResourceFileType::Json,
        None,
        ".".to_string(),
        ttl,
    )))
}

fn file(name: &str, read: SourceRead<String>) -> DiskCandidate<String> {
    DiskCandidate { file_name: name.to_string(), read }
}

fn decoded(value: &str) -> SourceRead<String> {
    SourceRead::Decoded(value.to_string())
}

fn fresh(value: &str) -> Result<DataResult<Arc<String>>, ResourceError> {
    Ok(DataResult::Fresh(Arc::new(value.to_string())))
}

fn stale(value: &str) -> Result<DataResult<Arc<String>>, ResourceError> {
    Ok(DataResult::Stale(Arc::new(value.to_string())))
}

fn at(secs: u64) -> Timestamp {
    Timestamp::from_unix_secs(secs)
}

#[test]
fn local_value_ages_from_fresh_to_stale() {
    let mut reader = reader(Some(TimeSpan::from_secs(60)));
    assert_eq!(reader.get_data_or_error(false, at(0), vec![file("cfg-0.json", decoded("v"))]), fresh("v"));
    assert_eq!(reader.get_data_or_error(false, at(30), Vec::new()), fresh("v"));
    assert_eq!(reader.get_data_or_error(true, at(30), Vec::new()), fresh("v"));
    assert_eq!(reader.get_data_or_error(true, at(90), Vec::new()), stale("v"));
    assert_eq!(
        reader.get_data_or_error(false, at(90), Vec::new()),
        Err(ResourceError::StaleInternalNone)
    );
    assert_eq!(reader.get_data_or_error(true, at(90), Vec::new()), stale("v"));
}

#[test]
fn local_value_turns_stale_at_the_ttl_exactly() {
    let mut reader = reader(Some(TimeSpan::from_secs(60)));
    reader.get_data_or_error(false, at(0), vec![file("cfg-0.json", decoded("v"))]).unwrap();
    assert_eq!(
        reader.get_data_or_error(true, Timestamp::after_epoch(59, 999_999_999), Vec::new()),
        fresh("v")
    );
    assert_eq!(reader.get_data_or_error(true, at(60), Vec::new()), stale("v"));
}

#[test]
fn local_file_is_read_once_and_then_served_from_memory() {
    let mut reader = reader(Some(TimeSpan::from_secs(3600)));
    let names = vec!["readme.md".to_string(), "cfg-1700000000.json".to_string()];
    let found = get_files_starts_with(reader.get_state().get_file_name(), &names);
    assert_eq!(found, vec!["cfg-1700000000.json".to_string()]);

    let now = at(1_700_000_100);
    let stale_memory = match reader.begin(now) {
        LocalStep::ReadDisk { stale_memory } => stale_memory,
        LocalStep::Fresh(value) => panic!("nothing was cached, got {:?}", value),
    };
    assert_eq!(stale_memory, None);
    let files = vec![file("cfg-1700000000.json", decoded("parsed"))];
    assert_eq!(reader.after_disk(stale_memory, files, false, now), fresh("parsed"));

    match reader.begin(at(1_700_000_200)) {
        LocalStep::Fresh(value) => assert_eq!(*value, "parsed"),
        LocalStep::ReadDisk { .. } => panic!("the disk must not be asked again"),
    }
    assert_eq!(reader.get_data_or_error(false, at(1_700_000_200), Vec::new()), fresh("parsed"));
    assert_eq!(
        reader.get_data_or_error(false, at(1_700_000_200), vec![file("cfg-1.json", decoded("other"))]),
        fresh("parsed")
    );
}

#[test]
fn local_file_is_fresh_whatever_its_age() {
    let mut reader = reader(Some(TimeSpan::from_secs(1)));
    let files = vec![file("cfg-5.json", decoded("old file"))];
    assert_eq!(reader.get_data_or_error(false, at(1_700_000_000), files), fresh("old file"));
    assert_eq!(
        reader.get_state().get_internal_data(at(1_700_000_000)),
        Some((Arc::new("old file".to_string()), true, at(1_700_000_000)))
    );
}

#[test]
fn local_file_needs_no_timestamp_in_its_name() {
    let mut reader = reader(None);
    assert_eq!(reader.get_data_or_error(false, at(1), vec![file("cfg.json", decoded("plain"))]), fresh("plain"));
}

#[test]
fn local_read_takes_the_first_file_that_was_decoded() {
    let mut reader = reader(None);
    let files = vec![
        file("other.json", decoded("foreign")),
        file("cfg-1.json", SourceRead::Undecodable),
        file("cfg-2.json", SourceRead::Unreadable("denied".to_string())),
        file("cfg-3.json", decoded("third")),
        file("cfg-4.json", decoded("fourth")),
    ];
    assert_eq!(reader.get_data_or_error(false, at(9), files), fresh("third"));
}

#[test]
fn local_read_without_any_value_fails() {
    let mut reader = reader(Some(TimeSpan::from_secs(60)));
    assert_eq!(reader.get_data_or_error(false, at(0), Vec::new()), Err(ResourceError::StaleInternalNone));
    assert_eq!(reader.get_data_or_error(true, at(0), Vec::new()), Err(ResourceError::StaleInternalNone));
    let unusable = vec![file("other.json", decoded("foreign")), file("cfg-1.json", SourceRead::Undecodable)];
    assert_eq!(reader.get_data_or_error(true, at(0), unusable), Err(ResourceError::StaleInternalNone));
    assert_eq!(reader.get_state().get_internal_data(at(0)), None);
}

#[test]
fn local_read_of_a_declared_only_format_fails() {
    let mut reader: Local<String> = Local::new(ResourceState::new(ResourceProps::new(
        "cfg".to_string(),
        ResourceFileType::Text,
        None,
        ".".to_string(),
        None,
    )));
    assert_eq!(
        reader.get_data_or_error(true, at(0), vec![file("cfg-1.txt", decoded("text"))]),
        Err(ResourceError::StaleInternalNone)
    );
}

#[test]
fn local_mark_hides_the_cached_value_until_a_refresh() {
    let mut reader = reader(None);
    reader.get_data_or_error(false, at(0), vec![file("cfg-0.json", decoded("v1"))]).unwrap();
    assert!(!reader.is_marked_stale());
    reader.mark_as_stale();
    assert!(reader.is_marked_stale());
    assert_eq!(reader.get_data_or_error(false, at(1), Vec::new()), Err(ResourceError::StaleInternalNone));
    assert_eq!(reader.get_data_or_error(true, at(1), Vec::new()), Err(ResourceError::StaleInternalNone));
    assert!(reader.is_marked_stale());
    assert_eq!(reader.get_data_or_error(false, at(2), vec![file("cfg-9.json", decoded("v2"))]), fresh("v2"));
    assert!(!reader.is_marked_stale());
    assert_eq!(reader.get_data_or_error(false, at(3), Vec::new()), fresh("v2"));
}

#[test]
fn local_refresh_replaces_a_stale_value() {
    let mut reader = reader(Some(TimeSpan::from_secs(10)));
    reader.get_data_or_error(false, at(0), vec![file("cfg-0.json", decoded("v1"))]).unwrap();
    assert_eq!(reader.get_data_or_error(true, at(20), vec![file("cfg-0.json", decoded("v2"))]), fresh("v2"));
    assert_eq!(reader.get_data_or_error(true, at(25), Vec::new()), fresh("v2"));
    assert_eq!(reader.get_data_or_error(true, at(30), Vec::new()), stale("v2"));
}

#[test]
fn local_reader_counts_as_fresh_unless_marked() {
    let mut reader = reader(Some(TimeSpan::from_secs(10)));
    assert!(reader.is_fresh(at(0), Vec::new()));
    reader.mark_as_stale();
    assert!(!reader.is_fresh(at(0), Vec::new()));
    assert!(reader.is_fresh(at(5), vec![file("cfg-0.json", decoded("d"))]));
    assert!(!reader.is_fresh(at(10), vec![file("cfg-0.json", decoded("d"))]));
}
