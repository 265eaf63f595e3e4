use std::sync::Arc;

use resource_cache::remote::{DiskStep, FetchStep, MemoryStep, RemoteSources};
use resource_cache::state_manager::{Remote, ResourceProps, ResourceState};
use resource_cache::time::{TimeSpan, Timestamp};
use resource_cache::traits::{DataResult, ResourceError, ResourceFileType, ResourceReader};
use resource_cache::utilities::{DiskCandidate, FileWrite, SourceRead};

fn remote_of(file_type: ResourceFileType, ttl: Option<TimeSpan>) -> Remote<String> {
    Remote::new(ResourceState::new(ResourceProps::new(
        "cfg".to_string(),
        file_type,
        Some("https://example.org/cfg".to_string()),
        "cache".to_string(),
        ttl,
    )))
}

fn remote(ttl: Option<TimeSpan>) -> Remote<String> {
    remote_of(ResourceFileType::Json, ttl)
}

fn disk_file(name: &str, value: &str) -> DiskCandidate<String> {
    DiskCandidate { file_name: name.to_string(), read: SourceRead::Decoded(value.to_string()) }
}

fn nothing() -> RemoteSources<String> {
    RemoteSources {
        disk: Vec::new(),
        fetched: SourceRead::Unreadable("network down".to_string()),
        written: FileWrite::Written,
    }
}

fn origin(value: &str) -> RemoteSources<String> {
    RemoteSources {
        disk: Vec::new(),
        fetched: SourceRead::Decoded(value.to_string()),
        written: FileWrite::Written,
    }
}

fn disk_only(files: Vec<DiskCandidate<String>>) -> RemoteSources<String> {
    RemoteSources { disk: files, ..nothing() }
}

fn fresh_of(value: &str) -> Result<DataResult<Arc<String>>, ResourceError> {
    Ok(DataResult::Fresh(Arc::new(value.to_string())))
}

fn stale_of(value: &str) -> Result<DataResult<Arc<String>>, ResourceError> {
    Ok(DataResult::Stale(Arc::new(value.to_string())))
}

fn secs(secs: u64) -> Timestamp {
    Timestamp::from_unix_secs(secs)
}

#[test]
fn remote_value_ages_from_fresh_to_stale() {
    let mut reader = remote(Some(TimeSpan::from_secs(60)));
    assert_eq!(reader.get_data_or_error(false, secs(0), origin("v")), fresh_of("v"));
    assert_eq!(reader.get_data_or_error(false, secs(30), nothing()), fresh_of("v"));
    assert_eq!(reader.get_data_or_error(true, secs(90), nothing()), stale_of("v"));
    assert_eq!(reader.get_data_or_error(false, secs(90), nothing()), Err(ResourceError::FreshingData));
}

#[test]
fn remote_without_any_candidate_fails_by_what_the_caller_allows() {
    let mut reader = remote(Some(TimeSpan::from_secs(60)));
    assert_eq!(reader.get_data_or_error(false, secs(0), nothing()), Err(ResourceError::FreshingData));
    assert_eq!(reader.get_data_or_error(true, secs(0), nothing()), Err(ResourceError::StaleInternalNone));
    assert_eq!(reader.get_state().get_internal_data(secs(0)), None);
}

#[test]
fn remote_undecodable_body_counts_as_no_fetch() {
    let mut reader = remote(None);
    let sources = RemoteSources { fetched: SourceRead::Undecodable, ..nothing() };
    assert_eq!(reader.get_data_or_error(false, secs(0), sources), Err(ResourceError::FreshingData));
    let sources = RemoteSources { fetched: SourceRead::Undecodable, ..nothing() };
    assert_eq!(reader.get_data_or_error(true, secs(0), sources), Err(ResourceError::StaleInternalNone));
}

#[test]
fn remote_body_of_a_declared_only_format_counts_as_no_fetch() {
    for file_type in [ResourceFileType::Toml, ResourceFileType::Text] {
        let mut reader = remote_of(file_type, None);
        assert_eq!(reader.get_data_or_error(false, secs(0), origin("body")), Err(ResourceError::FreshingData));
        assert_eq!(
            reader.get_data_or_error(true, secs(0), origin("body")),
            Err(ResourceError::StaleInternalNone)
        );
    }
}

#[test]
fn remote_fresh_disk_value_ends_the_read_without_installing() {
    let mut reader = remote(Some(TimeSpan::from_secs(60)));
    let sources = RemoteSources { disk: vec![disk_file("cfg-100.json", "disk")], ..origin("net") };
    assert_eq!(reader.get_data_or_error(false, secs(130), sources), fresh_of("disk"));
    assert_eq!(reader.get_state().get_internal_data(secs(130)), None);
}

#[test]
fn remote_fresh_memory_value_wins_over_disk_and_origin() {
    let mut reader = remote(Some(TimeSpan::from_secs(60)));
    reader.get_data_or_error(false, secs(100), origin("memory")).unwrap();
    let sources = RemoteSources { disk: vec![disk_file("cfg-120.json", "disk")], ..origin("net") };
    assert_eq!(reader.get_data_or_error(false, secs(130), sources), fresh_of("memory"));
}

#[test]
fn remote_newer_stale_disk_value_wins() {
    let mut reader = remote(Some(TimeSpan::from_secs(10)));
    reader.get_data_or_error(false, secs(100), origin("memory")).unwrap();
    let sources = disk_only(vec![disk_file("cfg-150.json", "disk")]);
    assert_eq!(reader.get_data_or_error(true, secs(200), sources), stale_of("disk"));
}

#[test]
fn remote_newer_stale_memory_value_wins() {
    let mut reader = remote(Some(TimeSpan::from_secs(10)));
    reader.get_data_or_error(false, secs(100), origin("memory")).unwrap();
    let sources = disk_only(vec![disk_file("cfg-50.json", "disk")]);
    assert_eq!(reader.get_data_or_error(true, secs(200), sources), stale_of("memory"));
}

#[test]
fn remote_stale_tie_goes_to_memory() {
    let mut reader = remote(Some(TimeSpan::from_secs(10)));
    reader.get_data_or_error(false, secs(100), origin("memory")).unwrap();
    let sources = disk_only(vec![disk_file("cfg-100.json", "disk")]);
    assert_eq!(reader.get_data_or_error(true, secs(200), sources), stale_of("memory"));
    let sources = disk_only(vec![disk_file("cfg-100.json", "disk")]);
    assert_eq!(reader.get_data_or_error(true, secs(200), sources), stale_of("memory"));
}

#[test]
fn remote_stale_memory_by_a_nanosecond_loses() {
    let mut reader = remote(Some(TimeSpan::from_secs(10)));
    reader.get_data_or_error(false, Timestamp::after_epoch(99, 999_999_999), origin("memory")).unwrap();
    let sources = disk_only(vec![disk_file("cfg-100.json", "disk")]);
    assert_eq!(reader.get_data_or_error(true, secs(200), sources), stale_of("disk"));
}

#[test]
fn remote_single_stale_candidate_is_used() {
    let mut reader = remote(Some(TimeSpan::from_secs(10)));
    let sources = disk_only(vec![disk_file("cfg-50.json", "disk")]);
    assert_eq!(reader.get_data_or_error(true, secs(200), sources), stale_of("disk"));
    let sources = disk_only(vec![disk_file("cfg-50.json", "disk")]);
    assert_eq!(reader.get_data_or_error(false, secs(200), sources), Err(ResourceError::FreshingData));
    reader.get_data_or_error(false, secs(300), origin("memory")).unwrap();
    assert_eq!(reader.get_data_or_error(true, secs(400), nothing()), stale_of("memory"));
}

#[test]
fn remote_fetch_refreshes_stale_tiers() {
    let mut reader = remote(Some(TimeSpan::from_secs(10)));
    reader.get_data_or_error(false, secs(100), origin("old")).unwrap();
    let sources = RemoteSources { disk: vec![disk_file("cfg-150.json", "disk")], ..origin("new") };
    assert_eq!(reader.get_data_or_error(true, secs(200), sources), fresh_of("new"));
    assert_eq!(
        reader.get_state().get_internal_data(secs(205)),
        Some((Arc::new("new".to_string()), true, secs(200)))
    );
}

#[test]
fn remote_failed_write_surfaces_and_installs_nothing() {
    let mut reader = remote(None);
    let sources = RemoteSources { written: FileWrite::Unwritable("disk full".to_string()), ..origin("net") };
    assert_eq!(
        reader.get_data_or_error(true, secs(0), sources),
        Err(ResourceError::Io("disk full".to_string()))
    );
    assert_eq!(reader.get_state().get_internal_data(secs(0)), None);
    let sources = RemoteSources { written: FileWrite::Unencodable, ..origin("net") };
    assert_eq!(reader.get_data_or_error(false, secs(0), sources), Err(ResourceError::Serialization("JSON")));
    assert_eq!(reader.get_state().get_internal_data(secs(0)), None);
}

#[test]
fn remote_failed_write_keeps_the_old_value() {
    let mut reader = remote(Some(TimeSpan::from_secs(10)));
    reader.get_data_or_error(false, secs(0), origin("old")).unwrap();
    let sources = RemoteSources { written: FileWrite::Unwritable("denied".to_string()), ..origin("new") };
    assert_eq!(reader.get_data_or_error(true, secs(50), sources), Err(ResourceError::Io("denied".to_string())));
    assert_eq!(reader.get_data_or_error(true, secs(50), nothing()), stale_of("old"));
}

#[test]
fn remote_mark_hides_memory_and_disk_until_a_refresh() {
    let mut reader = remote(None);
    reader.get_data_or_error(false, secs(100), origin("v1")).unwrap();
    reader.mark_as_stale();
    assert!(reader.is_marked_stale());
    let with_disk = || disk_only(vec![disk_file("cfg-100.json", "disk")]);
    assert_eq!(reader.get_data_or_error(false, secs(101), with_disk()), Err(ResourceError::FreshingData));
    assert_eq!(reader.get_data_or_error(true, secs(101), with_disk()), Err(ResourceError::StaleInternalNone));
    assert!(reader.is_marked_stale());
    assert_eq!(reader.get_data_or_error(false, secs(102), origin("v2")), fresh_of("v2"));
    assert!(!reader.is_marked_stale());
    assert_eq!(reader.get_data_or_error(false, secs(103), nothing()), fresh_of("v2"));
}

#[test]
fn remote_mark_survives_a_failed_write() {
    let mut reader = remote(None);
    reader.get_data_or_error(false, secs(100), origin("v1")).unwrap();
    reader.mark_as_stale();
    let sources = RemoteSources { written: FileWrite::Unwritable("denied".to_string()), ..origin("v2") };
    assert_eq!(reader.get_data_or_error(false, secs(101), sources), Err(ResourceError::Io("denied".to_string())));
    assert!(reader.is_marked_stale());
}

#[test]
fn remote_steps_walk_through_all_tiers() {
    let mut reader = remote(Some(TimeSpan::from_secs(10)));
    reader.get_data_or_error(false, secs(100), origin("memory")).unwrap();

    let stale_memory = match reader.begin(secs(200)) {
        MemoryStep::ReadDisk { stale_memory } => stale_memory,
        other => panic!("expected to be sent to the disk, got {:?}", other),
    };
    assert_eq!(stale_memory, Some((Arc::new("memory".to_string()), secs(100))));

    let stale_disk = match reader.after_disk(vec![disk_file("cfg-150.json", "disk")], secs(200)) {
        DiskStep::Fetch { stale_disk } => stale_disk,
        other => panic!("expected to be sent to the origin, got {:?}", other),
    };
    assert_eq!(stale_disk, Some((Arc::new("disk".to_string()), secs(150))));

    match reader.after_fetch(stale_memory.clone(), stale_disk.clone(), SourceRead::Undecodable, true) {
        FetchStep::Done(result) => assert_eq!(result, stale_of("disk")),
        other => panic!("expected the read to end, got {:?}", other),
    }
    match reader.after_fetch(stale_memory.clone(), stale_disk.clone(), SourceRead::Undecodable, false) {
        FetchStep::Done(result) => assert_eq!(result, Err(ResourceError::FreshingData)),
        other => panic!("expected the read to end, got {:?}", other),
    }
    let value = match reader.after_fetch(stale_memory, stale_disk, SourceRead::Decoded("net".to_string()), false) {
        FetchStep::Persist(value) => value,
        other => panic!("expected a value to write, got {:?}", other),
    };
    assert_eq!(*value, "net");
    assert_eq!(reader.after_persist(value, FileWrite::Written, secs(201)), fresh_of("net"));
    match reader.begin(secs(205)) {
        MemoryStep::Fresh(value) => assert_eq!(*value, "net"),
        other => panic!("expected a fresh value, got {:?}", other),
    }
}

#[test]
fn remote_steps_skip_the_disk_once_marked() {
    let mut reader = remote(None);
    reader.get_data_or_error(false, secs(100), origin("v1")).unwrap();
    reader.mark_as_stale();
    assert!(matches!(reader.begin(secs(101)), MemoryStep::Fetch));
}

#[test]
fn remote_steps_end_on_a_fresh_disk_value() {
    let reader = remote(Some(TimeSpan::from_secs(60)));
    match reader.begin(secs(100)) {
        MemoryStep::ReadDisk { stale_memory } => assert_eq!(stale_memory, None),
        other => panic!("expected to be sent to the disk, got {:?}", other),
    }
    match reader.after_disk(vec![disk_file("cfg-90.json", "disk")], secs(100)) {
        DiskStep::Fresh(value) => assert_eq!(*value, "disk"),
        other => panic!("expected a fresh value, got {:?}", other),
    }
    match reader.after_disk(Vec::new(), secs(100)) {
        DiskStep::Fetch { stale_disk } => assert_eq!(stale_disk, None),
        other => panic!("expected to be sent to the origin, got {:?}", other),
    }
}

#[test]
fn remote_reader_counts_as_fresh_unless_marked() {
    let mut reader = remote(Some(TimeSpan::from_secs(10)));
    assert!(reader.is_fresh(secs(0), Vec::new()));
    reader.get_data_or_error(false, secs(100), origin("v")).unwrap();
    reader.mark_as_stale();
    assert!(reader.is_fresh(secs(105), Vec::new()));
    assert!(!reader.is_fresh(secs(110), Vec::new()));
    assert!(reader.is_fresh(secs(110), vec![disk_file("cfg-105.json", "d")]));
}
