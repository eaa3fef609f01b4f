use durse::pipeline::{
    destination_parent, join_path, preflight, Destination, OutType, PreflightError, RecordSet,
};
use durse::record::{
    harvest, normalize, Entry, EntryKind, MetadataError, TimestampKind, TimestampPolicy, Timestamp,
};
use durse::paths::PathStyle;
use durse::record::column_names;
use durse::units::unit_divisor;

fn ts(secs: i64) -> Option<Timestamp> {
    Some(Timestamp { unix_secs: secs, nanos: 500, offset_secs: 3600 })
}

fn file(path: &str, len: u64) -> Entry {
    Entry {
        path: path.to_string(),
        style: PathStyle::Unix,
        kind: EntryKind::File,
        len,
        created: ts(1_600_000_000),
        accessed: ts(1_600_000_100),
        modified: ts(1_600_000_050),
        owner: String::new(),
    }
}

fn dir(path: &str) -> Entry {
    Entry { kind: EntryKind::Directory, len: 4096, ..file(path, 0) }
}

const RUN: &str = "2024-05-01 10:00:00.123456789 +01:00";

#[test]
fn normalize_known_file() {
    let r = normalize(&file("tmp/d/durse.txt", 89), RUN, TimestampPolicy::Required).unwrap();
    assert_eq!(r.size, 89);
    let kb = r.size as f64 / unit_divisor(1) as f64;
    assert!((kb - 0.0869140625).abs() < 1e-12);
    assert_eq!(r.name, "durse.txt");
    assert_eq!(r.base_name, "durse");
    assert_eq!(r.extension, "txt");
    assert_eq!(r.directory_name, "tmp/d");
    assert_eq!(r.full_name, "tmp/d/durse.txt");
    assert_eq!(r.run_date, RUN);
    assert!(!r.is_directory);
    assert_eq!(r.creation_time, ts(1_600_000_000));
    assert_eq!(r.last_access_time, ts(1_600_000_100));
    assert_eq!(r.last_modified_time, ts(1_600_000_050));
}

#[test]
fn normalize_keeps_owner() {
    let e = Entry { owner: "alice".to_string(), ..file("x.bin", 1) };
    let r = normalize(&e, RUN, TimestampPolicy::Required).unwrap();
    assert_eq!(r.owner, "alice");
}

#[test]
fn normalize_missing_timestamps() {
    let e = Entry { created: None, ..file("a.txt", 1) };
    assert_eq!(
        normalize(&e, RUN, TimestampPolicy::Required).unwrap_err(),
        MetadataError::UnsupportedTimestamp(TimestampKind::Creation)
    );
    let e = Entry { accessed: None, ..file("a.txt", 1) };
    assert_eq!(
        normalize(&e, RUN, TimestampPolicy::Required).unwrap_err(),
        MetadataError::UnsupportedTimestamp(TimestampKind::LastAccess)
    );
    let e = Entry { modified: None, ..file("a.txt", 1) };
    assert_eq!(
        normalize(&e, RUN, TimestampPolicy::Required).unwrap_err(),
        MetadataError::UnsupportedTimestamp(TimestampKind::LastModified)
    );
}

#[test]
fn optional_timestamps_are_left_empty() {
    let e = Entry { created: None, ..file("a.txt", 1) };
    let r = normalize(&e, RUN, TimestampPolicy::Optional).unwrap();
    assert_eq!(r.creation_time, None);
    assert_eq!(r.last_modified_time, ts(1_600_000_050));
    assert_eq!(TimestampPolicy::default(), TimestampPolicy::Required);
}

#[test]
fn normalize_rejects_empty_path_and_directories() {
    assert_eq!(
        normalize(&file("", 1), RUN, TimestampPolicy::Required).unwrap_err(),
        MetadataError::EmptyPath
    );
    assert_eq!(
        normalize(&dir("a"), RUN, TimestampPolicy::Required).unwrap_err(),
        MetadataError::NotAFile
    );
}

#[test]
fn empty_walk_gives_no_records() {
    let rs = harvest(&Vec::new(), RUN, TimestampPolicy::Required).unwrap();
    assert!(rs.is_empty());
}

#[test]
fn tree_with_subdirectories_gives_one_record_per_file() {
    let entries = vec![
        dir("root"),
        dir("root/sub"),
        file("root/sub/one.txt", 3),
        dir("root/empty"),
        file("root/sub/two.md", 5),
    ];
    let rs = harvest(&entries, RUN, TimestampPolicy::Required).unwrap();
    assert_eq!(rs.len(), 2);
    assert_eq!(rs[0].name, "one.txt");
    assert_eq!(rs[1].name, "two.md");
    assert_eq!(rs[0].full_name, "root/sub/one.txt");
    assert_eq!(rs[1].full_name, "root/sub/two.md");
    assert!(rs.iter().all(|r| !r.is_directory));
    let mut reversed = entries;
    reversed.reverse();
    assert_eq!(harvest(&reversed, RUN, TimestampPolicy::Required).unwrap().len(), 2);
}

#[test]
fn records_share_run_date() {
    let entries = vec![file("a", 1), dir("d"), file("d/b", 2), file("d/c", 3)];
    let rs = harvest(&entries, RUN, TimestampPolicy::Required).unwrap();
    assert_eq!(rs.len(), 3);
    assert!(rs.iter().all(|r| r.run_date == RUN));
}

#[test]
fn first_bad_entry_fails_the_walk() {
    let entries = vec![file("a", 1), Entry { modified: None, ..file("b", 2) }, file("c", 3)];
    assert_eq!(
        harvest(&entries, RUN, TimestampPolicy::Required).unwrap_err(),
        MetadataError::UnsupportedTimestamp(TimestampKind::LastModified)
    );
}

#[test]
fn record_set_collects_files() {
    let mut set = RecordSet::new(None, OutType::ndjson, RUN.to_string(), TimestampPolicy::Required);
    assert!(set.add_entry(&dir("r")).is_ok());
    assert!(set.add_entry(&file("r/a.txt", 10)).is_ok());
    let bad = Entry { created: None, ..file("r/b.txt", 1) };
    assert_eq!(
        set.add_entry(&bad),
        Err(MetadataError::UnsupportedTimestamp(TimestampKind::Creation))
    );
    assert_eq!(set.records().len(), 1);
    assert_eq!(set.records()[0].extension, "txt");
    assert_eq!(set.run_date(), RUN);
    assert_eq!(set.out_type(), OutType::ndjson);
    assert_eq!(set.file_name(), &None);
}

#[test]
fn join_relative_and_absolute() {
    assert_eq!(join_path("/home/u", "out.csv", PathStyle::Unix), "/home/u/out.csv");
    assert_eq!(join_path("/home/u/", "out.csv", PathStyle::Unix), "/home/u/out.csv");
    assert_eq!(join_path("/home/u", "/tmp/out.csv", PathStyle::Unix), "/tmp/out.csv");
}

#[test]
fn destination_parent_is_cleaned() {
    assert_eq!(destination_parent("/home/u", "out/../x/./r.csv", PathStyle::Unix), Some("/home/u/x".to_string()));
    assert_eq!(destination_parent("/home/u", "/var//log/r.csv", PathStyle::Unix), Some("/var/log".to_string()));
    assert_eq!(destination_parent("/home/u", "/", PathStyle::Unix), None);
}

#[test]
fn missing_destination_parent_stops_before_walk() {
    let d = Destination::File { dir: "/nope/missing".to_string(), exists: false };
    match preflight(d, true) {
        Err(PreflightError::InvalidDestination(Some(p))) => assert_eq!(p, "/nope/missing"),
        other => panic!("unexpected {:?}", other),
    }
    assert!(matches!(
        preflight(Destination::NoParent, true),
        Err(PreflightError::InvalidDestination(None))
    ));
}

#[test]
fn root_must_be_directory() {
    assert!(matches!(preflight(Destination::Stdout, false), Err(PreflightError::NotADirectory)));
    assert!(preflight(Destination::Stdout, true).is_ok());
    let d = Destination::File { dir: "/tmp".to_string(), exists: true };
    assert!(preflight(d, true).is_ok());
}

#[test]
fn largest_size_is_kept() {
    let r = normalize(&file("big.img", u64::MAX), RUN, TimestampPolicy::Required).unwrap();
    assert_eq!(r.size, u64::MAX);
    let tb = r.size as f64 / unit_divisor(4) as f64;
    assert!((tb - 16_777_216.0).abs() < 1e-6);
}

#[test]
fn windows_records_and_destinations() {
    let e = Entry { style: PathStyle::Windows, ..file("C:\\tree\\sub\\durse.txt", 89) };
    let r = normalize(&e, RUN, TimestampPolicy::Required).unwrap();
    assert_eq!(r.name, "durse.txt");
    assert_eq!(r.base_name, "durse");
    assert_eq!(r.extension, "txt");
    assert_eq!(r.directory_name, "C:\\tree\\sub");
    assert_eq!(join_path("C:\\work", "out.csv", PathStyle::Windows), "C:\\work\\out.csv");
    assert_eq!(join_path("C:\\work", "D:\\out\\r.csv", PathStyle::Windows), "D:\\out\\r.csv");
    assert_eq!(join_path("C:\\work\\", "out.csv", PathStyle::Windows), "C:\\work\\out.csv");
    assert_eq!(
        destination_parent("C:\\work", "D:\\out\\r.csv", PathStyle::Windows),
        Some("D:\\out".to_string())
    );
}

#[test]
fn column_names_in_field_order() {
    assert_eq!(
        column_names(),
        vec![
            "RunDate", "FullName", "Name", "BaseName", "IsDirectory", "Extension",
            "DirectoryName", "CreationTime", "LastAccessTime", "LastModifiedTime", "Owner",
            "Size", "SizeKb", "SizeMb", "SizeGb", "SizeTb",
        ]
    );
}
