//! Records: one per file, built from the file's path and raw metadata, and
//! the set of records that one walk collects.
use vstd::prelude::*;
use crate::paths::{
    base_name, directory_name, directory_of, extension, extension_of, file_name, name_of, stem_of,
    PathStyle,
};

verus! {

/// An instant in the local time zone: seconds and nanoseconds since the Unix
/// epoch, and the zone's offset from UTC in seconds at that instant.
#[derive(Debug, Clone, Copy, PartialEq, Eq, Structural)]
pub struct Timestamp {
    pub unix_secs: i64,
    pub nanos: u32,
    pub offset_secs: i32,
}

/// What kind of filesystem entry a walk met.
#[derive(Debug, Clone, Copy, PartialEq, Eq, Structural)]
pub enum EntryKind {
    File,
    Directory,
    Other,
}

/// The three timestamps that a record carries.
#[derive(Debug, Clone, Copy, PartialEq, Eq, Structural)]
pub enum TimestampKind {
    Creation,
    LastAccess,
    LastModified,
}

/// What to do when the host does not report one of a file's timestamps.
#[derive(Debug, Clone, Copy, PartialEq, Eq, Structural)]
pub enum TimestampPolicy {
    /// The record fails, and with it the walk.
    Required,
    /// The record carries no value for that timestamp.
    Optional,
}

impl Default for TimestampPolicy {
    fn default() -> (r: Self)
        ensures
            r == TimestampPolicy::Required,
    {
        TimestampPolicy::Required
    }
}

/// Why no record could be made of an entry.
#[derive(Debug, Clone, Copy, PartialEq, Eq, Structural)]
pub enum MetadataError {
    /// The entry's path is empty.
    EmptyPath,
    /// The entry is not a regular file.
    NotAFile,
    /// The host did not report this timestamp, and the policy requires it.
    UnsupportedTimestamp(TimestampKind),
}

/// One entry of a walk with the raw metadata read for it. `style` tells how
/// `path` is written; `owner` is the resolved owner name, empty where the
/// platform has none.
#[derive(Debug)]
pub struct Entry {
    pub path: String,
    pub style: PathStyle,
    pub kind: EntryKind,
    pub len: u64,
    pub created: Option<Timestamp>,
    pub accessed: Option<Timestamp>,
    pub modified: Option<Timestamp>,
    pub owner: String,
}

pub ghost struct EntryView {
    pub path: Seq<char>,
    pub style: PathStyle,
    pub kind: EntryKind,
    pub len: u64,
    pub created: Option<Timestamp>,
    pub accessed: Option<Timestamp>,
    pub modified: Option<Timestamp>,
    pub owner: Seq<char>,
}

impl View for Entry {
    type V = EntryView;

    open spec fn view(&self) -> EntryView {
        EntryView {
            path: self.path@,
            style: self.style,
            kind: self.kind,
            len: self.len,
            created: self.created,
            accessed: self.accessed,
            modified: self.modified,
            owner: self.owner@,
        }
    }
}

/// What is known of one file.
#[derive(Debug)]
pub struct Record {
    pub run_date: String,
    pub full_name: String,
    pub name: String,
    pub base_name: String,
    pub is_directory: bool,
    pub extension: String,
    pub directory_name: String,
    pub creation_time: Option<Timestamp>,
    pub last_access_time: Option<Timestamp>,
    pub last_modified_time: Option<Timestamp>,
    pub owner: String,
    pub size: u64,
}

pub ghost struct RecordView {
    pub run_date: Seq<char>,
    pub full_name: Seq<char>,
    pub name: Seq<char>,
    pub base_name: Seq<char>,
    pub is_directory: bool,
    pub extension: Seq<char>,
    pub directory_name: Seq<char>,
    pub creation_time: Option<Timestamp>,
    pub last_access_time: Option<Timestamp>,
    pub last_modified_time: Option<Timestamp>,
    pub owner: Seq<char>,
    pub size: u64,
}

impl View for Record {
    type V = RecordView;

    open spec fn view(&self) -> RecordView {
        RecordView {
            run_date: self.run_date@,
            full_name: self.full_name@,
            name: self.name@,
            base_name: self.base_name@,
            is_directory: self.is_directory,
            extension: self.extension@,
            directory_name: self.directory_name@,
            creation_time: self.creation_time,
            last_access_time: self.last_access_time,
            last_modified_time: self.last_modified_time,
            owner: self.owner@,
            size: self.size,
        }
    }
}

/// The names of a record's fields as they head the columns of the tabular
/// output, in field order.
pub open spec fn column_names_spec() -> Seq<Seq<char>> {
    seq![
        "RunDate"@,
        "FullName"@,
        "Name"@,
        "BaseName"@,
        "IsDirectory"@,
        "Extension"@,
        "DirectoryName"@,
        "CreationTime"@,
        "LastAccessTime"@,
        "LastModifiedTime"@,
        "Owner"@,
        "Size"@,
        "SizeKb"@,
        "SizeMb"@,
        "SizeGb"@,
        "SizeTb"@,
    ]
}

/// The column names of the tabular output, in field order.
pub fn column_names() -> (r: Vec<&'static str>)
    ensures
        r@.map_values(|s: &str| s@) == column_names_spec(),
{
    let r = vec![
        "RunDate",
        "FullName",
        "Name",
        "BaseName",
        "IsDirectory",
        "Extension",
        "DirectoryName",
        "CreationTime",
        "LastAccessTime",
        "LastModifiedTime",
        "Owner",
        "Size",
        "SizeKb",
        "SizeMb",
        "SizeGb",
        "SizeTb",
    ];
    assert(r@.map_values(|s: &str| s@) =~= column_names_spec());
    r
}

/// The first timestamp that the policy requires and the entry lacks.
pub open spec fn missing_timestamp(e: EntryView, policy: TimestampPolicy) -> Option<TimestampKind> {
    if policy == TimestampPolicy::Optional {
        None
    } else if e.created is None {
        Some(TimestampKind::Creation)
    } else if e.accessed is None {
        Some(TimestampKind::LastAccess)
    } else if e.modified is None {
        Some(TimestampKind::LastModified)
    } else {
        None
    }
}

/// The record made of an entry in a run stamped `run_date`.
pub open spec fn record_of(e: EntryView, run_date: Seq<char>, policy: TimestampPolicy) -> Result<
    RecordView,
    MetadataError,
> {
    if e.path.len() == 0 {
        Err(MetadataError::EmptyPath)
    } else if e.kind != EntryKind::File {
        Err(MetadataError::NotAFile)
    } else if let Some(k) = missing_timestamp(e, policy) {
        Err(MetadataError::UnsupportedTimestamp(k))
    } else {
        Ok(
            RecordView {
                run_date,
                full_name: e.path,
                name: name_of(e.style, e.path),
                base_name: stem_of(name_of(e.style, e.path)),
                is_directory: false,
                extension: extension_of(name_of(e.style, e.path)),
                directory_name: directory_of(e.style, e.path),
                creation_time: e.created,
                last_access_time: e.accessed,
                last_modified_time: e.modified,
                owner: e.owner,
                size: e.len,
            },
        )
    }
}

/// The records collected so far after one more entry: files add their
/// record, other entries add nothing.
pub open spec fn record_step(
    rs: Seq<RecordView>,
    e: EntryView,
    run_date: Seq<char>,
    policy: TimestampPolicy,
) -> Result<Seq<RecordView>, MetadataError> {
    if e.kind != EntryKind::File {
        Ok(rs)
    } else {
        match record_of(e, run_date, policy) {
            Ok(r) => Ok(rs.push(r)),
            Err(err) => Err(err),
        }
    }
}

/// The records of a whole walk, or the first error met.
pub open spec fn harvested(es: Seq<EntryView>, run_date: Seq<char>, policy: TimestampPolicy) -> Result<
    Seq<RecordView>,
    MetadataError,
>
    decreases es.len(),
{
    if es.len() == 0 {
        Ok(Seq::empty())
    } else {
        match harvested(es.drop_last(), run_date, policy) {
            Ok(rs) => record_step(rs, es.last(), run_date, policy),
            Err(err) => Err(err),
        }
    }
}

/// How many entries of a walk are files.
pub open spec fn file_count(es: Seq<EntryView>) -> nat
    decreases es.len(),
{
    if es.len() == 0 {
        0
    } else {
        file_count(es.drop_last()) + if es.last().kind == EntryKind::File {
            1nat
        } else {
            0nat
        }
    }
}

pub open spec fn views(rs: Seq<Record>) -> Seq<RecordView> {
    rs.map_values(|r: Record| r@)
}

/// Turns an entry and its metadata into a record, stamped with the run's
/// date.
pub fn normalize(entry: &Entry, run_date: &str, policy: TimestampPolicy) -> (r: Result<
    Record,
    MetadataError,
>)
    ensures
        match r {
            Ok(rec) => record_of(entry@, run_date@, policy) == Ok::<_, MetadataError>(rec@),
            Err(err) => record_of(entry@, run_date@, policy) == Err::<RecordView, _>(err),
        },
        r matches Ok(rec) ==> rec@.run_date == run_date@ && rec@.full_name == entry@.path
            && !rec.is_directory,
        entry@.kind == EntryKind::File && entry@.path.len() > 0 && missing_timestamp(
            entry@,
            policy,
        ) is None ==> r is Ok,
{
    let path = entry.path.as_str();
    if path.unicode_len() == 0 {
        return Err(MetadataError::EmptyPath);
    }
    if entry.kind != EntryKind::File {
        return Err(MetadataError::NotAFile);
    }
    if policy == TimestampPolicy::Required {
        if entry.created.is_none() {
            return Err(MetadataError::UnsupportedTimestamp(TimestampKind::Creation));
        }
        if entry.accessed.is_none() {
            return Err(MetadataError::UnsupportedTimestamp(TimestampKind::LastAccess));
        }
        if entry.modified.is_none() {
            return Err(MetadataError::UnsupportedTimestamp(TimestampKind::LastModified));
        }
    }
    Ok(
        Record {
            run_date: run_date.to_owned(),
            full_name: entry.path.clone(),
            name: file_name(path, entry.style),
            base_name: base_name(path, entry.style),
            is_directory: false,
            extension: extension(path, entry.style),
            directory_name: directory_name(path, entry.style),
            creation_time: entry.created,
            last_access_time: entry.accessed,
            last_modified_time: entry.modified,
            owner: entry.owner.clone(),
            size: entry.len,
        },
    )
}

/// Adds the record of `entry` to `records` where it is a file; leaves
/// `records` as it was where it is not, or where no record can be made.
pub(crate) fn push_entry(
    records: &mut Vec<Record>,
    entry: &Entry,
    run_date: &str,
    policy: TimestampPolicy,
) -> (r: Result<(), MetadataError>)
    ensures
        match record_step(views(old(records)@), entry@, run_date@, policy) {
            Ok(rs) => r is Ok && views(final(records)@) == rs,
            Err(err) => r == Err::<(), _>(err) && final(records)@ == old(records)@,
        },
{
    if entry.kind != EntryKind::File {
        return Ok(());
    }
    match normalize(entry, run_date, policy) {
        Ok(rec) => {
            records.push(rec);
            assert(views(records@) =~= views(old(records)@).push(rec@));
            Ok(())
        },
        Err(err) => Err(err),
    }
}

/// The records of all the file entries of a walk, in order, or the first
/// error met.
pub fn harvest(entries: &Vec<Entry>, run_date: &str, policy: TimestampPolicy) -> (r: Result<
    Vec<Record>,
    MetadataError,
>)
    ensures
        match r {
            Ok(rs) => harvested(entries@.map_values(|e: Entry| e@), run_date@, policy) == Ok::<
                _,
                MetadataError,
            >(views(rs@)),
            Err(err) => harvested(entries@.map_values(|e: Entry| e@), run_date@, policy) == Err::<
                Seq<RecordView>,
                _,
            >(err),
        },
{
    let ghost es = entries@.map_values(|e: Entry| e@);
    let mut records: Vec<Record> = Vec::new();
    let mut i: usize = 0;
    assert(views(records@) =~= Seq::empty());
    while i < entries.len()
        invariant
            i <= entries.len(),
            es == entries@.map_values(|e: Entry| e@),
            harvested(es.take(i as int), run_date@, policy) == Ok::<_, MetadataError>(
                views(records@),
            ),
        decreases entries.len() - i,
    {
        assert(es.take(i + 1).drop_last() =~= es.take(i as int));
        match push_entry(&mut records, &entries[i], run_date, policy) {
            Ok(()) => {},
            Err(err) => {
                proof {
                    lemma_harvest_error_stays(es, run_date@, policy, i + 1);
                }
                return Err(err);
            },
        }
        i = i + 1;
    }
    assert(es.take(i as int) =~= es);
    Ok(records)
}

proof fn lemma_harvest_error_stays(
    es: Seq<EntryView>,
    run_date: Seq<char>,
    policy: TimestampPolicy,
    n: int,
)
    requires
        0 <= n <= es.len(),
        harvested(es.take(n), run_date, policy) is Err,
    ensures
        harvested(es, run_date, policy) == harvested(es.take(n), run_date, policy),
    decreases es.len() - n,
{
    if n < es.len() {
        assert(es.take(n + 1).drop_last() =~= es.take(n));
        lemma_harvest_error_stays(es, run_date, policy, n + 1);
    } else {
        assert(es.take(n) =~= es);
    }
}

/// Every record of one walk carries the run date it was stamped with, and
/// none of them describes a directory.
pub proof fn lemma_harvest_shares_run_date(
    es: Seq<EntryView>,
    run_date: Seq<char>,
    policy: TimestampPolicy,
)
    ensures
        harvested(es, run_date, policy) matches Ok(rs) ==> forall|i: int|
            0 <= i < rs.len() ==> (#[trigger] rs[i]).run_date == run_date && !rs[i].is_directory,
    decreases es.len(),
{
    if es.len() > 0 {
        lemma_harvest_shares_run_date(es.drop_last(), run_date, policy);
    }
}

/// The paths of the file entries of a walk, in order.
pub open spec fn file_paths(es: Seq<EntryView>) -> Seq<Seq<char>>
    decreases es.len(),
{
    if es.len() == 0 {
        Seq::empty()
    } else if es.last().kind == EntryKind::File {
        file_paths(es.drop_last()).push(es.last().path)
    } else {
        file_paths(es.drop_last())
    }
}

/// A walk yields exactly one record per file entry, carrying that file's
/// path: directories and other entries yield none, whatever order they come
/// in.
pub proof fn lemma_harvest_counts_files(
    es: Seq<EntryView>,
    run_date: Seq<char>,
    policy: TimestampPolicy,
)
    ensures
        harvested(es, run_date, policy) matches Ok(rs) ==> {
            &&& rs.len() == file_count(es)
            &&& rs.len() == file_paths(es).len()
            &&& forall|i: int| 0 <= i < rs.len() ==> (#[trigger] rs[i]).full_name == file_paths(es)[i]
        },
    decreases es.len(),
{
    if es.len() > 0 {
        lemma_harvest_counts_files(es.drop_last(), run_date, policy);
    }
}

/// A walk succeeds exactly when a record can be made of every file entry.
pub proof fn lemma_harvest_succeeds(es: Seq<EntryView>, run_date: Seq<char>, policy: TimestampPolicy)
    ensures
        harvested(es, run_date, policy) is Ok <==> forall|i: int|
            0 <= i < es.len() && (#[trigger] es[i]).kind == EntryKind::File ==> record_of(
                es[i],
                run_date,
                policy,
            ) is Ok,
    decreases es.len(),
{
    if es.len() > 0 {
        let init = es.drop_last();
        lemma_harvest_succeeds(init, run_date, policy);
        assert forall|i: int| 0 <= i < init.len() implies #[trigger] init[i] == es[i] by {}
        if harvested(es, run_date, policy) is Ok {
            assert forall|i: int|
                0 <= i < es.len() && (#[trigger] es[i]).kind == EntryKind::File implies record_of(
                es[i],
                run_date,
                policy,
            ) is Ok by {
                if i < init.len() {
                    assert(init[i] == es[i]);
                }
            }
        }
    }
}

} // verus!
