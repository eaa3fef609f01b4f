//! What a run is asked to do, the checks made before any walk, and the
//! record set that a walk fills.
use vstd::prelude::*;
use crate::clock::now_local_text;
use crate::paths::{
    chars_of, is_absolute, is_sep, is_separator, main_sep, parent, parent_of, starts_with_drive,
    PathStyle,
};
use crate::record::{
    push_entry, record_step, views, Entry, MetadataError, Record, RecordView, TimestampPolicy,
};

verus! {

/// How the records are written.
#[allow(non_camel_case_types)]
#[derive(Debug, Clone, Copy, PartialEq, Eq, Structural)]
pub enum OutType {
    /// Comma-separated rows under a header row, every field quoted.
    csv,
    /// One JSON object per line.
    ndjson,
}

/// The options of one run.
#[derive(Debug)]
pub struct Args {
    /// The directory to walk; the working directory where absent.
    pub path: Option<String>,
    /// The file to write the records to; standard output where absent.
    pub file_name: Option<String>,
    /// How the records are written.
    pub out_type: OutType,
    /// Whether a file whose timestamps the host does not report fails the run.
    pub missing_timestamps: TimestampPolicy,
}

/// The lexical normalization of a path, as path_clean computes it.
pub uninterp spec fn cleaned(p: Seq<char>) -> Seq<char>;

/// Relies on path_clean::clean: removes `.` components, resolves `..`
/// against the components before it, and collapses repeated separators,
/// without touching the filesystem.
#[verifier::external_body]
fn clean_path(p: &str) -> (r: String)
    ensures
        r@ == cleaned(p@),
{
    path_clean::clean(p)
}

/// `p` resolved against the directory `base`: `p` itself where it is
/// absolute, else `base` and `p` with one separator between them.
pub open spec fn joined(style: PathStyle, base: Seq<char>, p: Seq<char>) -> Seq<char> {
    if is_absolute(style, p) {
        p
    } else if base.len() == 0 || is_sep(style, base.last()) {
        base + p
    } else {
        base + seq![main_sep(style)] + p
    }
}

/// Resolves `p` against the directory `base`.
pub fn join_path(base: &str, p: &str, style: PathStyle) -> (r: String)
    ensures
        r@ == joined(style, base@, p@),
{
    let pv = chars_of(p);
    let drive = starts_with_drive(style, &pv);
    if (pv.len() > 0 && is_separator(style, pv[0])) || drive {
        return p.to_owned();
    }
    let bv = chars_of(base);
    if bv.len() == 0 || is_separator(style, bv[bv.len() - 1]) {
        base.to_owned().concat(p)
    } else if style == PathStyle::Windows {
        let r = base.to_owned().concat("\\").concat(p);
        proof {
            reveal_strlit("\\");
        }
        assert(r@ =~= base@ + seq![main_sep(style)] + p@);
        r
    } else {
        let r = base.to_owned().concat("/").concat(p);
        proof {
            reveal_strlit("/");
        }
        assert(r@ =~= base@ + seq![main_sep(style)] + p@);
        r
    }
}

/// The directory that must exist for the destination `file_name` to be
/// written: its parent once resolved against the working directory `cwd`
/// and cleaned. None where the cleaned path has no parent.
pub fn destination_parent(cwd: &str, file_name: &str, style: PathStyle) -> (r: Option<String>)
    ensures
        match r {
            Some(d) => parent_of(style, cleaned(joined(style, cwd@, file_name@))) == Some(d@),
            None => parent_of(style, cleaned(joined(style, cwd@, file_name@))) is None,
        },
{
    let full = join_path(cwd, file_name, style);
    let clean = clean_path(full.as_str());
    parent(clean.as_str(), style)
}

/// Where the records go, as found before the walk.
#[derive(Debug)]
pub enum Destination {
    /// Standard output.
    Stdout,
    /// A file whose parent directory is `dir`; `exists` tells whether that
    /// directory exists.
    File { dir: String, exists: bool },
    /// A file whose path has no parent.
    NoParent,
}

/// Why a run stopped before its walk.
#[derive(Debug)]
pub enum PreflightError {
    /// The destination's parent directory does not exist; it carries that
    /// directory, or nothing where the destination has no parent.
    InvalidDestination(Option<String>),
    /// The path to walk is not a directory.
    NotADirectory,
}

/// Decides whether a run may walk: the destination is checked first, then
/// the root. The walk happens only on `Ok`.
pub fn preflight(destination: Destination, root_is_dir: bool) -> (r: Result<(), PreflightError>)
    ensures
        match destination {
            Destination::NoParent => r matches Err(PreflightError::InvalidDestination(None)),
            Destination::File { dir, exists: false } => r matches Err(
                PreflightError::InvalidDestination(Some(d)),
            ) && d@ == dir@,
            _ => if root_is_dir {
                r is Ok
            } else {
                r matches Err(PreflightError::NotADirectory)
            },
        },
{
    match destination {
        Destination::NoParent => return Err(PreflightError::InvalidDestination(None)),
        Destination::File { dir, exists } => {
            if !exists {
                return Err(PreflightError::InvalidDestination(Some(dir)));
            }
        },
        Destination::Stdout => {},
    }
    if root_is_dir {
        Ok(())
    } else {
        Err(PreflightError::NotADirectory)
    }
}

/// The records of one run, with where and how they are to be written.
#[derive(Debug)]
pub struct RecordSet {
    file_name: Option<String>,
    out_type: OutType,
    run_date: String,
    policy: TimestampPolicy,
    set: Vec<Record>,
}

pub ghost struct RecordSetView {
    pub file_name: Option<Seq<char>>,
    pub out_type: OutType,
    pub run_date: Seq<char>,
    pub policy: TimestampPolicy,
    pub records: Seq<RecordView>,
}

impl View for RecordSet {
    type V = RecordSetView;

    closed spec fn view(&self) -> RecordSetView {
        RecordSetView {
            file_name: match self.file_name {
                Some(f) => Some(f@),
                None => None,
            },
            out_type: self.out_type,
            run_date: self.run_date@,
            policy: self.policy,
            records: views(self.set@),
        }
    }
}

impl RecordSet {
    /// Every record of the set carries the set's run date, has a name, and
    /// describes a file.
    pub open spec fn wf(&self) -> bool {
        forall|i: int|
            0 <= i < self@.records.len() ==> {
                &&& (#[trigger] self@.records[i]).run_date == self@.run_date
                &&& self@.records[i].full_name.len() > 0
                &&& !self@.records[i].is_directory
            }
    }

    /// An empty set for a run stamped `run_date`.
    pub fn new(
        file_name: Option<String>,
        out_type: OutType,
        run_date: String,
        policy: TimestampPolicy,
    ) -> (r: Self)
        ensures
            r.wf(),
            r@.file_name == (match file_name {
                Some(f) => Some(f@),
                None => None::<Seq<char>>,
            }),
            r@.out_type == out_type,
            r@.run_date == run_date@,
            r@.policy == policy,
            r@.records == Seq::<RecordView>::empty(),
    {
        let set: Vec<Record> = Vec::with_capacity(20);
        let r = RecordSet { file_name, out_type, run_date, policy, set };
        assert(r@.records =~= Seq::<RecordView>::empty());
        r
    }

    /// An empty set for a run that starts now: the current local date and
    /// time stamps every record that the set will hold.
    pub fn start(file_name: Option<String>, out_type: OutType, policy: TimestampPolicy) -> (r: Self)
        ensures
            r.wf(),
            r@.file_name == (match file_name {
                Some(f) => Some(f@),
                None => None::<Seq<char>>,
            }),
            r@.out_type == out_type,
            r@.policy == policy,
            r@.run_date.len() > 0,
            r@.records == Seq::<RecordView>::empty(),
    {
        RecordSet::new(file_name, out_type, now_local_text(), policy)
    }

    /// Adds the record of `entry` where it is a file. On an error the set
    /// is left as it was.
    pub fn add_entry(&mut self, entry: &Entry) -> (r: Result<(), MetadataError>)
        requires
            old(self).wf(),
        ensures
            final(self).wf(),
            final(self)@.file_name == old(self)@.file_name,
            final(self)@.out_type == old(self)@.out_type,
            final(self)@.run_date == old(self)@.run_date,
            final(self)@.policy == old(self)@.policy,
            match record_step(old(self)@.records, entry@, old(self)@.run_date, old(self)@.policy) {
                Ok(rs) => r is Ok && final(self)@.records == rs,
                Err(err) => r == Err::<(), _>(err) && final(self)@.records == old(self)@.records,
            },
    {
        push_entry(&mut self.set, entry, self.run_date.as_str(), self.policy)
    }

    /// The records, in the order they were added.
    pub fn records(&self) -> (r: &Vec<Record>)
        ensures
            views(r@) == self@.records,
    {
        &self.set
    }

    /// The file to write to; standard output where none.
    pub fn file_name(&self) -> (r: &Option<String>)
        ensures
            self@.file_name == (match r {
                Some(f) => Some(f@),
                None => None::<Seq<char>>,
            }),
    {
        &self.file_name
    }

    /// How the records are to be written.
    pub fn out_type(&self) -> (r: OutType)
        ensures
            r == self@.out_type,
    {
        self.out_type
    }

    /// The date stamped on every record.
    pub fn run_date(&self) -> (r: &str)
        ensures
            r@ == self@.run_date,
    {
        self.run_date.as_str()
    }
}

} // verus!
