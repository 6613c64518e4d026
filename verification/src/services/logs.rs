//! The application's log: its levels, its records, where its files live and which records a
//! reader sees.

use vstd::prelude::*;
use crate::error::{app_error, AppError};
use crate::sort::{key_view, sort_by_keys, sorted_by, KeyPart, KeyV};
use crate::text::{trim, trim_seq};

verus! {

broadcast use vstd::seq_lib::group_to_multiset_ensures;

pub const LOGGING_ENABLED_KEY: &'static str = "logging_enabled";

pub const LOGGING_DIRECTORY_KEY: &'static str = "logging_directory";

pub const MAX_LOG_FILES_TO_READ: usize = 3;

pub const MAX_LOG_FILE_SIZE_BYTES: u64 = 10485760;

#[derive(Debug, Clone, Copy, PartialEq, Eq, Structural)]
pub enum LogLevel {
    Error,
    Warn,
    Info,
    Debug,
}

impl LogLevel {
    pub open spec fn label(self) -> Seq<char> {
        match self {
            LogLevel::Error => "ERROR"@,
            LogLevel::Warn => "WARN"@,
            LogLevel::Info => "INFO"@,
            LogLevel::Debug => "DEBUG"@,
        }
    }

    /// The level as it is written in a record.
    pub fn as_str(self) -> (res: &'static str)
        ensures
            res@ == self.label(),
    {
        match self {
            LogLevel::Error => "ERROR",
            LogLevel::Warn => "WARN",
            LogLevel::Info => "INFO",
            LogLevel::Debug => "DEBUG",
        }
    }
}

#[derive(Debug, Clone)]
pub struct LogEntryDto {
    pub timestamp: String,
    pub level: String,
    pub source: String,
    pub message: String,
}

#[derive(Debug, Clone)]
pub struct LogStatusDto {
    pub enabled: bool,
    pub directory: String,
    pub log_file_path: Option<String>,
}

/// The parent of a path, as `std::path::Path::parent` gives it.
pub uninterp spec fn path_parent(p: Seq<char>) -> Option<Seq<char>>;

/// A path with a name appended, as `std::path::Path::join` gives it.
pub uninterp spec fn path_joined(base: Seq<char>, name: Seq<char>) -> Seq<char>;

pub open spec fn text_of(o: Option<String>) -> Option<Seq<char>> {
    match o {
        Some(s) => Some(s@),
        None => None,
    }
}

/// `std::path::Path::parent` on a path given as text: the path without its last component,
/// none for a root or empty path. The result is only named.
#[verifier::external_body]
fn parent_of(path: &str) -> (res: Option<String>)
    ensures
        text_of(res) == path_parent(path@),
{
    match std::path::Path::new(path).parent() {
        Some(p) => Some(p.to_string_lossy().into_owned()),
        None => None,
    }
}

/// `std::path::Path::join` on paths given as text. The result is only named.
#[verifier::external_body]
fn join_path(base: &str, name: &str) -> (res: String)
    ensures
        res@ == path_joined(base@, name@),
{
    std::path::Path::new(base).join(name).to_string_lossy().into_owned()
}

pub const NO_EXECUTABLE_PARENT: &'static str = "failed to resolve executable parent for log directory";

/// The default log directory: "logs" beside the executable.
pub fn default_log_directory_from_executable(executable_path: &str) -> (res: Result<String, AppError>)
    ensures
        match path_parent(executable_path@) {
            Some(p) => res matches Ok(d) && d@ == path_joined(p, "logs"@),
            None => res matches Err(AppError::Message(m)) && m@ == NO_EXECUTABLE_PARENT@,
        },
{
    match parent_of(executable_path) {
        Some(p) => Ok(join_path(p.as_str(), "logs")),
        None => Err(app_error(NO_EXECUTABLE_PARENT)),
    }
}

/// The log directory: the configured one, trimmed, unless it is blank; else the default.
pub fn resolve_log_directory(configured: &str, default_dir: String) -> (res: String)
    ensures
        res@ == if trim_seq(configured@).len() == 0 {
            default_dir@
        } else {
            trim_seq(configured@)
        },
{
    let t = trim(configured);
    if t.as_str().is_empty() {
        default_dir
    } else {
        t
    }
}

/// A record to write: the level's label, the source and message trimmed.
pub fn log_record(timestamp: String, level: LogLevel, source: &str, message: &str) -> (res: LogEntryDto)
    ensures
        res.timestamp@ == timestamp@,
        res.level@ == level.label(),
        res.source@ == trim_seq(source@),
        res.message@ == trim_seq(message@),
{
    LogEntryDto { timestamp, level: level.as_str().to_string(), source: trim(source), message: trim(message) }
}

/// Whether a log file has reached the size at which it is emptied before the next write.
pub fn log_file_is_full(size_bytes: u64) -> (res: bool)
    ensures
        res == (size_bytes >= MAX_LOG_FILE_SIZE_BYTES),
{
    size_bytes >= MAX_LOG_FILE_SIZE_BYTES
}

/// Newest first; among records with the same time, the one read first.
pub open spec fn entry_order(entries: Seq<LogEntryDto>) -> spec_fn(usize) -> Seq<KeyV> {
    |i: usize| seq![KeyV::TextRev(entries[i as int].timestamp@), KeyV::Int(i as int)]
}

/// The `limit` newest records.
pub open spec fn newest_entries_ok(entries: Seq<LogEntryDto>, limit: usize, res: Seq<LogEntryDto>) -> bool {
    exists|s: Seq<usize>|
        {
            &&& #[trigger] s.to_multiset() == Seq::new(entries.len(), |i: int| i as usize).to_multiset()
            &&& sorted_by(s, entry_order(entries))
            &&& res.len() == if s.len() < limit {
                s.len()
            } else {
                limit as nat
            }
            &&& forall|k: int| 0 <= k < res.len() ==> #[trigger] res[k] == entries[s[k] as int]
        }
}

/// The records a reader sees: the newest `limit` of them.
pub fn newest_entries(entries: &Vec<LogEntryDto>, limit: usize) -> (res: Vec<LogEntryDto>)
    ensures
        newest_entries_ok(entries@, limit, res@),
{
    let ghost es = entries@;
    let mut items: Vec<usize> = Vec::new();
    let mut keys: Vec<Vec<KeyPart>> = Vec::new();
    let mut i: usize = 0;
    while i < entries.len()
        invariant
            i <= entries@.len(),
            es == entries@,
            items@ == Seq::new(i as nat, |q: int| q as usize),
            keys@.len() == i,
            forall|k: int| 0 <= k < i ==> key_view(#[trigger] keys@[k]@) == entry_order(es)(items@[k]),
        decreases entries.len() - i,
    {
        let mut key: Vec<KeyPart> = Vec::new();
        key.push(KeyPart::TextRev(entries[i].timestamp.clone()));
        key.push(KeyPart::Int(i as i128));
        proof {
            assert(key_view(key@) =~= entry_order(es)(i));
        }
        items.push(i);
        keys.push(key);
        proof {
            assert(items@ =~= Seq::new((i + 1) as nat, |q: int| q as usize));
        }
        i = i + 1;
    }
    let ghost built = items@;
    let sorted = sort_by_keys(items, keys, Ghost(entry_order(es)));
    proof {
        assert forall|q: int| 0 <= q < sorted@.len() implies (#[trigger] sorted@[q]) < entries@.len() by {
            let x = sorted@[q];
            assert(sorted@.contains(x));
            assert(sorted@.to_multiset().count(x) > 0);
            assert(built.to_multiset().count(x) > 0);
            assert(built.contains(x));
            let j = choose|j: int| 0 <= j < built.len() && built[j] == x;
            assert(built[j] < entries@.len());
        }
    }
    let n = if sorted.len() < limit {
        sorted.len()
    } else {
        limit
    };
    let mut out: Vec<LogEntryDto> = Vec::new();
    let mut k: usize = 0;
    while k < n
        invariant
            k <= n <= sorted@.len(),
            es == entries@,
            forall|q: int| 0 <= q < sorted@.len() ==> (#[trigger] sorted@[q]) < entries@.len(),
            out@.len() == k,
            forall|q: int| 0 <= q < k ==> #[trigger] out@[q] == es[sorted@[q] as int],
        decreases n - k,
    {
        let e = &entries[sorted[k]];
        let copy = LogEntryDto {
            timestamp: e.timestamp.clone(),
            level: e.level.clone(),
            source: e.source.clone(),
            message: e.message.clone(),
        };
        out.push(copy);
        proof {
            assert(out@[k as int].timestamp@ == e.timestamp@);
        }
        k = k + 1;
    }
    out
}

} // verus!
