//! Loading the task file: which paths are accepted, how a file's bytes become
//! text, and when a reload may skip reading or parsing because the source has
//! not changed.
//!
//! The file system is probed by the caller; the functions here decide on what
//! the probes found.

use vstd::prelude::*;
use vstd::utf8::{decode_utf8, decode_utf8_encode_utf8, encode_utf8, valid_utf8};

use crate::model::Snapshot;

verus! {

/// A file modification time, in nanoseconds from the Unix epoch (negative
/// before it).
#[derive(Clone, Copy, Debug, PartialEq, Eq, PartialOrd, Ord, Hash, Structural)]
pub struct Timestamp {
    pub nanos_since_epoch: i128,
}

/// The BLAKE3 digest of a source file's bytes.
#[derive(Clone, Copy, Debug, PartialEq, Eq, Hash)]
pub struct Checksum {
    pub bytes: [u8; 32],
}

/// What was known of the source when it was last read.
#[derive(Clone, Copy, Debug, PartialEq, Eq, Hash)]
pub struct SourceState {
    pub modified_at: Timestamp,
    pub checksum: Checksum,
}

/// Why a file system operation failed.
#[derive(Clone, Copy, Debug, PartialEq, Eq, Hash, Structural)]
pub enum IoFailureKind {
    NotFound,
    Other,
}

/// A failed file system operation.
#[derive(Clone, Debug, PartialEq, Eq)]
pub struct IoFailure {
    pub kind: IoFailureKind,
    pub message: String,
}

/// Where the bytes of a file stop being UTF-8.
#[derive(Clone, Copy, Debug, PartialEq, Eq, Hash, Structural)]
pub struct Utf8Failure {
    /// The length of the longest valid UTF-8 prefix.
    pub valid_up_to: usize,
}

/// A YAML document that does not describe a snapshot.
#[derive(Clone, Debug, PartialEq, Eq)]
pub struct YamlError {
    pub message: String,
}

#[derive(Clone, Debug, PartialEq, Eq)]
pub enum ParseError {
    InvalidYaml(YamlError),
}

#[allow(inconsistent_fields)]
#[derive(Clone, Debug, PartialEq, Eq)]
pub enum LoadError {
    InvalidExtension { path: String },
    MissingDefaultPaths,
    MissingPath { path: String },
    DirectoryPath { path: String },
    BrokenSymlink { path: String },
    Metadata { path: String, source: IoFailure },
    ModifiedTime { path: String, source: IoFailure },
    Read { path: String, source: IoFailure },
    InvalidUtf8 { path: String, source: Utf8Failure },
    Parse(ParseError),
}

/// The result of looking at the source again.
#[derive(Clone, Debug, PartialEq, Eq)]
pub enum ReadOutcome {
    /// A new snapshot was parsed.
    Loaded { snapshot: Snapshot, source_state: SourceState },
    /// The source holds what was last loaded.
    Unchanged { source_state: SourceState },
    /// The source changed but does not parse; the last snapshot stays.
    Rejected { error: ParseError, source_state: SourceState },
}

/// What a look at the path itself (not following a final symlink) found.
#[derive(Clone, Copy, Debug, PartialEq, Eq, Hash, Structural)]
pub struct PathFacts {
    pub is_symlink: bool,
    /// Whether the path, following symlinks, exists.
    pub target_exists: bool,
    pub is_dir: bool,
}

// ---------------------------------------------------------------------------
// Outside computations.
// ---------------------------------------------------------------------------
/// The BLAKE3 digest of `data`, as `blake3::hash` computes it.
pub uninterp spec fn blake3_digest(data: Seq<u8>) -> Seq<u8>;

/// The position of the last `c` in `s`, or -1 when there is none.
pub open spec fn last_index_of(s: Seq<char>, c: char) -> int
    decreases s.len(),
{
    if s.len() == 0 {
        -1
    } else if s.last() == c {
        s.len() - 1
    } else {
        last_index_of(s.drop_last(), c)
    }
}

/// The last `c` of `s` lies in `s`.
pub proof fn lemma_last_index_in_range(s: Seq<char>, c: char)
    ensures
        -1 <= last_index_of(s, c) < s.len(),
    decreases s.len(),
{
    if s.len() > 0 && s.last() != c {
        lemma_last_index_in_range(s.drop_last(), c);
    }
}

/// The file name of a Unix path: its last `/`-separated segment that is
/// neither empty nor `.`; none when there is no such segment or it is `..`.
pub open spec fn path_file_name(path: Seq<char>) -> Option<Seq<char>>
    decreases path.len(),
{
    let k = last_index_of(path, '/');
    let segment = path.skip(k + 1);
    if segment.len() == 0 || segment == seq!['.'] {
        if k < 0 {
            None
        } else {
            proof {
                lemma_last_index_in_range(path, '/');
            }
            path_file_name(path.take(k))
        }
    } else if segment == seq!['.', '.'] {
        None
    } else {
        Some(segment)
    }
}

/// The extension of `path`, as `std::path::Path::extension` finds it: the
/// part of the file name after its last `.`; none when there is no file
/// name, no `.` in it, or only a leading one.
pub open spec fn path_extension(path: Seq<char>) -> Option<Seq<char>> {
    match path_file_name(path) {
        None => None,
        Some(name) => {
            let k = last_index_of(name, '.');
            if k <= 0 {
                None
            } else {
                Some(name.skip(k + 1))
            }
        },
    }
}

/// Calls `blake3::hash` and returns the digest's bytes; the contract claims
/// that they are the BLAKE3 digest of `data`, a function of `data` alone.
#[verifier::external_body]
fn blake3_hash(data: &[u8]) -> (r: [u8; 32])
    ensures
        r@ == blake3_digest(data@),
{
    blake3::hash(data).into()
}

/// Calls `std::path::Path::extension` on `path`; the contract claims what
/// std documents for a Unix path: the text after the last `.` of the file
/// name (see [`path_extension`]). The path is a `&str`, so the lossy
/// conversion of the extension back to text changes nothing.
#[verifier::external_body]
fn std_path_extension(path: &str) -> (r: Option<String>)
    ensures
        string_opt_view(r) == path_extension(path@),
{
    match std::path::Path::new(path).extension() {
        Some(ext) => Some(ext.to_string_lossy().into_owned()),
        None => None,
    }
}

/// Calls `String::from_utf8`; as std documents, it succeeds exactly on valid
/// UTF-8 and then holds the decoded characters; on failure the contract gives
/// `Utf8Error::valid_up_to`, the length of the longest valid UTF-8 prefix.
#[verifier::external_body]
fn std_string_from_utf8(bytes: Vec<u8>) -> (r: Result<String, usize>)
    ensures
        r is Ok <==> valid_utf8(bytes@),
        r matches Ok(s) ==> s@ == decode_utf8(bytes@),
        r matches Err(n) ==> n <= bytes@.len() && valid_utf8(bytes@.take(n as int)) && forall|k: int|
            n < k <= bytes@.len() ==> !valid_utf8(#[trigger] bytes@.take(k)),
{
    match String::from_utf8(bytes) {
        Ok(s) => Ok(s),
        Err(e) => Err(e.utf8_error().valid_up_to()),
    }
}

/// The view of an optional string.
pub open spec fn string_opt_view(s: Option<String>) -> Option<Seq<char>> {
    match s {
        Some(s) => Some(s@),
        None => None,
    }
}

// ---------------------------------------------------------------------------
// Paths.
// ---------------------------------------------------------------------------
/// Task files are YAML: the extension must be `yaml` or `yml`.
pub open spec fn is_yaml_extension_spec(ext: Option<Seq<char>>) -> bool {
    ext == Some("yaml"@) || ext == Some("yml"@)
}

/// `r` is the verdict on the extension of `path`: accepted exactly when it is
/// a YAML extension, else an `InvalidExtension` error naming the path.
pub open spec fn extension_checked(path: Seq<char>, r: Result<(), LoadError>) -> bool {
    &&& r is Ok <==> is_yaml_extension_spec(path_extension(path))
    &&& r is Err ==> (r matches Err(LoadError::InvalidExtension { path: p }) && p@ == path)
}

/// `r` is the verdict on a source path given what a look at it found: it
/// must exist, must not be a dangling symlink and must not be a directory.
pub open spec fn path_checked(
    path: Seq<char>,
    probe: Result<PathFacts, IoFailure>,
    r: Result<(), LoadError>,
) -> bool {
    match probe {
        Err(failure) => match failure.kind {
            IoFailureKind::NotFound => r matches Err(LoadError::MissingPath { path: p }) && p@
                == path,
            IoFailureKind::Other => r matches Err(LoadError::Metadata { path: p, source }) && p@
                == path && source == failure,
        },
        Ok(facts) => if facts.is_symlink && !facts.target_exists {
            r matches Err(LoadError::BrokenSymlink { path: p }) && p@ == path
        } else if facts.is_dir {
            r matches Err(LoadError::DirectoryPath { path: p }) && p@ == path
        } else {
            r is Ok
        },
    }
}

/// `r` is the text of a file at `path` holding `bytes`: their UTF-8 decoding,
/// or an `InvalidUtf8` error giving the longest valid prefix.
pub open spec fn text_decoded(path: Seq<char>, bytes: Seq<u8>, r: Result<String, LoadError>) -> bool {
    &&& r is Ok <==> valid_utf8(bytes)
    &&& r matches Ok(text) ==> text@ == decode_utf8(bytes)
    &&& r matches Err(e) ==> (e matches LoadError::InvalidUtf8 { path: p, source } && p@ == path
        && source.valid_up_to <= bytes.len() && valid_utf8(bytes.take(source.valid_up_to as int))
        && forall|k: int|
        source.valid_up_to < k <= bytes.len() ==> !valid_utf8(#[trigger] bytes.take(k)))
}

/// Whether an extension is one of a YAML file.
pub fn is_yaml_extension(ext: Option<&str>) -> (r: bool)
    ensures
        r == is_yaml_extension_spec(match ext {
            Some(e) => Some(e@),
            None => None,
        }),
{
    match ext {
        Some(e) => {
            let s = e.to_owned();
            let yaml = "yaml".to_owned();
            let yml = "yml".to_owned();
            proof {
                reveal_strlit("yaml");
                reveal_strlit("yml");
            }
            s == yaml || s == yml
        },
        None => false,
    }
}

/// Accepts a path with a YAML extension.
pub fn validate_yaml_extension(path: &str) -> (r: Result<(), LoadError>)
    ensures
        extension_checked(path@, r),
{
    let ext = std_path_extension(path);
    let ok = match &ext {
        Some(e) => is_yaml_extension(Some(e.as_str())),
        None => is_yaml_extension(None),
    };
    if ok {
        Ok(())
    } else {
        Err(LoadError::InvalidExtension { path: path.to_owned() })
    }
}

/// The error, if any, for a source path given what a look at it found:
/// it must exist, must not be a dangling symlink and must not be a directory.
pub fn check_source_path(path: &str, probe: Result<PathFacts, IoFailure>) -> (r: Result<
    (),
    LoadError,
>)
    ensures
        path_checked(path@, probe, r),
{
    match probe {
        Err(failure) => match failure.kind {
            IoFailureKind::NotFound => Err(LoadError::MissingPath { path: path.to_owned() }),
            IoFailureKind::Other => Err(LoadError::Metadata { path: path.to_owned(), source: failure }),
        },
        Ok(facts) => {
            if facts.is_symlink && !facts.target_exists {
                Err(LoadError::BrokenSymlink { path: path.to_owned() })
            } else if facts.is_dir {
                Err(LoadError::DirectoryPath { path: path.to_owned() })
            } else {
                Ok(())
            }
        },
    }
}

/// The text of a task file read from `path`, which must be UTF-8.
pub fn decode_tasks_text(path: &str, bytes: Vec<u8>) -> (r: Result<String, LoadError>)
    ensures
        text_decoded(path@, bytes@, r),
{
    match std_string_from_utf8(bytes) {
        Ok(text) => Ok(text),
        Err(valid_up_to) => Err(
            LoadError::InvalidUtf8 { path: path.to_owned(), source: Utf8Failure { valid_up_to } },
        ),
    }
}

// ---------------------------------------------------------------------------
// Reload gating.
// ---------------------------------------------------------------------------
/// Two checksums are the same digest.
pub fn same_checksum(a: &Checksum, b: &Checksum) -> (r: bool)
    ensures
        r == (a.bytes@ == b.bytes@),
{
    let mut i: usize = 0;
    while i < 32
        invariant
            i <= 32,
            a.bytes@.len() == 32,
            b.bytes@.len() == 32,
            forall|j: int| 0 <= j < i ==> a.bytes@[j] == b.bytes@[j],
        decreases 32 - i,
    {
        if a.bytes[i] != b.bytes[i] {
            return false;
        }
        i += 1;
    }
    assert(a.bytes@ =~= b.bytes@);
    true
}

/// The state kept when the modification time is the one last seen.
pub open spec fn gate_on_modified_time_spec(modified_at: Timestamp, previous: Option<SourceState>) -> Option<
    SourceState,
> {
    match previous {
        Some(p) => if p.modified_at == modified_at {
            Some(p)
        } else {
            None
        },
        None => None,
    }
}

/// The outcome of parsing changed content.
pub open spec fn settle_parse_spec(
    parsed: Result<Snapshot, ParseError>,
    source_state: SourceState,
    previous: Option<SourceState>,
) -> Result<ReadOutcome, LoadError> {
    match parsed {
        Ok(snapshot) => Ok(ReadOutcome::Loaded { snapshot, source_state }),
        Err(error) => if previous is Some {
            Ok(ReadOutcome::Rejected { error, source_state })
        } else {
            Err(LoadError::Parse(error))
        },
    }
}

/// When the modification time is the one last seen, the source counts as
/// unchanged and the previous state is kept; nothing is read.
pub fn gate_on_modified_time(modified_at: Timestamp, previous: Option<&SourceState>) -> (r: Option<
    SourceState,
>)
    ensures
        r == gate_on_modified_time_spec(
            modified_at,
            match previous {
                Some(p) => Some(*p),
                None => None,
            },
        ),
{
    match previous {
        Some(p) => if p.modified_at == modified_at {
            Some(*p)
        } else {
            None
        },
        None => None,
    }
}

/// The state of a source modified at `modified_at` that holds `text`.
pub fn source_state_of(modified_at: Timestamp, text: &str) -> (r: SourceState)
    ensures
        r.modified_at == modified_at,
        r.checksum.bytes@ == blake3_digest(encode_utf8(text@)),
{
    let bytes = blake3_hash(text.as_bytes());
    SourceState { modified_at, checksum: Checksum { bytes } }
}

/// When the content hashes to the checksum last seen, the source counts as
/// unchanged (only its time moved) and nothing is parsed.
pub fn gate_on_checksum(source_state: &SourceState, previous: Option<&SourceState>) -> (r: bool)
    ensures
        r == (previous matches Some(p) && p.checksum.bytes@ == source_state.checksum.bytes@),
{
    match previous {
        Some(p) => same_checksum(&source_state.checksum, &p.checksum),
        None => false,
    }
}

/// The outcome of parsing changed content: a snapshot is loaded; a parse
/// failure on a reload is reported as rejected (the caller keeps its last
/// good snapshot); a parse failure on the first load is an error.
pub fn settle_parse(
    parsed: Result<Snapshot, ParseError>,
    source_state: SourceState,
    previous: Option<&SourceState>,
) -> (r: Result<ReadOutcome, LoadError>)
    ensures
        r == settle_parse_spec(
            parsed,
            source_state,
            match previous {
                Some(p) => Some(*p),
                None => None,
            },
        ),
{
    match parsed {
        Ok(snapshot) => Ok(ReadOutcome::Loaded { snapshot, source_state }),
        Err(error) => if previous.is_some() {
            Ok(ReadOutcome::Rejected { error, source_state })
        } else {
            Err(LoadError::Parse(error))
        },
    }
}

// ---------------------------------------------------------------------------
// One look at the source, step by step.
// ---------------------------------------------------------------------------
/// What the modification-time lookup found.
#[derive(Clone, Debug, PartialEq, Eq)]
pub enum StatReply {
    /// The file's metadata could not be read.
    MetadataFailed(IoFailure),
    /// The metadata has no modification time.
    ModifiedTimeFailed(IoFailure),
    ModifiedAt(Timestamp),
}

/// What the caller found when it did what a read asked for.
#[derive(Debug, PartialEq, Eq)]
pub enum ReadReply {
    Probed(Result<PathFacts, IoFailure>),
    Stat(StatReply),
    Bytes(Result<Vec<u8>, IoFailure>),
    Parsed(Result<Snapshot, ParseError>),
}

/// What a read needs next.
#[derive(Debug, PartialEq, Eq)]
pub enum ReadRequest {
    /// Look at the path itself, not following a final symlink.
    ProbePath,
    /// Look up the file's modification time.
    Stat,
    /// Read the file's bytes.
    ReadBytes,
    /// Parse this text into a snapshot.
    Parse(String),
    /// The read is over, with this result.
    Finished(Result<ReadOutcome, LoadError>),
}

/// Where a read stands.
#[derive(Clone, Copy, Debug, PartialEq, Eq)]
pub enum ReadStage {
    /// The path is being checked before its time is looked up.
    ProbeBeforeStat,
    /// Its modification time is being looked up.
    Stat,
    /// The path is being checked again before it is read.
    ProbeBeforeRead(Timestamp),
    /// The file is being read.
    Read(Timestamp),
    /// The changed text is being parsed.
    Parse(SourceState),
    Finished,
}

/// One look at the task file: the path is checked, its modification time
/// looked up, and the file read and parsed only when it may have changed
/// since `previous` (the state of the last read).
pub struct SourceRead {
    path: String,
    previous: Option<SourceState>,
    stage: ReadStage,
}

/// The reply that a stage waits for.
pub open spec fn stage_accepts(stage: ReadStage, reply: ReadReply) -> bool {
    match (stage, reply) {
        (ReadStage::ProbeBeforeStat, ReadReply::Probed(_)) => true,
        (ReadStage::ProbeBeforeRead(_), ReadReply::Probed(_)) => true,
        (ReadStage::Stat, ReadReply::Stat(_)) => true,
        (ReadStage::Read(_), ReadReply::Bytes(_)) => true,
        (ReadStage::Parse(_), ReadReply::Parsed(_)) => true,
        _ => false,
    }
}

/// The state of a source modified at `modified_at` holding `bytes`.
pub open spec fn state_of(modified_at: Timestamp, bytes: Seq<u8>, state: SourceState) -> bool {
    state.modified_at == modified_at && state.checksum.bytes@ == blake3_digest(bytes)
}

/// The request asks for `stage`'s reply, or the stage is over and the
/// request says how.
pub open spec fn asks_for(stage: ReadStage, request: ReadRequest) -> bool {
    match stage {
        ReadStage::ProbeBeforeStat => request == ReadRequest::ProbePath,
        ReadStage::ProbeBeforeRead(_) => request == ReadRequest::ProbePath,
        ReadStage::Stat => request == ReadRequest::Stat,
        ReadStage::Read(_) => request == ReadRequest::ReadBytes,
        ReadStage::Parse(_) => request is Parse,
        ReadStage::Finished => request is Finished,
    }
}

/// A first read, with no previous state, either fails or loads a snapshot:
/// it never finds the source unchanged, nor rejects it.
pub open spec fn first_read_result(request: ReadRequest) -> bool {
    request matches ReadRequest::Finished(Ok(outcome)) ==> outcome is Loaded
}

impl SourceRead {
    pub closed spec fn spec_path(&self) -> Seq<char> {
        self.path@
    }

    pub closed spec fn spec_previous(&self) -> Option<SourceState> {
        self.previous
    }

    pub closed spec fn spec_stage(&self) -> ReadStage {
        self.stage
    }

    /// Starts a look at the source at `path`: a path without a YAML extension
    /// ends it at once, else the path is to be probed.
    pub fn start(path: &str, previous: Option<SourceState>) -> (r: (SourceRead, ReadRequest))
        ensures
            r.0.spec_path() == path@,
            r.0.spec_previous() == previous,
            asks_for(r.0.spec_stage(), r.1),
            match r.1 {
                ReadRequest::Finished(Err(e)) => extension_checked(path@, Err(e)),
                ReadRequest::ProbePath => extension_checked(path@, Ok(()))
                    && r.0.spec_stage() == ReadStage::ProbeBeforeStat,
                _ => false,
            },
    {
        let read = |stage: ReadStage| -> (s: SourceRead)
            ensures
                s.path@ == path@,
                s.previous == previous,
                s.stage == stage,
            { SourceRead { path: path.to_owned(), previous, stage } };
        match validate_yaml_extension(path) {
            Err(e) => (read(ReadStage::Finished), ReadRequest::Finished(Err(e))),
            Ok(()) => (read(ReadStage::ProbeBeforeStat), ReadRequest::ProbePath),
        }
    }

    /// Whether `reply` is what this read waits for.
    pub fn accepts(&self, reply: &ReadReply) -> (r: bool)
        ensures
            r == stage_accepts(self.spec_stage(), *reply),
    {
        match (&self.stage, reply) {
            (ReadStage::ProbeBeforeStat, ReadReply::Probed(_)) => true,
            (ReadStage::ProbeBeforeRead(_), ReadReply::Probed(_)) => true,
            (ReadStage::Stat, ReadReply::Stat(_)) => true,
            (ReadStage::Read(_), ReadReply::Bytes(_)) => true,
            (ReadStage::Parse(_), ReadReply::Parsed(_)) => true,
            _ => false,
        }
    }

    /// Takes in what the caller found and says what to do next.
    pub fn step(&mut self, reply: ReadReply) -> (r: ReadRequest)
        requires
            stage_accepts(old(self).spec_stage(), reply),
        ensures
            final(self).spec_path() == old(self).spec_path(),
            final(self).spec_previous() == old(self).spec_previous(),
            asks_for(final(self).spec_stage(), r),
            old(self).spec_previous() is None ==> first_read_result(r),
            ({
                let path = old(self).spec_path();
                let previous = old(self).spec_previous();
                let stage = final(self).spec_stage();
                match (old(self).spec_stage(), reply) {
                    (ReadStage::ProbeBeforeStat, ReadReply::Probed(probe)) => match r {
                        ReadRequest::Finished(Err(e)) => path_checked(path, probe, Err(e)),
                        ReadRequest::Stat => path_checked(path, probe, Ok(())),
                        _ => false,
                    },
                    (ReadStage::ProbeBeforeRead(t), ReadReply::Probed(probe)) => match r {
                        ReadRequest::Finished(Err(e)) => path_checked(path, probe, Err(e)),
                        ReadRequest::ReadBytes => path_checked(path, probe, Ok(()))
                            && stage == ReadStage::Read(t),
                        _ => false,
                    },
                    (ReadStage::Stat, ReadReply::Stat(found)) => match found {
                        StatReply::MetadataFailed(f) => r matches ReadRequest::Finished(
                            Err(LoadError::Metadata { path: p, source }),
                        ) && p@ == path && source == f,
                        StatReply::ModifiedTimeFailed(f) => r matches ReadRequest::Finished(
                            Err(LoadError::ModifiedTime { path: p, source }),
                        ) && p@ == path && source == f,
                        StatReply::ModifiedAt(t) => match gate_on_modified_time_spec(t, previous) {
                            Some(kept) => r == ReadRequest::Finished(
                                Ok(ReadOutcome::Unchanged { source_state: kept }),
                            ),
                            None => r == ReadRequest::ProbePath && stage
                                == ReadStage::ProbeBeforeRead(t),
                        },
                    },
                    (ReadStage::Read(t), ReadReply::Bytes(read)) => match read {
                        Err(f) => r matches ReadRequest::Finished(
                            Err(LoadError::Read { path: p, source }),
                        ) && p@ == path && source == f,
                        Ok(bytes) => if !valid_utf8(bytes@) {
                            r matches ReadRequest::Finished(Err(e)) && text_decoded(
                                path,
                                bytes@,
                                Err(e),
                            )
                        } else if previous matches Some(p) && p.checksum.bytes@ == blake3_digest(
                            bytes@,
                        ) {
                            r matches ReadRequest::Finished(
                                Ok(ReadOutcome::Unchanged { source_state: s }),
                            ) && state_of(t, bytes@, s)
                        } else {
                            &&& (r matches ReadRequest::Parse(text) && text@ == decode_utf8(
                                bytes@,
                            ))
                            &&& (stage matches ReadStage::Parse(s) && state_of(t, bytes@, s))
                        },
                    },
                    (ReadStage::Parse(state), ReadReply::Parsed(parsed)) => r
                        == ReadRequest::Finished(settle_parse_spec(parsed, state, previous)),
                    _ => false,
                }
            }),
    {
        let path = self.path.as_str();
        let previous = self.previous;
        match (self.stage, reply) {
            (ReadStage::ProbeBeforeStat, ReadReply::Probed(probe)) => {
                match check_source_path(path, probe) {
                    Err(e) => {
                        self.stage = ReadStage::Finished;
                        ReadRequest::Finished(Err(e))
                    },
                    Ok(()) => {
                        self.stage = ReadStage::Stat;
                        ReadRequest::Stat
                    },
                }
            },
            (ReadStage::ProbeBeforeRead(t), ReadReply::Probed(probe)) => {
                match check_source_path(path, probe) {
                    Err(e) => {
                        self.stage = ReadStage::Finished;
                        ReadRequest::Finished(Err(e))
                    },
                    Ok(()) => {
                        self.stage = ReadStage::Read(t);
                        ReadRequest::ReadBytes
                    },
                }
            },
            (ReadStage::Stat, ReadReply::Stat(found)) => match found {
                StatReply::MetadataFailed(f) => {
                    let e = LoadError::Metadata { path: path.to_owned(), source: f };
                    self.stage = ReadStage::Finished;
                    ReadRequest::Finished(Err(e))
                },
                StatReply::ModifiedTimeFailed(f) => {
                    let e = LoadError::ModifiedTime { path: path.to_owned(), source: f };
                    self.stage = ReadStage::Finished;
                    ReadRequest::Finished(Err(e))
                },
                StatReply::ModifiedAt(t) => match gate_on_modified_time(t, previous.as_ref()) {
                    Some(kept) => {
                        self.stage = ReadStage::Finished;
                        ReadRequest::Finished(Ok(ReadOutcome::Unchanged { source_state: kept }))
                    },
                    None => {
                        self.stage = ReadStage::ProbeBeforeRead(t);
                        ReadRequest::ProbePath
                    },
                },
            },
            (ReadStage::Read(t), ReadReply::Bytes(read)) => match read {
                Err(f) => {
                    let e = LoadError::Read { path: path.to_owned(), source: f };
                    self.stage = ReadStage::Finished;
                    ReadRequest::Finished(Err(e))
                },
                Ok(bytes) => {
                    let ghost raw = bytes@;
                    match decode_tasks_text(path, bytes) {
                        Err(e) => {
                            self.stage = ReadStage::Finished;
                            ReadRequest::Finished(Err(e))
                        },
                        Ok(text) => {
                            let source_state = source_state_of(t, text.as_str());
                            proof {
                                decode_utf8_encode_utf8(raw);
                            }
                            if gate_on_checksum(&source_state, previous.as_ref()) {
                                self.stage = ReadStage::Finished;
                                ReadRequest::Finished(Ok(ReadOutcome::Unchanged { source_state }))
                            } else {
                                self.stage = ReadStage::Parse(source_state);
                                ReadRequest::Parse(text)
                            }
                        },
                    }
                },
            },
            (ReadStage::Parse(state), ReadReply::Parsed(parsed)) => {
                self.stage = ReadStage::Finished;
                ReadRequest::Finished(settle_parse(parsed, state, previous.as_ref()))
            },
            _ => {
                proof {
                    assert(false);
                }
                ReadRequest::ProbePath
            },
        }
    }
}

// ---------------------------------------------------------------------------
// Error messages.
// ---------------------------------------------------------------------------
/// The message of a parse error.
pub open spec fn parse_error_text(e: ParseError) -> Seq<char> {
    match e {
        ParseError::InvalidYaml(y) => "failed to parse YAML snapshot: "@ + y.message@,
    }
}

/// The message of a load error.
pub open spec fn load_error_text(e: LoadError) -> Seq<char> {
    match e {
        LoadError::InvalidExtension { path } => "source path has unsupported extension: "@
            + path@,
        LoadError::MissingDefaultPaths =>
            "no default task file found; checked data/tasks.yml and data/tasks.yaml"@,
        LoadError::MissingPath { path } => "source path does not exist: "@ + path@,
        LoadError::DirectoryPath { path } => "source path is a directory: "@ + path@,
        LoadError::BrokenSymlink { path } => "source path is a broken symlink: "@ + path@,
        LoadError::Metadata { path, source } => "failed to read source metadata for "@ + path@
            + ": "@ + source.message@,
        LoadError::ModifiedTime { path, source } => "failed to determine modified time for "@
            + path@ + ": "@ + source.message@,
        LoadError::Read { path, source } => "failed to read source file "@ + path@ + ": "@
            + source.message@,
        LoadError::InvalidUtf8 { path, source } => "source file is not valid UTF-8: "@ + path@,
        LoadError::Parse(error) => parse_error_text(error),
    }
}

/// `prefix` followed by `rest`.
fn joined(prefix: &str, rest: &str) -> (r: String)
    ensures
        r@ == prefix@ + rest@,
{
    let mut s = String::from_str(prefix);
    s.append(rest);
    s
}

/// `a`, then `path`, then `b`, then `message`.
fn joined4(a: &str, path: &str, b: &str, message: &str) -> (r: String)
    ensures
        r@ == a@ + path@ + b@ + message@,
{
    let mut s = String::from_str(a);
    s.append(path);
    s.append(b);
    s.append(message);
    s
}

impl ParseError {
    /// The message shown for this error.
    pub fn message(&self) -> (r: String)
        ensures
            r@ == parse_error_text(*self),
    {
        match self {
            ParseError::InvalidYaml(y) => joined("failed to parse YAML snapshot: ", y.message.as_str()),
        }
    }
}

impl LoadError {
    /// The message shown for this error.
    pub fn message(&self) -> (r: String)
        ensures
            r@ == load_error_text(*self),
    {
        match self {
            LoadError::InvalidExtension { path } => joined(
                "source path has unsupported extension: ",
                path.as_str(),
            ),
            LoadError::MissingDefaultPaths => String::from_str(
                "no default task file found; checked data/tasks.yml and data/tasks.yaml",
            ),
            LoadError::MissingPath { path } => joined("source path does not exist: ", path.as_str()),
            LoadError::DirectoryPath { path } => joined(
                "source path is a directory: ",
                path.as_str(),
            ),
            LoadError::BrokenSymlink { path } => joined(
                "source path is a broken symlink: ",
                path.as_str(),
            ),
            LoadError::Metadata { path, source } => joined4(
                "failed to read source metadata for ",
                path.as_str(),
                ": ",
                source.message.as_str(),
            ),
            LoadError::ModifiedTime { path, source } => joined4(
                "failed to determine modified time for ",
                path.as_str(),
                ": ",
                source.message.as_str(),
            ),
            LoadError::Read { path, source } => joined4(
                "failed to read source file ",
                path.as_str(),
                ": ",
                source.message.as_str(),
            ),
            LoadError::InvalidUtf8 { path, .. } => joined(
                "source file is not valid UTF-8: ",
                path.as_str(),
            ),
            LoadError::Parse(error) => error.message(),
        }
    }
}

} // verus!
