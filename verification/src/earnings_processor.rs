//! Pre-flight validation of an untrusted media file.
//!
//! A file is admitted to the pipeline only after four checks, applied in a
//! fixed order with the first failure winning: the path exists, the file is
//! not empty, the size is under a fixed ceiling, and the content's leading
//! magic bytes identify one of the supported audio/video formats. The file
//! name's extension is never consulted: the content decides.

use vstd::prelude::*;
use vstd::string::*;

verus! {

/// Size ceiling for an input file, in whole megabytes.
pub const MAX_FILE_SIZE_MB: u64 = 500;

/// Bytes per megabyte, the unit the size ceiling is stated in.
pub const BYTES_PER_MB: u64 = 1024 * 1024;

/// Why a media file was rejected before any network activity.
#[derive(Debug, Clone, PartialEq)]
pub enum IngestError {
    /// The path names no existing file; carries the path.
    FileNotFound(String),
    /// The file exists but holds zero bytes.
    FileEmpty,
    /// The file exceeds the size ceiling; both figures in whole megabytes.
    FileTooLarge { limit: u64, got: u64 },
    /// The content was recognised, but as a type outside the allow-list;
    /// carries the detected MIME type.
    InvalidFormat(String),
    /// No known signature matches the leading bytes.
    UnknownType,
    /// The file could not be read; carries the I/O error's message.
    Io(String),
}

/// What validation admits: the path, the MIME type sniffed from the content,
/// and the size the filesystem reported.
#[derive(Debug, Clone)]
pub struct MediaDescriptor {
    pub path: String,
    pub mime_type: String,
    pub size_bytes: u64,
}

impl MediaDescriptor {
    /// The file's size in whole megabytes, rounded down.
    pub fn size_mb(&self) -> (r: u64)
        ensures
            r == self.size_bytes / BYTES_PER_MB,
    {
        self.size_bytes / BYTES_PER_MB
    }
}

/// The MIME types the pipeline accepts: mp3, wav (either registered name),
/// m4a, and mp4.
pub open spec fn allowed_mime(m: Seq<char>) -> bool {
    ||| m == "audio/mpeg"@
    ||| m == "audio/wav"@
    ||| m == "audio/x-wav"@
    ||| m == "audio/x-m4a"@
    ||| m == "video/mp4"@
}

/// The MIME type that content sniffing assigns to a buffer's leading bytes,
/// if any signature matches. A pure function of the bytes alone.
pub uninterp spec fn sniff_spec(bytes: Seq<u8>) -> Option<Seq<char>>;

/// Relies on `std::path::Path::exists`: whether the path names an existing
/// filesystem entry at probe time. The answer depends on the disk, so
/// nothing is promised of it.
#[verifier::external_body]
pub(crate) fn path_exists(path: &str) -> bool {
    std::path::Path::new(path).exists()
}

/// Relies on `std::path::Path::metadata`: the size in bytes the filesystem
/// reports for the path, or the I/O error's message. The answer depends on
/// the disk, so nothing is promised of it.
#[verifier::external_body]
fn file_size(path: &str) -> Result<u64, String> {
    match std::path::Path::new(path).metadata() {
        Ok(m) => Ok(m.len()),
        Err(e) => Err(format!("{}", e)),
    }
}

/// Relies on `infer::get`: sniffs a MIME type from a buffer's leading magic
/// bytes. Its result is a pure function of the bytes, named `sniff_spec`.
#[verifier::external_body]
fn sniff_bytes(head: &[u8]) -> (r: Option<String>)
    ensures
        match r {
            Some(m) => sniff_spec(head@) == Some(m@),
            None => sniff_spec(head@) is None,
        },
{
    infer::get(head).map(|k| k.mime_type().to_owned())
}

/// Relies on `infer::get_from_path`: reads the file's leading bytes and
/// sniffs their MIME type; `Err` carries the I/O error's message. The answer
/// depends on the disk, so nothing is promised of it.
#[verifier::external_body]
fn sniff_file(path: &str) -> Result<Option<String>, String> {
    match infer::get_from_path(path) {
        Ok(k) => Ok(k.map(|t| t.mime_type().to_owned())),
        Err(e) => Err(format!("{}", e)),
    }
}

/// Whether a sniffed MIME type is on the allow-list.
pub fn is_allowed_mime(m: &String) -> (r: bool)
    ensures
        r == allowed_mime(m@),
{
    let mp3: String = "audio/mpeg".to_owned();
    let wav: String = "audio/wav".to_owned();
    let xwav: String = "audio/x-wav".to_owned();
    let m4a: String = "audio/x-m4a".to_owned();
    let mp4: String = "video/mp4".to_owned();
    *m == mp3 || *m == wav || *m == xwav || *m == m4a || *m == mp4
}

/// The format gate of validation, applied to whatever the sniffer returned:
/// no match rejects as `UnknownType`, a match off the allow-list rejects as
/// `InvalidFormat` with the detected type, and a match on it admits the file.
pub fn classify_sniffed(path: &str, size_bytes: u64, sniffed: Option<String>) -> (r: Result<
    MediaDescriptor,
    IngestError,
>)
    ensures
        match sniffed {
            None => r matches Err(IngestError::UnknownType),
            Some(m) => if allowed_mime(m@) {
                r matches Ok(d) && d.path@ == path@ && d.mime_type@ == m@ && d.size_bytes
                    == size_bytes
            } else {
                r matches Err(IngestError::InvalidFormat(f)) && f@ == m@
            },
        },
{
    match sniffed {
        None => Err(IngestError::UnknownType),
        Some(m) => {
            if is_allowed_mime(&m) {
                Ok(MediaDescriptor { path: path.to_owned(), mime_type: m, size_bytes })
            } else {
                Err(IngestError::InvalidFormat(m))
            }
        },
    }
}

/// The existence gate of validation, applied to the probe's answer: a
/// missing path is rejected as `FileNotFound` with that path — before any
/// size or content probing — and an existing one passes. Exactly one of the
/// two, each way round.
pub fn existence_gate(path: &str, exists: bool) -> (r: Result<(), IngestError>)
    ensures
        exists ==> r is Ok,
        !exists ==> (r matches Err(IngestError::FileNotFound(p)) && p@ == path@),
{
    if exists {
        Ok(())
    } else {
        Err(IngestError::FileNotFound(path.to_owned()))
    }
}

/// The size gates of validation, applied to the size the filesystem
/// reported: zero bytes is rejected as `FileEmpty` — whatever the file's
/// name or content claim — a size over the ceiling as `FileTooLarge` with
/// both figures in whole megabytes, and every size within the ceiling
/// passes. Exactly one of the three, each way round.
pub fn size_gate(size_bytes: u64) -> (r: Result<(), IngestError>)
    ensures
        size_bytes == 0 ==> r matches Err(IngestError::FileEmpty),
        (size_bytes > 0 && size_bytes / BYTES_PER_MB > MAX_FILE_SIZE_MB) ==> (r matches Err(
            IngestError::FileTooLarge { limit, got },
        ) && limit == MAX_FILE_SIZE_MB && got == size_bytes / BYTES_PER_MB),
        (size_bytes > 0 && size_bytes / BYTES_PER_MB <= MAX_FILE_SIZE_MB) ==> r is Ok,
{
    if size_bytes == 0 {
        return Err(IngestError::FileEmpty);
    }
    let size_mb = size_bytes / BYTES_PER_MB;
    if size_mb > MAX_FILE_SIZE_MB {
        return Err(IngestError::FileTooLarge { limit: MAX_FILE_SIZE_MB, got: size_mb });
    }
    Ok(())
}

/// The whole validation decision as a function of plain values: whether the
/// path exists, the size the filesystem reported, and the file's leading
/// bytes. The gates apply in order — existence, non-emptiness, size
/// ceiling, format — and the first failure wins, so a non-existent path is
/// rejected on existence alone and an empty file on emptiness alone,
/// whatever the other inputs hold.
pub fn validate_media(path: &str, exists: bool, size_bytes: u64, head: &[u8]) -> (r: Result<
    MediaDescriptor,
    IngestError,
>)
    ensures
        !exists ==> (r matches Err(IngestError::FileNotFound(p)) && p@ == path@),
        exists && size_bytes == 0 ==> r matches Err(IngestError::FileEmpty),
        (exists && size_bytes > 0 && size_bytes / BYTES_PER_MB > MAX_FILE_SIZE_MB) ==> (r matches
            Err(IngestError::FileTooLarge { limit, got }) && limit == MAX_FILE_SIZE_MB && got
            == size_bytes / BYTES_PER_MB),
        (exists && size_bytes > 0 && size_bytes / BYTES_PER_MB <= MAX_FILE_SIZE_MB) ==> match
            sniff_spec(head@) {
            None => r matches Err(IngestError::UnknownType),
            Some(m) => if allowed_mime(m) {
                r matches Ok(d) && d.path@ == path@ && d.mime_type@ == m && d.size_bytes
                    == size_bytes
            } else {
                r matches Err(IngestError::InvalidFormat(f)) && f@ == m
            },
        },
{
    if let Err(e) = existence_gate(path, exists) {
        return Err(e);
    }
    if let Err(e) = size_gate(size_bytes) {
        return Err(e);
    }
    let sniffed = sniff_bytes(head);
    classify_sniffed(path, size_bytes, sniffed)
}

/// Whether a rejection is one that validation of this path may produce.
pub open spec fn ingest_error_wf(e: IngestError, path: Seq<char>) -> bool {
    match e {
        IngestError::FileNotFound(p) => p@ == path,
        IngestError::FileEmpty => true,
        IngestError::FileTooLarge { limit, got } => limit == MAX_FILE_SIZE_MB && got
            > MAX_FILE_SIZE_MB,
        IngestError::InvalidFormat(m) => !allowed_mime(m@),
        IngestError::UnknownType => true,
        IngestError::Io(_) => true,
    }
}

/// Validates a media file on disk: existence, non-emptiness, the size
/// ceiling, then content sniffing against the allow-list, in that order,
/// stopping at the first failure, each later probe made only after the
/// earlier gates pass. The probes ask the filesystem, so the outcome cannot
/// be pinned to the path alone; each answer is routed through its verified
/// gate — `existence_gate`, `size_gate`, `classify_sniffed` — which fixes
/// the outcome for every value it can take. Whatever the probes answered, an
/// admitted file carries an allow-listed MIME type and an in-ceiling size,
/// and a rejection is one the matching stage produces.
pub fn validate_media_file(path: &str) -> (r: Result<MediaDescriptor, IngestError>)
    ensures
        r matches Ok(d) ==> d.path@ == path@ && allowed_mime(d.mime_type@) && d.size_bytes > 0
            && d.size_bytes / BYTES_PER_MB <= MAX_FILE_SIZE_MB,
        r matches Err(e) ==> ingest_error_wf(e, path@),
{
    let exists = path_exists(path);
    if let Err(e) = existence_gate(path, exists) {
        return Err(e);
    }
    let size_bytes = match file_size(path) {
        Err(msg) => return Err(IngestError::Io(msg)),
        Ok(n) => n,
    };
    if let Err(e) = size_gate(size_bytes) {
        return Err(e);
    }
    let sniffed = match sniff_file(path) {
        Err(msg) => return Err(IngestError::Io(msg)),
        Ok(s) => s,
    };
    classify_sniffed(path, size_bytes, sniffed)
}

} // verus!
