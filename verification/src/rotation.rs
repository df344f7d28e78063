//! The log file: how it is opened, when it is cleared, and what it holds
//! after a write.
//!
//! The file never grows without bound. Before every write its size is
//! compared with the configured limit, and a file that has outgrown the
//! limit is cleared and started afresh. No older contents are kept.
//! The functions here decide; opening, measuring and writing the file is
//! left to the caller, who reports the size and receives the steps to take.

use vstd::prelude::*;
use vstd::string::*;
use vstd::utf8::encode_utf8;

use crate::sink::UniLog;
use crate::text::{decimal, spec_decimal};

verus! {

/// Bytes in a megabyte, the unit of the size limit.
pub const BYTES_PER_MB: u64 = 1048576;

/// The options a file is opened with.
#[derive(Clone, Copy, Debug, PartialEq, Eq, Structural)]
pub struct OpenFlags {
    /// Create the file if it does not exist.
    pub create: bool,
    /// Place every write at the end of the file.
    pub append: bool,
    /// Open for writing.
    pub write: bool,
    /// Discard what the file holds.
    pub truncate: bool,
}

/// A file to open.
#[derive(Debug, PartialEq, Eq)]
pub struct OpenRequest {
    pub file_name: String,
    pub flags: OpenFlags,
}

/// An open request as a mathematical value.
pub struct OpenRequestView {
    pub file_name: Seq<char>,
    pub flags: OpenFlags,
}

impl View for OpenRequest {
    type V = OpenRequestView;

    open spec fn view(&self) -> OpenRequestView {
        OpenRequestView { file_name: self.file_name@, flags: self.flags }
    }
}

/// The steps of one write to the log file, in the order in which they are
/// taken: tell the operator, reopen, append.
#[derive(Debug, PartialEq, Eq)]
pub struct WriteStep {
    /// What to tell the operator, where the file is cleared.
    pub notice: Option<String>,
    /// The file to reopen in place of the current handle, where the file is
    /// to be cleared.
    pub reopen: Option<OpenRequest>,
    /// The bytes to append.
    pub bytes: Vec<u8>,
}

/// A write step as a mathematical value.
pub struct WriteStepView {
    pub reopen: Option<OpenRequestView>,
    pub notice: Option<Seq<char>>,
    pub bytes: Seq<u8>,
}

impl View for WriteStep {
    type V = WriteStepView;

    open spec fn view(&self) -> WriteStepView {
        WriteStepView {
            reopen: match self.reopen {
                Some(request) => Some(request@),
                None => None,
            },
            notice: match self.notice {
                Some(text) => Some(text@),
                None => None,
            },
            bytes: self.bytes@,
        }
    }
}

impl OpenFlags {
    /// Flags of the first opening: the file is created if need be and
    /// written at its end, and what it holds is kept.
    pub open spec fn spec_appending() -> OpenFlags {
        OpenFlags { create: true, append: true, write: true, truncate: false }
    }

    /// Flags of a fresh start: the file is created if need be and emptied.
    pub open spec fn spec_clearing() -> OpenFlags {
        OpenFlags { create: true, append: false, write: true, truncate: true }
    }

    /// Flags of the first opening.
    pub fn appending() -> (flags: OpenFlags)
        ensures
            flags == Self::spec_appending(),
    {
        OpenFlags { create: true, append: true, write: true, truncate: false }
    }

    /// Flags of a fresh start.
    pub fn clearing() -> (flags: OpenFlags)
        ensures
            flags == Self::spec_clearing(),
    {
        OpenFlags { create: true, append: false, write: true, truncate: true }
    }
}

/// The size limit in bytes.
pub open spec fn spec_limit_in_bytes(max_log_file_size: nat) -> nat {
    max_log_file_size * 1024 * 1024
}

/// Whether a file is cleared before the next write: only when its size is
/// known and lies strictly above the limit. A file whose size cannot be
/// read is left alone.
pub open spec fn spec_must_clear(size: Option<u64>, max_log_file_size: nat) -> bool {
    match size {
        Some(bytes) => bytes > spec_limit_in_bytes(max_log_file_size),
        None => false,
    }
}

/// The operator's notice of a cleared file.
pub open spec fn spec_notice(max_log_file_size: nat) -> Seq<char> {
    "Log file exceeded "@ + spec_decimal(max_log_file_size) + " MB. Clearing contents."@
}

/// The steps of writing `log_entry` to the file `file_name` of size `size`:
/// the entry's UTF-8 bytes are always appended, and a file that must be
/// cleared is first reopened empty, with a notice to the operator.
pub open spec fn spec_write_step(
    log_entry: Seq<char>,
    file_name: Seq<char>,
    size: Option<u64>,
    max_log_file_size: nat,
) -> WriteStepView {
    if spec_must_clear(size, max_log_file_size) {
        WriteStepView {
            reopen: Some(OpenRequestView { file_name, flags: OpenFlags::spec_clearing() }),
            notice: Some(spec_notice(max_log_file_size)),
            bytes: encode_utf8(log_entry),
        }
    } else {
        WriteStepView { reopen: None, notice: None, bytes: encode_utf8(log_entry) }
    }
}

/// What a file holds right after it was opened with `flags`.
pub open spec fn spec_opened(flags: OpenFlags, contents: Seq<u8>) -> Seq<u8> {
    if flags.truncate {
        Seq::empty()
    } else {
        contents
    }
}

/// What a file that held `contents` holds once `step` has been carried out.
pub open spec fn spec_file_after(step: WriteStepView, contents: Seq<u8>) -> Seq<u8> {
    match step.reopen {
        Some(request) => spec_opened(request.flags, contents) + step.bytes,
        None => contents + step.bytes,
    }
}

/// What a file that held `contents` holds once `entries` have been written
/// to it one after another, each write planned for the size that the file
/// had by then.
pub open spec fn spec_file_after_all(
    entries: Seq<Seq<char>>,
    file_name: Seq<char>,
    contents: Seq<u8>,
    max_log_file_size: nat,
) -> Seq<u8>
    decreases entries.len(),
{
    if entries.len() == 0 {
        contents
    } else {
        spec_file_after_all(
            entries.drop_first(),
            file_name,
            spec_file_after(
                spec_write_step(
                    entries[0],
                    file_name,
                    Some(contents.len() as u64),
                    max_log_file_size,
                ),
                contents,
            ),
            max_log_file_size,
        )
    }
}

/// The UTF-8 bytes of `entries`, one entry after the other.
pub open spec fn spec_all_bytes(entries: Seq<Seq<char>>) -> Seq<u8>
    decreases entries.len(),
{
    if entries.len() == 0 {
        Seq::empty()
    } else {
        encode_utf8(entries[0]) + spec_all_bytes(entries.drop_first())
    }
}

/// Whether a file of `size` bytes has outgrown a limit of
/// `max_log_file_size` megabytes. The limit itself is still within bounds.
pub fn exceeds_limit(size: u64, max_log_file_size: usize) -> (over: bool)
    ensures
        over == (size > spec_limit_in_bytes(max_log_file_size as nat)),
{
    let megabytes: u128 = max_log_file_size as u128;
    let unit: u128 = BYTES_PER_MB as u128;
    assert(megabytes * unit == spec_limit_in_bytes(max_log_file_size as nat)) by {
        assert(unit == 1024 * 1024);
    }
    (size as u128) > megabytes * unit
}

impl UniLog {
    /// The file to open when the sink is set up: the configured one, for
    /// appending. Nothing is opened where no file is named.
    pub fn init_file_logging(&self) -> (request: Option<OpenRequest>)
        ensures
            request is Some <==> self@.log_file_name is Some,
            request is Some ==> request->0@ == (OpenRequestView {
                file_name: self@.log_file_name->0,
                flags: OpenFlags::spec_appending(),
            }),
    {
        match &self.log_file_name {
            Some(name) => Some(OpenRequest { file_name: name.clone(), flags: OpenFlags::appending() }),
            None => None,
        }
    }

    /// Plans the write of `log_entry` to the log file `file_name`, whose
    /// size was just read as `size` (`None` where it could not be read).
    pub fn write_to_file(
        log_entry: &str,
        file_name: &str,
        size: Option<u64>,
        max_log_file_size: usize,
    ) -> (step: WriteStep)
        ensures
            step@ == spec_write_step(log_entry@, file_name@, size, max_log_file_size as nat),
    {
        let clear = match size {
            Some(bytes) => exceeds_limit(bytes, max_log_file_size),
            None => false,
        };
        let bytes = log_entry.as_bytes_vec();
        if clear {
            let mut notice = String::from_str("Log file exceeded ");
            notice.append(decimal(max_log_file_size).as_str());
            notice.append(" MB. Clearing contents.");
            WriteStep {
                reopen: Some(
                    OpenRequest { file_name: String::from_str(file_name), flags: OpenFlags::clearing() },
                ),
                notice: Some(notice),
                bytes,
            }
        } else {
            WriteStep { reopen: None, notice: None, bytes }
        }
    }
}

/// A file that has outgrown the limit holds, after the write, the new entry
/// and nothing else: its size is the length of that one entry.
pub proof fn lemma_write_clears_oversized_file(
    log_entry: Seq<char>,
    file_name: Seq<char>,
    contents: Seq<u8>,
    max_log_file_size: nat,
)
    requires
        contents.len() <= u64::MAX,
        contents.len() > spec_limit_in_bytes(max_log_file_size),
    ensures
        spec_file_after(
            spec_write_step(
                log_entry,
                file_name,
                Some(contents.len() as u64),
                max_log_file_size,
            ),
            contents,
        ) == encode_utf8(log_entry),
{
    assert(Seq::<u8>::empty() + encode_utf8(log_entry) =~= encode_utf8(log_entry));
}

/// A file within the limit, the limit itself included, keeps what it holds,
/// and the new entry follows it: its size grows by the entry's length.
pub proof fn lemma_write_appends_within_limit(
    log_entry: Seq<char>,
    file_name: Seq<char>,
    contents: Seq<u8>,
    max_log_file_size: nat,
)
    requires
        contents.len() <= u64::MAX,
        contents.len() <= spec_limit_in_bytes(max_log_file_size),
    ensures
        spec_file_after(
            spec_write_step(
                log_entry,
                file_name,
                Some(contents.len() as u64),
                max_log_file_size,
            ),
            contents,
        ) == contents + encode_utf8(log_entry),
        spec_file_after(
            spec_write_step(
                log_entry,
                file_name,
                Some(contents.len() as u64),
                max_log_file_size,
            ),
            contents,
        ).len() == contents.len() + encode_utf8(log_entry).len(),
{
}

/// Whatever a file held, after a write it is at most one entry larger than
/// the limit: it can pass the limit by the entry written last, and is
/// cleared by the write that finds it there.
pub proof fn lemma_write_bounds_file_size(
    log_entry: Seq<char>,
    file_name: Seq<char>,
    contents: Seq<u8>,
    max_log_file_size: nat,
)
    requires
        contents.len() <= u64::MAX,
    ensures
        spec_file_after(
            spec_write_step(
                log_entry,
                file_name,
                Some(contents.len() as u64),
                max_log_file_size,
            ),
            contents,
        ).len() <= spec_limit_in_bytes(max_log_file_size) + encode_utf8(log_entry).len(),
{
}

/// Writes that take their turn one after another, in whatever order, each
/// leave their entry whole and exactly once: while the limit is not passed,
/// the file holds what it held, followed by every entry in the order of the
/// writes.
pub proof fn lemma_serial_writes_keep_every_entry(
    entries: Seq<Seq<char>>,
    file_name: Seq<char>,
    contents: Seq<u8>,
    max_log_file_size: nat,
)
    requires
        contents.len() + spec_all_bytes(entries).len() <= u64::MAX,
        contents.len() + spec_all_bytes(entries).len() <= spec_limit_in_bytes(max_log_file_size),
    ensures
        spec_file_after_all(entries, file_name, contents, max_log_file_size) == contents
            + spec_all_bytes(entries),
    decreases entries.len(),
{
    if entries.len() == 0 {
        assert(contents + spec_all_bytes(entries) =~= contents);
    } else {
        let first = encode_utf8(entries[0]);
        let rest = entries.drop_first();
        lemma_write_appends_within_limit(entries[0], file_name, contents, max_log_file_size);
        lemma_serial_writes_keep_every_entry(rest, file_name, contents + first, max_log_file_size);
        assert((contents + first) + spec_all_bytes(rest) =~= contents + spec_all_bytes(entries));
    }
}

/// A file whose size cannot be read is never cleared: the entry is appended.
pub proof fn lemma_write_appends_to_unmeasured_file(
    log_entry: Seq<char>,
    file_name: Seq<char>,
    contents: Seq<u8>,
    max_log_file_size: nat,
)
    ensures
        spec_file_after(
            spec_write_step(log_entry, file_name, None, max_log_file_size),
            contents,
        ) == contents + encode_utf8(log_entry),
{
}

} // verus!
