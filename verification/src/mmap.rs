//! The decisions around memory-mapped reading.
//!
//! The system-level mapping itself is performed by the application shell;
//! this module decides how a file of a given length is to be viewed — a
//! zero-length file yields an empty view without any mapping call, since
//! many platforms reject zero-length mappings — and which way to read
//! when a mapping attempt fails.

use vstd::prelude::*;

use crate::errors::MagicError;

verus! {

/// How a file's bytes are to be viewed.
#[derive(Clone, Copy, Debug, PartialEq, Eq, Structural)]
pub enum MmapPlan {
    /// The file is empty: a valid zero-length view, no mapping call.
    EmptyView,
    /// The file has content: one read-only, private mapping over all of
    /// it.
    MapWholeFile { len: u64 },
}

/// A zero-length file maps to an empty view with no error; any other
/// length maps the whole file.
pub fn plan_mapping(file_len: u64) -> (p: MmapPlan)
    ensures
        file_len == 0 <==> p == MmapPlan::EmptyView,
        file_len > 0 <==> p == (MmapPlan::MapWholeFile { len: file_len }),
{
    if file_len == 0 {
        MmapPlan::EmptyView
    } else {
        MmapPlan::MapWholeFile { len: file_len }
    }
}

/// How classification proceeds after the mapping attempt.
#[derive(Clone, Copy, Debug, PartialEq, Eq, Structural)]
pub enum FileReadStrategy {
    /// The mapping stands: classify the mapped bytes.
    UseMapping,
    /// The mapping failed and the fallback is enabled: classify through
    /// a plain buffered read of the file.
    BufferedFallback,
    /// The mapping failed and no fallback is allowed: the operation
    /// fails.
    Abort,
}

/// The fallback rule: a sound mapping is always used; a failed mapping
/// falls back to a buffered read only when the fallback flag is enabled.
pub fn mmap_attempt_strategy(mmap_ok: bool, fallback_enabled: bool) -> (s: FileReadStrategy)
    ensures
        mmap_ok ==> s == FileReadStrategy::UseMapping,
        !mmap_ok && fallback_enabled ==> s == FileReadStrategy::BufferedFallback,
        !mmap_ok && !fallback_enabled ==> s == FileReadStrategy::Abort,
{
    if mmap_ok {
        FileReadStrategy::UseMapping
    } else if fallback_enabled {
        FileReadStrategy::BufferedFallback
    } else {
        FileReadStrategy::Abort
    }
}

/// The verdict on a read made through a mapping, judged by the
/// storage-fault flag afterwards.
#[derive(Clone, Copy, Debug, PartialEq, Eq, Structural)]
pub enum MappedReadVerdict {
    /// No fault was signalled while the bytes were read: the result
    /// stands.
    Reliable,
    /// A storage-access fault was signalled: the result is unreliable and
    /// the caller falls back to a buffered read.
    FallBackToBufferedRead,
}

/// The fault protocol's second half: the flag is cleared before the
/// mapped read and checked after it; a raised flag condemns the read.
pub fn mapped_read_verdict(fault_flag_raised: bool) -> (v: MappedReadVerdict)
    ensures
        v == MappedReadVerdict::Reliable <==> !fault_flag_raised,
{
    if fault_flag_raised {
        MappedReadVerdict::FallBackToBufferedRead
    } else {
        MappedReadVerdict::Reliable
    }
}

/// The engine failure reported when a mapping attempt fails and the
/// fallback is disabled.
pub fn mmap_aborted(io_msg: &str) -> (r: MagicError)
    ensures
        r matches MagicError::AnalysisFailed(m) && m@ == "Failed to mmap file: "@ + io_msg@,
{
    let mut s = String::from_str("Failed to mmap file: ");
    s.append(io_msg);
    MagicError::AnalysisFailed(s)
}

} // verus!
