//! The orchestrator of byte-stream classification: adaptive ingestion.
//!
//! Uploaded content arrives chunk by chunk. While the total stays at or
//! below the configured threshold the chunks accumulate in memory; the
//! chunk that would cross the threshold triggers — after a free-space
//! check — a spill to a single temporary file, and every later chunk is
//! written there. Memory use is therefore bounded by the threshold, not
//! by the size of the stream, and a stream that stays small never touches
//! the disk.
//!
//! The caller drives the machine: it hands in each chunk, performs the
//! file work the machine asks for, and finally classifies either the
//! in-memory buffer or the spill file. The machine accounts for every
//! byte received and for every spill file begun, so those facts are
//! provable, not merely observed.

use vstd::prelude::*;

use crate::errors::application_of_magic;
use crate::errors::ApplicationError;
use crate::errors::MagicError;
use crate::filename::WindowsCompatibleFilename;
use crate::magic_result::MagicResult;
use crate::mime_type::MimeType;
use crate::request_id::RequestId;

verus! {

/// What remains to be done once the stream has ended.
#[derive(Clone, Copy, Debug, PartialEq, Eq, Structural)]
pub enum IngestFinish {
    /// Nothing arrived: empty content is a validation failure, not an
    /// engine call.
    RejectEmpty,
    /// Everything fit in memory: classify the buffer.
    ClassifyBuffer,
    /// The content was spilled: sync the file, then classify it.
    ClassifySpill,
}

/// The point in the spill sequence at which an I/O failure occurred.
#[derive(Clone, Copy, Debug, PartialEq, Eq, Structural)]
pub enum SpillFailure {
    Create,
    WriteBuffer,
    WriteChunk,
    Sync,
}

fn push_all(dst: &mut Vec<u8>, src: &[u8])
    ensures
        final(dst)@ == old(dst)@ + src@,
{
    let n = src.len();
    let mut i: usize = 0;
    proof {
        assert(old(dst)@ + src@.subrange(0, 0) =~= old(dst)@);
    }
    while i < n
        invariant
            n == src@.len(),
            i <= n,
            dst@ == old(dst)@ + src@.subrange(0, i as int),
        decreases n - i,
    {
        let b = *vstd::slice::slice_index_get(src, i);
        let ghost prev = dst@;
        dst.push(b);
        proof {
            assert(prev.push(b) =~= old(dst)@ + src@.subrange(0, i + 1));
        }
        i = i + 1;
    }
    proof {
        assert(src@.subrange(0, n as int) =~= src@);
    }
}

/// One adaptive ingestion in progress.
pub struct ContentIngest {
    threshold: usize,
    min_free_space_mb: u64,
    buffer: Vec<u8>,
    spilled: bool,
    spill_count: u64,
    received: Ghost<Seq<u8>>,
    spilled_bytes: Ghost<Seq<u8>>,
}

impl ContentIngest {
    /// The spill threshold, in bytes.
    pub closed spec fn spec_threshold(&self) -> nat {
        self.threshold as nat
    }

    /// The free space, in megabytes, the spill directory must offer.
    pub closed spec fn spec_min_free_space_mb(&self) -> u64 {
        self.min_free_space_mb
    }

    /// The bytes currently held in memory.
    pub closed spec fn buffered(&self) -> Seq<u8> {
        self.buffer@
    }

    /// Whether the spill file has been begun.
    pub closed spec fn is_spilled(&self) -> bool {
        self.spilled
    }

    /// How many spill files this ingestion has begun.
    pub closed spec fn spec_spill_count(&self) -> u64 {
        self.spill_count
    }

    /// Every byte received so far, in order.
    pub closed spec fn received(&self) -> Seq<u8> {
        self.received@
    }

    /// Every byte handed out for writing to the spill file, in order.
    pub closed spec fn spilled_bytes(&self) -> Seq<u8> {
        self.spilled_bytes@
    }

    /// The machine's invariant: memory is bounded by the threshold; a
    /// spill empties the buffer, happens only past the threshold, and
    /// happens at most once.
    pub open spec fn wf(&self) -> bool {
        &&& self.buffered().len() <= self.spec_threshold()
        &&& self.received() == self.spilled_bytes() + self.buffered()
        &&& if self.is_spilled() {
            &&& self.buffered().len() == 0
            &&& self.received().len() > self.spec_threshold()
            &&& self.spec_spill_count() == 1
        } else {
            &&& self.spilled_bytes().len() == 0
            &&& self.spec_spill_count() == 0
        }
    }

    /// A fresh ingestion: nothing received, nothing spilled.
    pub fn new(threshold: usize, min_free_space_mb: u64) -> (r: Self)
        ensures
            r.wf(),
            !r.is_spilled(),
            r.received() == Seq::<u8>::empty(),
            r.spec_threshold() == threshold as nat,
            r.spec_min_free_space_mb() == min_free_space_mb,
            r.spec_spill_count() == 0,
    {
        let r = ContentIngest {
            threshold,
            min_free_space_mb,
            buffer: Vec::new(),
            spilled: false,
            spill_count: 0,
            received: Ghost(Seq::empty()),
            spilled_bytes: Ghost(Seq::empty()),
        };
        proof {
            assert(r.received() =~= Seq::<u8>::empty());
            assert(r.received() =~= r.spilled_bytes() + r.buffered());
        }
        r
    }

    /// Whether taking this chunk into memory would cross the threshold.
    /// The check runs per chunk, so it fires on exactly the chunk that
    /// crosses.
    pub fn crosses_threshold(&self, chunk: &[u8]) -> (r: bool)
        ensures
            r == (!self.is_spilled() && self.buffered().len() + chunk@.len()
                > self.spec_threshold()),
    {
        !self.spilled && (chunk.len() > self.threshold || self.buffer.len() > self.threshold
            - chunk.len())
    }

    /// The backpressure gate: a spill may begin only when the spill
    /// directory offers at least the configured minimum of free space.
    /// On refusal no resource has been created.
    pub fn check_capacity(&self, free_space_mb: u64) -> (r: Result<(), ApplicationError>)
        ensures
            r is Ok <==> free_space_mb >= self.spec_min_free_space_mb(),
            r matches Err(e) ==> (e matches ApplicationError::InternalError(m) && m@
                == "Insufficient storage space for analysis"@),
    {
        if free_space_mb < self.min_free_space_mb {
            Err(
                ApplicationError::InternalError(
                    String::from_str("Insufficient storage space for analysis"),
                ),
            )
        } else {
            Ok(())
        }
    }

    /// Takes a chunk into memory; only legal while the total stays at or
    /// below the threshold.
    pub fn absorb_chunk(&mut self, chunk: &[u8])
        requires
            old(self).wf(),
            !old(self).is_spilled(),
            old(self).buffered().len() + chunk@.len() <= old(self).spec_threshold(),
        ensures
            final(self).wf(),
            !final(self).is_spilled(),
            final(self).buffered() == old(self).buffered() + chunk@,
            final(self).received() == old(self).received() + chunk@,
            final(self).spec_threshold() == old(self).spec_threshold(),
            final(self).spec_min_free_space_mb() == old(self).spec_min_free_space_mb(),
            final(self).spec_spill_count() == 0,
    {
        push_all(&mut self.buffer, chunk);
        proof {
            self.received@ = self.received@ + chunk@;
            assert(self.received@ =~= self.spilled_bytes@ + self.buffer@);
        }
    }

    /// Begins the one spill of this ingestion: hands back the accumulated
    /// prefix together with the crossing chunk, to be written to the
    /// spill file just created, and empties the buffer. Only legal on the
    /// chunk that crosses the threshold, and only once.
    pub fn begin_spill(&mut self, chunk: &[u8]) -> (prefix: Vec<u8>)
        requires
            old(self).wf(),
            !old(self).is_spilled(),
            old(self).buffered().len() + chunk@.len() > old(self).spec_threshold(),
        ensures
            final(self).wf(),
            final(self).is_spilled(),
            final(self).spec_spill_count() == 1,
            prefix@ == old(self).buffered() + chunk@,
            final(self).buffered().len() == 0,
            final(self).received() == old(self).received() + chunk@,
            final(self).spilled_bytes() == prefix@,
            final(self).spec_threshold() == old(self).spec_threshold(),
            final(self).spec_min_free_space_mb() == old(self).spec_min_free_space_mb(),
    {
        let mut prefix: Vec<u8> = Vec::new();
        prefix.append(&mut self.buffer);
        push_all(&mut prefix, chunk);
        self.spilled = true;
        self.spill_count = 1;
        proof {
            self.received@ = self.received@ + chunk@;
            self.spilled_bytes@ = prefix@;
            assert(self.received@ =~= self.spilled_bytes@ + self.buffer@);
        }
        prefix
    }

    /// Accounts for a chunk that goes straight to the spill file.
    pub fn note_spilled_chunk(&mut self, chunk: &[u8])
        requires
            old(self).wf(),
            old(self).is_spilled(),
        ensures
            final(self).wf(),
            final(self).is_spilled(),
            final(self).received() == old(self).received() + chunk@,
            final(self).spilled_bytes() == old(self).spilled_bytes() + chunk@,
            final(self).buffered() == old(self).buffered(),
            final(self).spec_threshold() == old(self).spec_threshold(),
            final(self).spec_min_free_space_mb() == old(self).spec_min_free_space_mb(),
            final(self).spec_spill_count() == old(self).spec_spill_count(),
    {
        proof {
            self.received@ = self.received@ + chunk@;
            self.spilled_bytes@ = self.spilled_bytes@ + chunk@;
            assert(self.received@ =~= self.spilled_bytes@ + self.buffer@);
        }
    }

    /// What to do once the stream has ended.
    pub fn finish_plan(&self) -> (p: IngestFinish)
        requires
            self.wf(),
        ensures
            p == IngestFinish::RejectEmpty <==> self.received().len() == 0,
            p == IngestFinish::ClassifyBuffer <==> (!self.is_spilled() && self.received().len()
                > 0),
            p == IngestFinish::ClassifySpill <==> self.is_spilled(),
    {
        if self.spilled {
            IngestFinish::ClassifySpill
        } else if self.buffer.len() == 0 {
            IngestFinish::RejectEmpty
        } else {
            IngestFinish::ClassifyBuffer
        }
    }

    /// The observable spill counter: how many spill files this ingestion
    /// has begun.
    pub fn spill_count(&self) -> (r: u64)
        ensures
            r == self.spec_spill_count(),
    {
        self.spill_count
    }

    /// Whether the ingestion has spilled.
    pub fn spilled(&self) -> (r: bool)
        ensures
            r == self.is_spilled(),
    {
        self.spilled
    }

    /// Surrenders the in-memory buffer for classification.
    pub fn into_buffer(self) -> (b: Vec<u8>)
        ensures
            b@ == self.buffered(),
    {
        self.buffer
    }
}

/// A payload that stays at or below the threshold never begins a spill
/// file.
pub proof fn lemma_small_payload_never_spills(m: ContentIngest)
    requires
        m.wf(),
        m.received().len() <= m.spec_threshold(),
    ensures
        m.spec_spill_count() == 0,
        !m.is_spilled(),
{
}

/// An ingestion begins at most one spill file, and exactly one once the
/// content has crossed the threshold.
pub proof fn lemma_at_most_one_spill(m: ContentIngest)
    requires
        m.wf(),
    ensures
        m.spec_spill_count() <= 1,
        m.is_spilled() ==> m.spec_spill_count() == 1,
        m.is_spilled() ==> m.received().len() > m.spec_threshold(),
{
}

/// Memory held by an ingestion never exceeds the threshold, however long
/// the stream runs.
pub proof fn lemma_memory_bounded(m: ContentIngest)
    requires
        m.wf(),
    ensures
        m.buffered().len() <= m.spec_threshold(),
{
}

/// No byte is lost or reordered: what was received is exactly what was
/// handed to the spill file followed by what is still in memory.
pub proof fn lemma_no_byte_lost(m: ContentIngest)
    requires
        m.wf(),
    ensures
        m.received() == m.spilled_bytes() + m.buffered(),
        !m.is_spilled() ==> m.received() == m.buffered(),
{
    if !m.is_spilled() {
        assert(m.received() =~= m.buffered());
    }
}

/// The failure that rejects empty submitted content before any engine
/// call.
pub fn reject_empty(data: &[u8]) -> (r: Result<(), ApplicationError>)
    ensures
        r is Ok <==> data@.len() > 0,
        r matches Err(e) ==> (e matches ApplicationError::BadRequest(m) && m@
            == "Content cannot be empty"@),
{
    if data.len() == 0 {
        Err(ApplicationError::BadRequest(String::from_str("Content cannot be empty")))
    } else {
        Ok(())
    }
}

/// The failure reported when stream I/O around the spill file breaks, at
/// the given point in the sequence.
pub fn spill_failed(stage: SpillFailure, io_msg: &str) -> (r: ApplicationError)
    ensures
        r matches ApplicationError::InternalError(m) && m@ == match stage {
            SpillFailure::Create => "Failed to create temp file: "@ + io_msg@,
            SpillFailure::WriteBuffer => "Failed to write buffer to temp file: "@ + io_msg@,
            SpillFailure::WriteChunk => "Failed to write chunk to temp file: "@ + io_msg@,
            SpillFailure::Sync => "Failed to sync temp file: "@ + io_msg@,
        },
{
    let mut s = match stage {
        SpillFailure::Create => String::from_str("Failed to create temp file: "),
        SpillFailure::WriteBuffer => String::from_str("Failed to write buffer to temp file: "),
        SpillFailure::WriteChunk => String::from_str("Failed to write chunk to temp file: "),
        SpillFailure::Sync => String::from_str("Failed to sync temp file: "),
    };
    s.append(io_msg);
    ApplicationError::InternalError(s)
}

/// The failure reported when reading the next chunk of the caller's
/// stream breaks.
pub fn chunk_read_failed(msg: &str) -> (r: ApplicationError)
    ensures
        r matches ApplicationError::BadRequest(m) && m@ == msg@,
{
    ApplicationError::BadRequest(msg.to_owned())
}

/// How an engine call, wrapped in its deadline, came back.
#[derive(Debug, PartialEq, Eq)]
pub enum EngineCallOutcome {
    /// The call finished inside the deadline, successfully or not.
    Finished(Result<(MimeType, String), MagicError>),
    /// The deadline fired first; the caller stops waiting.
    DeadlineExceeded,
}

/// Turns the outcome of a deadline-wrapped engine call into the typed
/// result or typed failure of the whole operation: a success becomes an
/// outcome that carries the correlation id and the validated filename; an
/// engine failure is translated once; an expired deadline surfaces as the
/// dedicated timeout failure, distinguishable from every other kind.
pub fn settle_engine_call(
    request_id: RequestId,
    filename: WindowsCompatibleFilename,
    outcome: EngineCallOutcome,
) -> (r: Result<MagicResult, ApplicationError>)
    ensures
        match outcome {
            EngineCallOutcome::DeadlineExceeded => r == Err::<MagicResult, ApplicationError>(
                ApplicationError::Timeout,
            ),
            EngineCallOutcome::Finished(engine_result) => match engine_result {
                Err(e) => r matches Err(a) && application_of_magic(e, a),
                Ok((m, d)) => r matches Ok(res) && res.spec_request_id() == request_id
                    && res.spec_filename() == filename && res.spec_mime_type() == m
                    && res.spec_description() == d@ && res.spec_encoding() is None,
            },
        },
{
    match outcome {
        EngineCallOutcome::DeadlineExceeded => Err(ApplicationError::Timeout),
        EngineCallOutcome::Finished(Err(e)) => Err(ApplicationError::from_magic(e)),
        EngineCallOutcome::Finished(
            Ok((mime_type, description)),
        ) => Ok(MagicResult::new(request_id, filename, mime_type, description)),
    }
}

} // verus!
