//! The pipeline orchestrator: sequences validation, connection and request
//! construction, then assembles the transcript from the stream of
//! server-pushed events, one item at a time.
//!
//! Consumption is incremental and tolerant of a mid-stream fault: every chunk
//! consumed before the fault stays available, in the order it was delivered,
//! and the fault terminates the run. Each failure is tagged with the stage
//! that produced it, so the three failure domains — input validation,
//! transport, service — are never conflated.

use vstd::prelude::*;
use crate::earnings_processor::{
    BYTES_PER_MB,
    IngestError,
    MAX_FILE_SIZE_MB,
    MediaDescriptor,
    allowed_mime,
    ingest_error_wf,
    validate_media_file,
};
use crate::stt::{
    LocalSttStrategy,
    MAX_WIRE_SPEAKERS,
    SttError,
    TranscribeOptions,
    TranscribeRequest,
    TranscriptChunk,
    or_empty,
    transcribe_reject_wf,
};

verus! {

/// A failure, tagged with the pipeline stage that produced it.
#[derive(Debug, Clone, PartialEq)]
pub enum PipelineError {
    /// The file was rejected before any network activity.
    Validation(IngestError),
    /// The connection to the service could not be prepared.
    Connect(SttError),
    /// The streaming call was refused, or the service reported a fault
    /// mid-stream.
    Stream(SttError),
}

/// Everything the pre-flight stages produce: the admitted file's descriptor,
/// the prepared connection, and the one request to send.
pub struct PipelinePlan {
    pub descriptor: MediaDescriptor,
    pub client: LocalSttStrategy,
    pub request: TranscribeRequest,
}

/// Runs the stages that precede the stream — validate the file, prepare the
/// connection, construct the request — stopping at the first failure and
/// tagging it with its stage. Existence probes ask the filesystem; whatever
/// they answered, a plan carries the admitted descriptor for this path, a
/// connection for this socket, and the request built from exactly these
/// options, and every failure is one its own stage produces.
pub fn prepare_pipeline(file_path: &str, socket_path: &str, options: TranscribeOptions) -> (r:
    Result<PipelinePlan, PipelineError>)
    ensures
        r matches Ok(p) ==> p.descriptor.path@ == file_path@ && allowed_mime(
            p.descriptor.mime_type@,
        ) && p.descriptor.size_bytes > 0 && p.descriptor.size_bytes / BYTES_PER_MB
            <= MAX_FILE_SIZE_MB && p.client.socket_path_spec() == socket_path@
            && p.request.audio_path@ == file_path@ && p.request.language@ == or_empty(
            options.language,
        ) && p.request.diarization == options.diarization && p.request.num_speakers
            == options.num_speakers as i32 && options.num_speakers <= MAX_WIRE_SPEAKERS
            && p.request.initial_prompt@ == or_empty(options.initial_prompt),
        r matches Err(PipelineError::Validation(e)) ==> ingest_error_wf(e, file_path@),
        r matches Err(PipelineError::Connect(e)) ==> (e matches SttError::SocketNotFound(p) && p@
            == socket_path@),
        r matches Err(PipelineError::Stream(e)) ==> transcribe_reject_wf(e, file_path@, options),
{
    let descriptor = match validate_media_file(file_path) {
        Err(e) => return Err(PipelineError::Validation(e)),
        Ok(d) => d,
    };
    let client = match LocalSttStrategy::connect(socket_path) {
        Err(e) => return Err(PipelineError::Connect(e)),
        Ok(c) => c,
    };
    let request = match client.prepare_transcribe(file_path, options) {
        Err(e) => return Err(PipelineError::Stream(e)),
        Ok(q) => q,
    };
    Ok(PipelinePlan { descriptor, client, request })
}

/// One item the transport delivered from the stream: a transcript chunk, or
/// the fault that terminates the run.
#[derive(Debug, Clone)]
pub enum StreamEvent {
    Chunk(TranscriptChunk),
    Fault(SttError),
}

/// The chunks delivered before the first fault, in delivery order.
pub open spec fn chunks_prefix(events: Seq<StreamEvent>) -> Seq<TranscriptChunk>
    decreases events.len(),
{
    if events.len() == 0 {
        Seq::empty()
    } else {
        match events[0] {
            StreamEvent::Chunk(c) => seq![c] + chunks_prefix(events.drop_first()),
            StreamEvent::Fault(_) => Seq::empty(),
        }
    }
}

/// The first fault in the stream, if any.
pub open spec fn stream_fault(events: Seq<StreamEvent>) -> Option<SttError>
    decreases events.len(),
{
    if events.len() == 0 {
        None
    } else {
        match events[0] {
            StreamEvent::Chunk(_) => stream_fault(events.drop_first()),
            StreamEvent::Fault(e) => Some(e),
        }
    }
}

/// The largest end time over a run's chunks, in milliseconds; zero when no
/// chunk has arrived. A maximum, not the last value seen: delivery is
/// assumed non-decreasing in time but never relied on.
pub open spec fn max_end_ms(chunks: Seq<TranscriptChunk>) -> u64
    decreases chunks.len(),
{
    if chunks.len() == 0 {
        0u64
    } else {
        let rest = max_end_ms(chunks.drop_last());
        if chunks.last().end_ms > rest {
            chunks.last().end_ms
        } else {
            rest
        }
    }
}

/// The smallest start time over a run's chunks, in milliseconds; zero when
/// no chunk has arrived.
pub open spec fn min_start_ms(chunks: Seq<TranscriptChunk>) -> u64
    decreases chunks.len(),
{
    if chunks.len() == 0 {
        0u64
    } else if chunks.len() == 1 {
        chunks[0].start_ms
    } else {
        let rest = min_start_ms(chunks.drop_last());
        if chunks.last().start_ms < rest {
            chunks.last().start_ms
        } else {
            rest
        }
    }
}

/// The transcript as assembled so far: the chunks consumed, in delivery
/// order, with the running time span they cover. The consumer holds at most
/// one in-flight chunk at a time and never reorders.
pub struct TranscriptProgress {
    chunks: Vec<TranscriptChunk>,
    span_start_ms: u64,
    span_end_ms: u64,
}

impl TranscriptProgress {
    /// The chunks consumed so far, in delivery order.
    pub closed spec fn chunks_spec(&self) -> Seq<TranscriptChunk> {
        self.chunks@
    }

    /// The running span fields agree with the chunks consumed.
    pub closed spec fn wf(&self) -> bool {
        &&& self.span_start_ms == min_start_ms(self.chunks@)
        &&& self.span_end_ms == max_end_ms(self.chunks@)
    }

    /// An empty transcript: nothing consumed, no span covered.
    pub fn new() -> (r: Self)
        ensures
            r.wf(),
            r.chunks_spec() == Seq::<TranscriptChunk>::empty(),
    {
        TranscriptProgress { chunks: Vec::new(), span_start_ms: 0, span_end_ms: 0 }
    }

    /// Consumes one chunk: appends it after everything consumed so far —
    /// never displacing or reordering prior chunks — and widens the covered
    /// span to include it.
    pub fn push_chunk(&mut self, c: TranscriptChunk)
        requires
            old(self).wf(),
        ensures
            final(self).wf(),
            final(self).chunks_spec() == old(self).chunks_spec().push(c),
    {
        if self.chunks.len() == 0 {
            self.span_start_ms = c.start_ms;
            self.span_end_ms = c.end_ms;
        } else {
            if c.start_ms < self.span_start_ms {
                self.span_start_ms = c.start_ms;
            }
            if c.end_ms > self.span_end_ms {
                self.span_end_ms = c.end_ms;
            }
        }
        self.chunks.push(c);
        proof {
            assert(self.chunks@.drop_last() =~= old(self).chunks@);
            assert(self.chunks@.last() == c);
        }
    }

    /// How many chunks have been consumed.
    pub fn segment_count(&self) -> (r: u64)
        ensures
            r == self.chunks_spec().len(),
    {
        self.chunks.len() as u64
    }

    /// Where the covered span begins, in milliseconds; zero when empty.
    pub fn span_start_ms(&self) -> (r: u64)
        requires
            self.wf(),
        ensures
            r == min_start_ms(self.chunks_spec()),
    {
        self.span_start_ms
    }

    /// Where the covered span ends, in milliseconds; zero when empty.
    pub fn span_end_ms(&self) -> (r: u64)
        requires
            self.wf(),
        ensures
            r == max_end_ms(self.chunks_spec()),
    {
        self.span_end_ms
    }

    /// The chunks consumed so far, in delivery order.
    pub fn chunks(&self) -> (r: &Vec<TranscriptChunk>)
        ensures
            r@ == self.chunks_spec(),
    {
        &self.chunks
    }
}

/// What consuming a stream leaves behind: the transcript assembled from
/// every chunk delivered before the first fault, and that fault if one came.
pub struct StreamOutcome {
    pub progress: TranscriptProgress,
    pub fault: Option<SttError>,
}

/// Consumes a delivered stream in order, one event at a time: each chunk is
/// appended to the transcript, and the first fault stops consumption. A
/// fault on event N + 1 leaves chunks 1 through N exactly as delivered —
/// partial results are never retracted — and is reported alongside them; a
/// stream that ends without fault reports none.
pub fn consume_stream(events: Vec<StreamEvent>) -> (r: StreamOutcome)
    ensures
        r.progress.wf(),
        r.progress.chunks_spec() == chunks_prefix(events@),
        r.fault == stream_fault(events@),
{
    let ghost all_events: Seq<StreamEvent> = events@;
    let mut remaining = events;
    let mut progress = TranscriptProgress::new();
    let mut fault: Option<SttError> = None;
    loop
        invariant_except_break
            fault is None,
            chunks_prefix(all_events) == progress.chunks_spec() + chunks_prefix(remaining@),
            stream_fault(all_events) == stream_fault(remaining@),
        invariant
            progress.wf(),
        ensures
            progress.wf(),
            progress.chunks_spec() == chunks_prefix(all_events),
            fault == stream_fault(all_events),
        decreases remaining.len(),
    {
        if remaining.len() == 0 {
            proof {
                assert(chunks_prefix(remaining@) =~= Seq::<TranscriptChunk>::empty());
                assert(progress.chunks_spec() + chunks_prefix(remaining@)
                    =~= progress.chunks_spec());
            }
            break ;
        }
        let ghost before: Seq<StreamEvent> = remaining@;
        let event = remaining.remove(0);
        proof {
            assert(remaining@ =~= before.drop_first());
        }
        match event {
            StreamEvent::Chunk(c) => {
                proof {
                    assert(chunks_prefix(before) =~= seq![c] + chunks_prefix(remaining@));
                    assert((progress.chunks_spec() + (seq![c] + chunks_prefix(remaining@)))
                        =~= (progress.chunks_spec().push(c) + chunks_prefix(remaining@)));
                }
                progress.push_chunk(c);
            },
            StreamEvent::Fault(e) => {
                proof {
                    assert(chunks_prefix(before) =~= Seq::<TranscriptChunk>::empty());
                    assert(progress.chunks_spec() + chunks_prefix(before)
                        =~= progress.chunks_spec());
                }
                fault = Some(e);
                break ;
            },
        }
    }
    StreamOutcome { progress, fault }
}

impl StreamOutcome {
    /// The final report of a run: the chunks assembled, in delivery order,
    /// and either the final segment count or the stream's fault, tagged with
    /// its stage. A fault never retracts the chunks beside it.
    pub fn into_report(self) -> (r: (Vec<TranscriptChunk>, Result<u64, PipelineError>))
        ensures
            r.0@ == self.progress.chunks_spec(),
            match self.fault {
                None => r.1 matches Ok(n) && n == self.progress.chunks_spec().len(),
                Some(e) => r.1 matches Err(PipelineError::Stream(f)) && f == e,
            },
    {
        let StreamOutcome { progress, fault } = self;
        let count = progress.segment_count();
        let TranscriptProgress { chunks, .. } = progress;
        match fault {
            None => (chunks, Ok(count)),
            Some(e) => (chunks, Err(PipelineError::Stream(e))),
        }
    }
}

} // verus!
