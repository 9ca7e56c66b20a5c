//! Streaming transcription client: connection gating, request construction,
//! and the domain form of the transcript the service streams back.
//!
//! The speech-to-text service is reached over a local Unix-domain socket and
//! answers one streaming call per run. This module decides everything that
//! does not need the wire: whether a connection may be attempted, whether the
//! audio path still exists at call time, and how user options become the one
//! request that goes out. The socket dialling and the RPC itself are driven
//! outside the library, which hands every received item back as a
//! [`TranscriptChunk`] or an [`SttError`].

use vstd::prelude::*;
use vstd::string::*;
use crate::earnings_processor::path_exists;

verus! {

/// The gRPC status code for an invalid argument, as the wire protocol
/// numbers it.
pub const GRPC_INVALID_ARGUMENT: i32 = 3;

/// The largest speaker count the wire format can carry: its speaker field is
/// a signed 32-bit integer.
pub const MAX_WIRE_SPEAKERS: u32 = 0x7fff_ffff;

/// Why a transcription run failed.
#[derive(Debug, Clone, PartialEq)]
pub enum SttError {
    /// The transport could not be established; carries the transport
    /// error's message.
    Connection(String),
    /// The remote service reported a fault, at call time or mid-stream;
    /// carries its status code and message verbatim.
    Service { code: i32, message: String },
    /// No endpoint exists at the socket path; carries the path.
    SocketNotFound(String),
    /// The audio file was gone by the time the call was made; carries the
    /// path.
    AudioFileNotFound(String),
}

/// User-chosen options for one transcription call.
#[derive(Debug, Clone)]
pub struct TranscribeOptions {
    /// Language tag; `None` lets the service auto-detect.
    pub language: Option<String>,
    /// Text the service conditions on before the first chunk.
    pub initial_prompt: Option<String>,
    /// Whether to attribute speech segments to distinct speakers.
    pub diarization: bool,
    /// Requested speaker count; checked against the wire integer width
    /// before any call is made.
    pub num_speakers: u32,
}

impl Default for TranscribeOptions {
    /// No language tag, no prompt, no diarization, no requested speakers.
    fn default() -> (r: Self)
        ensures
            r.language is None,
            r.initial_prompt is None,
            !r.diarization,
            r.num_speakers == 0,
    {
        TranscribeOptions { language: None, initial_prompt: None, diarization: false, num_speakers: 0 }
    }
}

/// One recognised word. Times are in whole milliseconds from the start of
/// the audio; confidence is in parts per million of certainty (the intended
/// range [0, 1] scaled by 1 000 000, passed through unenforced).
#[derive(Debug, Clone, PartialEq)]
pub struct Word {
    pub start_ms: u64,
    pub end_ms: u64,
    pub text: String,
    pub confidence_ppm: u32,
}

/// One incremental unit of the streamed transcript: a bounded time window of
/// recognised text, with per-word detail. Units as in [`Word`]; `speaker_id`
/// is empty when diarization is disabled.
#[derive(Debug, Clone, PartialEq)]
pub struct TranscriptChunk {
    pub start_ms: u64,
    pub end_ms: u64,
    pub text: String,
    pub speaker_id: String,
    pub confidence_ppm: u32,
    pub words: Vec<Word>,
}

/// The one request a transcription run sends, in the shape the wire expects:
/// absent language and prompt travel as empty strings, and the speaker count
/// has been checked to fit the wire's signed 32-bit field.
#[derive(Debug, Clone)]
pub struct TranscribeRequest {
    pub audio_path: String,
    pub language: String,
    pub diarization: bool,
    pub num_speakers: i32,
    pub initial_prompt: String,
}

/// The text an optional field contributes to the request: the wire carries
/// an absent option as the empty string.
pub open spec fn or_empty(o: Option<String>) -> Seq<char> {
    match o {
        Some(s) => s@,
        None => Seq::empty(),
    }
}

/// A connection to the local speech-to-text service, identified by the
/// socket path it was established for. One strategy value belongs to one
/// pipeline run.
pub struct LocalSttStrategy {
    socket_path: String,
}

/// Why a transcription call was refused before anything was sent: the audio
/// file was gone, or the requested speaker count cannot travel on the wire.
pub open spec fn transcribe_reject_wf(
    e: SttError,
    audio_path: Seq<char>,
    options: TranscribeOptions,
) -> bool {
    match e {
        SttError::AudioFileNotFound(p) => p@ == audio_path,
        SttError::Service { code, message } => code == GRPC_INVALID_ARGUMENT
            && options.num_speakers > MAX_WIRE_SPEAKERS,
        _ => false,
    }
}

impl LocalSttStrategy {
    /// The socket path this connection was established for.
    pub closed spec fn socket_path_spec(&self) -> Seq<char> {
        self.socket_path@
    }

    /// The connection decision, given whether an endpoint exists at the
    /// path: a missing endpoint is refused as `SocketNotFound` before any
    /// RPC attempt, and nothing else is refused.
    pub fn connect_decision(socket_path: &str, endpoint_exists: bool) -> (r: Result<
        LocalSttStrategy,
        SttError,
    >)
        ensures
            endpoint_exists ==> (r matches Ok(c) && c.socket_path_spec() == socket_path@),
            !endpoint_exists ==> (r matches Err(SttError::SocketNotFound(p)) && p@
                == socket_path@),
    {
        if endpoint_exists {
            Ok(LocalSttStrategy { socket_path: socket_path.to_owned() })
        } else {
            Err(SttError::SocketNotFound(socket_path.to_owned()))
        }
    }

    /// Prepares a connection to the service listening at `socket_path`,
    /// probing the filesystem for the endpoint. The probe's answer depends
    /// on the disk; whatever it was, success carries the path it was asked
    /// for and the only refusal is `SocketNotFound` with that path.
    pub fn connect(socket_path: &str) -> (r: Result<LocalSttStrategy, SttError>)
        ensures
            r matches Ok(c) ==> c.socket_path_spec() == socket_path@,
            r matches Err(e) ==> (e matches SttError::SocketNotFound(p) && p@ == socket_path@),
    {
        let endpoint_exists = path_exists(socket_path);
        Self::connect_decision(socket_path, endpoint_exists)
    }

    /// The socket path to dial for this connection.
    pub fn socket_path(&self) -> (r: &str)
        ensures
            r@ == self.socket_path_spec(),
    {
        self.socket_path.as_str()
    }

    /// The request-construction decision, given whether the audio file still
    /// exists: a missing file is refused as `AudioFileNotFound`; a speaker
    /// count over the wire's integer width is refused as an invalid-argument
    /// service error, never truncated; anything else yields the one request
    /// to send, with absent options as empty strings and the speaker count
    /// carried exactly.
    pub fn build_request(audio_path: &str, audio_exists: bool, options: TranscribeOptions) -> (r:
        Result<TranscribeRequest, SttError>)
        ensures
            !audio_exists ==> (r matches Err(SttError::AudioFileNotFound(p)) && p@
                == audio_path@),
            (audio_exists && options.num_speakers > MAX_WIRE_SPEAKERS) ==> (r matches Err(
                SttError::Service { code, message },
            ) && code == GRPC_INVALID_ARGUMENT && message@
                == "num_speakers exceeds the wire integer range"@),
            (audio_exists && options.num_speakers <= MAX_WIRE_SPEAKERS) ==> (r matches Ok(q)
                && q.audio_path@ == audio_path@ && q.language@ == or_empty(options.language)
                && q.diarization == options.diarization && q.num_speakers == options.num_speakers
                as i32 && q.initial_prompt@ == or_empty(options.initial_prompt)),
    {
        if !audio_exists {
            return Err(SttError::AudioFileNotFound(audio_path.to_owned()));
        }
        if options.num_speakers > MAX_WIRE_SPEAKERS {
            return Err(
                SttError::Service {
                    code: GRPC_INVALID_ARGUMENT,
                    message: "num_speakers exceeds the wire integer range".to_owned(),
                },
            );
        }
        let language = match options.language {
            Some(l) => l,
            None => String::new(),
        };
        let initial_prompt = match options.initial_prompt {
            Some(p) => p,
            None => String::new(),
        };
        Ok(
            TranscribeRequest {
                audio_path: audio_path.to_owned(),
                language,
                diarization: options.diarization,
                num_speakers: options.num_speakers as i32,
                initial_prompt,
            },
        )
    }

    /// Prepares the streaming transcription call: re-probes that the audio
    /// file still exists — a defence against a race between validation and
    /// the call — and constructs the request. The probe's answer depends on
    /// the disk; whatever it was, success carries exactly the given path and
    /// options, an oversized speaker count is always refused, and every
    /// refusal is one of the two this call may make.
    pub fn prepare_transcribe(&self, audio_path: &str, options: TranscribeOptions) -> (r: Result<
        TranscribeRequest,
        SttError,
    >)
        ensures
            r matches Ok(q) ==> q.audio_path@ == audio_path@ && q.language@ == or_empty(
                options.language,
            ) && q.diarization == options.diarization && q.num_speakers == options.num_speakers
                as i32 && options.num_speakers <= MAX_WIRE_SPEAKERS && q.initial_prompt@
                == or_empty(options.initial_prompt),
            r matches Err(e) ==> transcribe_reject_wf(e, audio_path@, options),
            options.num_speakers > MAX_WIRE_SPEAKERS ==> r is Err,
    {
        let audio_exists = path_exists(audio_path);
        Self::build_request(audio_path, audio_exists, options)
    }
}

} // verus!
