//! Core of an earnings-call transcription pipeline: pre-flight validation of
//! untrusted media files, construction of streaming transcription requests for
//! a local speech-to-text service, and incremental assembly of the transcript
//! from a stream of server-pushed chunks.
//!
//! The library holds the decision logic of the pipeline, verified with Verus.
//! The transport itself (a gRPC stream over a Unix-domain socket) is driven by
//! an unverified binary that feeds events back into this crate.

pub mod domain;
pub mod earnings_processor;
pub mod pipeline;
pub mod stt;
