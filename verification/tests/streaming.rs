//! Stream consumption, partial-failure handling, and stage-tagged errors.

use std::io::Write;

use tempfile::NamedTempFile;
use vetta_core::earnings_processor::IngestError;
use vetta_core::pipeline::{
    consume_stream, prepare_pipeline, PipelineError, StreamEvent, TranscriptProgress,
};
use vetta_core::stt::{SttError, TranscribeOptions, TranscriptChunk, Word};

fn chunk(start_ms: u64, end_ms: u64, text: &str) -> TranscriptChunk {
    TranscriptChunk {
        start_ms,
        end_ms,
        text: text.to_string(),
        speaker_id: String::new(),
        confidence_ppm: 950_000,
        words: vec![],
    }
}

#[test]
fn test_consume_all_chunks() {
    let events = vec![
        StreamEvent::Chunk(chunk(0, 1_500, "good morning")),
        StreamEvent::Chunk(chunk(1_500, 4_000, "and welcome")),
        StreamEvent::Chunk(chunk(4_000, 6_250, "to the call")),
    ];
    let outcome = consume_stream(events);
    assert!(outcome.fault.is_none());
    assert_eq!(outcome.progress.segment_count(), 3);
    assert_eq!(outcome.progress.span_start_ms(), 0);
    assert_eq!(outcome.progress.span_end_ms(), 6_250);
    let texts: Vec<&str> = outcome
        .progress
        .chunks()
        .iter()
        .map(|c| c.text.as_str())
        .collect();
    assert_eq!(texts, ["good morning", "and welcome", "to the call"]);
}

#[test]
fn test_consume_partial_fault() {
    // Two chunks consumed, then a fault: both chunks stay available in
    // delivery order, the fault is reported, and nothing after it is read.
    let fault = SttError::Service {
        code: 13,
        message: "decoder crashed".to_string(),
    };
    let events = vec![
        StreamEvent::Chunk(chunk(0, 2_000, "first")),
        StreamEvent::Chunk(chunk(2_000, 3_500, "second")),
        StreamEvent::Fault(fault.clone()),
        StreamEvent::Chunk(chunk(3_500, 9_000, "never delivered")),
    ];
    let outcome = consume_stream(events);
    assert_eq!(outcome.fault, Some(fault.clone()));
    assert_eq!(outcome.progress.segment_count(), 2);
    assert_eq!(outcome.progress.chunks()[0].text, "first");
    assert_eq!(outcome.progress.chunks()[1].text, "second");
    assert_eq!(outcome.progress.span_end_ms(), 3_500);

    let (chunks, report) = outcome.into_report();
    assert_eq!(chunks.len(), 2);
    assert_eq!(chunks[0].text, "first");
    assert_eq!(chunks[1].text, "second");
    assert_eq!(report, Err(PipelineError::Stream(fault)));
}

#[test]
fn test_consume_keeps_word_detail() {
    let mut first = chunk(0, 2_000, "net revenue grew");
    first.words = vec![
        Word {
            start_ms: 0,
            end_ms: 500,
            text: "net".to_string(),
            confidence_ppm: 990_000,
        },
        Word {
            start_ms: 500,
            end_ms: 1_100,
            text: "revenue".to_string(),
            confidence_ppm: 985_000,
        },
    ];
    let outcome = consume_stream(vec![StreamEvent::Chunk(first.clone())]);
    assert_eq!(outcome.progress.chunks()[0], first);
    assert_eq!(outcome.progress.chunks()[0].words[1].text, "revenue");
}

#[test]
fn test_consume_empty_stream() {
    let outcome = consume_stream(vec![]);
    assert!(outcome.fault.is_none());
    assert_eq!(outcome.progress.segment_count(), 0);
    let (chunks, report) = outcome.into_report();
    assert!(chunks.is_empty());
    assert_eq!(report, Ok(0));
}

#[test]
fn test_consume_fault_first() {
    let fault = SttError::Service {
        code: 14,
        message: "service unavailable".to_string(),
    };
    let events = vec![StreamEvent::Fault(fault.clone())];
    let outcome = consume_stream(events);
    assert_eq!(outcome.fault, Some(fault));
    assert_eq!(outcome.progress.segment_count(), 0);
}

#[test]
fn test_consume_report_counts_segments() {
    let events = vec![
        StreamEvent::Chunk(chunk(0, 100, "a")),
        StreamEvent::Chunk(chunk(100, 200, "b")),
    ];
    let (chunks, report) = consume_stream(events).into_report();
    assert_eq!(chunks.len(), 2);
    assert_eq!(report, Ok(2));
}

#[test]
fn test_progress_span_tolerates_out_of_order() {
    // Delivery is assumed non-decreasing in start time but never required:
    // the span is a running minimum and maximum, not the last value seen.
    let mut progress = TranscriptProgress::new();
    progress.push_chunk(chunk(5_000, 7_000, "later"));
    progress.push_chunk(chunk(1_000, 2_000, "earlier"));
    assert_eq!(progress.span_start_ms(), 1_000);
    assert_eq!(progress.span_end_ms(), 7_000);
    assert_eq!(progress.segment_count(), 2);
    assert_eq!(progress.chunks()[0].text, "later");
    assert_eq!(progress.chunks()[1].text, "earlier");
}

#[test]
fn test_pipeline_validation_stage() {
    let result = prepare_pipeline(
        "no_such_input.mp3",
        "/tmp/whisper.sock",
        TranscribeOptions::default(),
    );
    match result {
        Err(PipelineError::Validation(IngestError::FileNotFound(p))) => {
            assert_eq!(p, "no_such_input.mp3")
        }
        _ => panic!("Expected a validation-stage failure"),
    }
}

#[test]
fn test_pipeline_connect_stage() {
    let mut audio = NamedTempFile::new().unwrap();
    audio
        .write_all(&[0x49, 0x44, 0x33, 0x03, 0x00, 0x00, 0x00, 0x00, 0x00, 0x00])
        .unwrap();
    let result = prepare_pipeline(
        audio.path().to_str().unwrap(),
        "/tmp/no_such_endpoint_for_pipeline.sock",
        TranscribeOptions::default(),
    );
    match result {
        Err(PipelineError::Connect(SttError::SocketNotFound(p))) => {
            assert_eq!(p, "/tmp/no_such_endpoint_for_pipeline.sock")
        }
        _ => panic!("Expected a connect-stage failure"),
    }
}

#[test]
fn test_pipeline_plan() {
    let mut audio = NamedTempFile::new().unwrap();
    audio
        .write_all(&[0x49, 0x44, 0x33, 0x03, 0x00, 0x00, 0x00, 0x00, 0x00, 0x00])
        .unwrap();
    let endpoint = NamedTempFile::new().unwrap();
    let options = TranscribeOptions {
        language: Some("en".to_string()),
        initial_prompt: None,
        diarization: false,
        num_speakers: 2,
    };
    let plan = prepare_pipeline(
        audio.path().to_str().unwrap(),
        endpoint.path().to_str().unwrap(),
        options,
    )
    .unwrap();
    assert_eq!(plan.descriptor.mime_type, "audio/mpeg");
    assert_eq!(plan.descriptor.path, audio.path().to_str().unwrap());
    assert_eq!(plan.client.socket_path(), endpoint.path().to_str().unwrap());
    assert_eq!(plan.request.audio_path, audio.path().to_str().unwrap());
    assert_eq!(plan.request.language, "en");
    assert_eq!(plan.request.num_speakers, 2);
}

#[test]
fn test_pipeline_speaker_overflow_is_stream_stage() {
    let mut audio = NamedTempFile::new().unwrap();
    audio
        .write_all(&[0x49, 0x44, 0x33, 0x03, 0x00, 0x00, 0x00, 0x00, 0x00, 0x00])
        .unwrap();
    let endpoint = NamedTempFile::new().unwrap();
    let options = TranscribeOptions {
        language: None,
        initial_prompt: None,
        diarization: true,
        num_speakers: u32::MAX,
    };
    let result = prepare_pipeline(
        audio.path().to_str().unwrap(),
        endpoint.path().to_str().unwrap(),
        options,
    );
    match result {
        Err(PipelineError::Stream(SttError::Service { code, .. })) => assert_eq!(code, 3),
        _ => panic!("Expected a stream-stage invalid-argument failure"),
    }
}
