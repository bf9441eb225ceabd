use edgequake::error::PipelineError;
use edgequake::extraction::{
    assign_token_usage, base_max_tokens, classify_answer, recommended_chunk_size_for_bytes,
    record_extraction_success, ExtractionAttempts, ExtractionEvent, ExtractionResult,
    ExtractionStep, MetadataValue,
};

#[test]
fn recommended_chunk_size_by_document_size() {
    assert_eq!(recommended_chunk_size_for_bytes(10_000), 1200);
    assert_eq!(recommended_chunk_size_for_bytes(50_000), 1200);
    assert_eq!(recommended_chunk_size_for_bytes(50_001), 800);
    assert_eq!(recommended_chunk_size_for_bytes(100_000), 800);
    assert_eq!(recommended_chunk_size_for_bytes(100_001), 600);
}

#[test]
fn token_usage_is_copied() {
    let mut r = ExtractionResult { input_tokens: 0, output_tokens: 0, extraction_time_ms: 42, metadata: vec![] };
    assign_token_usage(&mut r, 1000, 500);
    assert_eq!((r.input_tokens, r.output_tokens, r.extraction_time_ms), (1000, 500, 42));
}

#[test]
fn base_budget_by_chunk_size() {
    assert_eq!(base_max_tokens(0), 4096);
    assert_eq!(base_max_tokens(24_999), 4096);
    assert_eq!(base_max_tokens(25_000), 8192);
    assert_eq!(base_max_tokens(100_000), 12288);
    assert_eq!(base_max_tokens(125_000), 16384);
}

#[test]
fn oversized_chunk_is_rejected_up_front() {
    match ExtractionAttempts::start("c-1".to_string(), 8192) {
        Err(PipelineError::Validation(m)) => {
            assert!(m.starts_with("Chunk too large for LLM processing. Chunk size: 8KB (~2048 tokens, max: 1500)."));
            assert!(m.contains("Set chunk_size=1200 for this document size"));
            assert!(m.ends_with("Chunk ID: c-1 | Document size: ~8KB"));
        }
        _ => panic!("expected a validation error"),
    }
}

#[test]
fn call_failures_retry_with_backoff_then_fail() {
    let mut s = ExtractionAttempts::start("c-2".to_string(), 4000).ok().unwrap();
    assert_eq!((s.attempt(), s.current_max_tokens()), (1, 4096));
    let step = s.step(ExtractionEvent::CallFailed { error_text: "connection reset".to_string() });
    assert!(matches!(step, ExtractionStep::Retry { delay_ms: 100 }));
    let step = s.step(ExtractionEvent::CallFailed { error_text: "connection reset".to_string() });
    assert!(matches!(step, ExtractionStep::Retry { delay_ms: 200 }));
    assert_eq!(s.attempt(), 3);
    match s.step(ExtractionEvent::CallFailed { error_text: "connection reset".to_string() }) {
        ExtractionStep::Fail(e) => {
            assert_eq!(e, PipelineError::ExtractionError("LLM error: connection reset".to_string()))
        }
        _ => panic!("expected the last attempt to fail"),
    }
    assert_eq!(s.attempt(), 3);
}

#[test]
fn timeout_error_is_diagnosed() {
    let mut s = ExtractionAttempts::start("c-3".to_string(), 2048).ok().unwrap();
    let _ = s.step(ExtractionEvent::CallFailed { error_text: "x".to_string() });
    let _ = s.step(ExtractionEvent::CallFailed { error_text: "x".to_string() });
    match s.step(ExtractionEvent::CallFailed { error_text: "Request Timed Out".to_string() }) {
        ExtractionStep::Fail(PipelineError::ExtractionError(m)) => {
            assert!(m.starts_with("LLM timeout after 120s. Chunk: 2KB (~512 tokens, max: 1500)."));
            assert!(m.ends_with("Chunk ID: c-3 | Attempt: 3/3 | Document size: ~2KB | Original error: Request Timed Out"));
        }
        _ => panic!("expected a timeout failure"),
    }
}

#[test]
fn truncation_doubles_budget_up_to_ceiling() {
    let mut s = ExtractionAttempts::start("c-4".to_string(), 100).ok().unwrap();
    let step = s.step(ExtractionEvent::Truncated { completion_tokens: 4096 });
    assert!(matches!(step, ExtractionStep::Retry { delay_ms: 100 }));
    assert_eq!(s.current_max_tokens(), 8192);
    let step = s.step(ExtractionEvent::ParseFailed {
        error: PipelineError::ExtractionError("parse".to_string()),
        error_text: "EOF while parsing an object".to_string(),
    });
    assert!(matches!(step, ExtractionStep::Retry { delay_ms: 200 }));
    assert_eq!(s.current_max_tokens(), 16384);
    match s.step(ExtractionEvent::Truncated { completion_tokens: 16384 }) {
        ExtractionStep::Fail(PipelineError::ExtractionError(m)) => assert_eq!(
            m,
            "JSON still truncated after 3 retries. Max tokens reached: 16384. Document may be too large for entity extraction. Suggestion: Split document into smaller chunks or use a model with larger context window."
        ),
        _ => panic!("expected the truncation to be final"),
    }
}

#[test]
fn parsed_answer_reports_attempts_and_budget() {
    let mut s = ExtractionAttempts::start("c-5".to_string(), 5_000).ok().unwrap();
    let _ = s.step(ExtractionEvent::EmptyResponse { prompt_tokens: 10, completion_tokens: 0 });
    match s.step(ExtractionEvent::Parsed) {
        ExtractionStep::Done { parse_attempts, max_tokens_used } => {
            assert_eq!((parse_attempts, max_tokens_used), (2, 4096))
        }
        _ => panic!("expected done"),
    }
}

#[test]
fn success_records_tokens_and_metadata() {
    let mut r = ExtractionResult::default();
    r.metadata.push(("chunk".to_string(), MetadataValue::Count(1)));
    record_extraction_success(&mut r, 900, 300, 1234, "Korean", "gpt-4o-mini", 2, 8192);
    assert_eq!((r.input_tokens, r.output_tokens, r.extraction_time_ms), (900, 300, 1234));
    assert_eq!(
        r.metadata,
        vec![
            ("chunk".to_string(), MetadataValue::Count(1)),
            ("extractor".to_string(), MetadataValue::Text("sota".to_string())),
            ("language".to_string(), MetadataValue::Text("Korean".to_string())),
            ("model".to_string(), MetadataValue::Text("gpt-4o-mini".to_string())),
            ("parse_attempts".to_string(), MetadataValue::Count(2)),
            ("max_tokens_used".to_string(), MetadataValue::Count(8192)),
        ]
    );
}

#[test]
fn answers_are_classified_before_parsing() {
    assert!(matches!(
        classify_answer("  \n ", &Some("length".to_string()), 10, 5),
        Some(ExtractionEvent::EmptyResponse { prompt_tokens: 10, completion_tokens: 5 })
    ));
    assert!(matches!(
        classify_answer("(entity", &Some("finish:length".to_string()), 10, 4096),
        Some(ExtractionEvent::Truncated { completion_tokens: 4096 })
    ));
    assert!(classify_answer("(entity)", &Some("stop".to_string()), 10, 5).is_none());
    assert!(classify_answer("(entity)", &None, 10, 5).is_none());
}
