use edgequake::chunker::{ChunkingStrategy, PassthroughStrategy, TokenBasedChunking};
use edgequake::error::PipelineError;
use edgequake::pipeline::{
    batch_concurrency, check_resilient_counts, partition_chunk_outcomes, complete_failure_error, EmbeddedPipeline, FailedChunk, Pipeline,
    PipelineConfig,
};

#[test]
fn test_pipeline_config_defaults() {
    let config = PipelineConfig::default();

    assert_eq!(config.extraction_batch_size, 10);
    assert!(config.enable_entity_extraction);
    assert!(config.enable_chunk_embeddings);
    assert!(config.enable_lineage_tracking);
}

#[test]
fn embedding_limit_caps_chunk_size_with_margin() {
    let mut config = PipelineConfig::default();
    assert_eq!(config.chunker.chunk_size, 800);
    assert!(config.apply_embedding_limit(512));
    assert_eq!(config.chunker.chunk_size, 256);
    // Applying the same limit again changes nothing.
    assert!(!config.apply_embedding_limit(512));
    assert_eq!(config.chunker.chunk_size, 256);
}

#[test]
fn embedding_limit_keeps_fitting_sizes_and_floor() {
    let mut config = PipelineConfig::default();
    assert!(!config.apply_embedding_limit(8192));
    assert_eq!(config.chunker.chunk_size, 800);
    assert!(!config.apply_embedding_limit(0));
    assert_eq!(config.chunker.chunk_size, 800);
    assert!(config.apply_embedding_limit(150));
    assert_eq!(config.chunker.chunk_size, 100);
    assert_eq!(config.chunker.chunk_overlap, 100);
}

#[test]
fn pipeline_builders_keep_capped_size_across_strategy_change() {
    let p: Pipeline<TokenBasedChunking, String, u32> = Pipeline::new(PipelineConfig::default());
    assert!(p.extractor().is_none());
    assert!(p.embedding_provider().is_none());
    assert_eq!(p.chunker().strategy_name(), "token_based");
    let p = p.with_embedding_provider(7, 512).into_pipeline();
    assert_eq!(p.config().chunker.chunk_size, 256);
    assert_eq!(p.chunker().config().chunk_size, 256);
    assert_eq!(p.embedding_provider(), Some(&7));
    let p = p.with_extractor("extractor".to_string());
    assert_eq!(p.extractor().map(|s| s.as_str()), Some("extractor"));
    let p = p.with_chunking_strategy(PassthroughStrategy);
    assert_eq!(p.chunker().strategy_name(), "passthrough");
    assert_eq!(p.chunker().config().chunk_size, 256);
    assert_eq!(PassthroughStrategy.name(), "passthrough");
}

#[test]
fn runs_extraction_needs_flag_extractor_and_no_skip() {
    let mut config = PipelineConfig::default();
    assert!(config.runs_extraction(false, true));
    assert!(!config.runs_extraction(true, true));
    assert!(!config.runs_extraction(false, false));
    config.enable_entity_extraction = false;
    assert!(config.runs_extraction(false, true));
    config.enable_relationship_extraction = false;
    assert!(!config.runs_extraction(false, true));
}

#[test]
fn batch_concurrency_is_at_least_four() {
    assert_eq!(batch_concurrency(0), 4);
    assert_eq!(batch_concurrency(2), 4);
    assert_eq!(batch_concurrency(8), 8);
}

#[test]
fn complete_failure_lists_every_chunk() {
    let failures = vec![
        FailedChunk { chunk_index: 0, error: "boom".to_string() },
        FailedChunk { chunk_index: 1, error: "bad json".to_string() },
    ];
    let e = complete_failure_error(2, &failures);
    assert_eq!(
        e,
        PipelineError::ExtractionError(
            "All 2 chunks failed extraction. Failures: Chunk 0: boom; Chunk 1: bad json"
                .to_string()
        )
    );
}

#[test]
fn resilient_counts_outcomes() {
    assert_eq!(
        check_resilient_counts(0, 0, 0, 0),
        Err(PipelineError::ChunkingError(
            "Document chunking produced 0 chunks - content may be empty or malformed".to_string()
        ))
    );
    assert_eq!(
        check_resilient_counts(5, 0, 4, 1),
        Ok(Some(
            "Extracted 0 entities from 5 chunks (4 succeeded, 1 failed). Document chunks are stored for semantic search."
                .to_string()
        ))
    );
    assert_eq!(check_resilient_counts(5, 3, 5, 0), Ok(None));
}

#[test]
fn capping_drops_a_custom_strategy_and_fitting_keeps_it() {
    let p: Pipeline<TokenBasedChunking, (), u32> = Pipeline::new(PipelineConfig::default());
    let p = p.with_chunking_strategy(PassthroughStrategy);
    match p.with_embedding_provider(1, 4096) {
        EmbeddedPipeline::Kept(k) => {
            assert_eq!(k.chunker().strategy_name(), "passthrough");
            assert_eq!(k.config().chunker.chunk_size, 800);
            assert_eq!(k.embedding_provider(), Some(&1));
            match k.with_embedding_provider(2, 300) {
                EmbeddedPipeline::Rechunked(r) => {
                    assert_eq!(r.chunker().strategy_name(), "token_based");
                    assert_eq!(r.config().chunker.chunk_size, 150);
                    assert_eq!(r.chunker().config().chunk_size, 150);
                    assert_eq!(r.embedding_provider(), Some(&2));
                }
                EmbeddedPipeline::Kept(_) => panic!("expected the size to be capped"),
            }
        }
        EmbeddedPipeline::Rechunked(_) => panic!("expected the size to fit"),
    }
}

#[test]
fn chunk_outcomes_are_split_in_order() {
    let outcomes: Vec<Result<u32, FailedChunk>> = vec![
        Ok(10),
        Err(FailedChunk { chunk_index: 1, error: "timeout".to_string() }),
        Ok(12),
        Err(FailedChunk { chunk_index: 3, error: "bad json".to_string() }),
    ];
    let (ok, bad) = partition_chunk_outcomes(outcomes);
    assert_eq!(ok, vec![10, 12]);
    let idx: Vec<usize> = bad.iter().map(|f| f.chunk_index).collect();
    assert_eq!(idx, vec![1, 3]);
    let all_failed: Vec<Result<u32, FailedChunk>> =
        vec![Err(FailedChunk { chunk_index: 0, error: "x".to_string() })];
    let (ok, bad) = partition_chunk_outcomes(all_failed);
    assert!(ok.is_empty());
    assert_eq!(bad.len(), 1);
}
