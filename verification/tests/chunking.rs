use edgequake::chunker::{
    ChunkResult,
    estimate_tokens, Chunker, ChunkerConfig, ChunkingStrategy, CharacterBasedChunking,
    TokenBasedChunking, DEFAULT_CHUNK_OVERLAP, DEFAULT_CHUNK_SIZE,
};
use edgequake::extraction::extraction_language;
use edgequake::ingest::prefixed_message;

#[test]
fn default_chunker_is_token_based_with_defaults() {
    let c = Chunker::default_chunker();
    assert_eq!(c.strategy_name(), "token_based");
    assert_eq!(c.config().chunk_size, DEFAULT_CHUNK_SIZE);
    assert_eq!(c.config().chunk_overlap, DEFAULT_CHUNK_OVERLAP);
    assert_eq!(c.config().split_by_character, None);
    assert!(!c.config().split_by_character_only);
}

#[test]
fn character_chunker_splits_by_character_only() {
    let c = Chunker::character_chunker("\n\n".to_string());
    assert_eq!(c.strategy_name(), "character_based");
    assert_eq!(c.config().split_by_character.as_deref(), Some("\n\n"));
    assert!(c.config().split_by_character_only);
    assert_eq!(c.config().chunk_size, 800);
    assert_eq!(CharacterBasedChunking::by_newline().separator, "\n");
}

#[test]
fn custom_strategy_keeps_config() {
    let config = ChunkerConfig { chunk_size: 300, ..ChunkerConfig::default() };
    let c = Chunker::with_strategy(config, TokenBasedChunking);
    assert_eq!(c.config().chunk_size, 300);
    assert_eq!(TokenBasedChunking.name(), "token_based");
    let d = Chunker::new(ChunkerConfig::default());
    assert_eq!(d.config().chunk_size, 800);
}

#[test]
fn token_estimate_counts_utf8_bytes() {
    assert_eq!(estimate_tokens(""), 0);
    assert_eq!(estimate_tokens("abcd"), 1);
    assert_eq!(estimate_tokens("\u{3008}\u{3009}"), 1);
}

#[test]
fn extraction_language_defaults_to_english() {
    assert_eq!(extraction_language(None), "English");
    assert_eq!(extraction_language(Some("  ".to_string())), "English");
    assert_eq!(extraction_language(Some("Korean".to_string())), "Korean");
}

#[test]
fn prefixed_messages() {
    assert_eq!(prefixed_message("Chunking failed: ", "boom"), "Chunking failed: boom");
}

#[test]
fn placed_chunks_get_ids_and_byte_ranges() {
    let results = vec![
        ChunkResult { content: "ab".to_string(), tokens: 0, chunk_order_index: 0 },
        ChunkResult { content: "\u{3008}x".to_string(), tokens: 1, chunk_order_index: 1 },
        ChunkResult { content: "".to_string(), tokens: 0, chunk_order_index: 2 },
    ];
    let placed = Chunker::<TokenBasedChunking>::place_chunks(&results, "doc-9");
    let got: Vec<(String, usize, usize, usize)> = placed
        .into_iter()
        .map(|p| (p.id, p.index, p.start_offset, p.end_offset))
        .collect();
    assert_eq!(
        got,
        vec![
            ("doc-9-chunk-0".to_string(), 0, 0, 2),
            ("doc-9-chunk-1".to_string(), 1, 2, 6),
            ("doc-9-chunk-2".to_string(), 2, 6, 6),
        ]
    );
}
