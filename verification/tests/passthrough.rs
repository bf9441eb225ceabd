use edgequake::chunker::{ChunkerConfig, ChunkingStrategy, PassthroughStrategy};

const RS: char = '\u{1e}';

fn chunk(content: &str) -> Vec<(String, usize)> {
    let strategy = PassthroughStrategy;
    let config = ChunkerConfig::default();
    strategy
        .chunk(content, &config)
        .expect("passthrough chunking should not fail")
        .into_iter()
        .map(|r| (r.content, r.chunk_order_index))
        .collect()
}

#[test]
fn splits_on_record_separator_preserving_order() {
    let content = format!("a{RS}b{RS}c");
    let chunks = chunk(&content);
    assert_eq!(
        chunks,
        vec![
            ("a".to_string(), 0),
            ("b".to_string(), 1),
            ("c".to_string(), 2),
        ]
    );
}

#[test]
fn single_fragment_without_separator_is_one_chunk() {
    let chunks = chunk("only one chunk here");
    assert_eq!(chunks, vec![("only one chunk here".to_string(), 0)]);
}

#[test]
fn empty_fragments_are_skipped_and_order_is_contiguous() {
    let content = format!("{RS}a{RS}{RS}b{RS}");
    let chunks = chunk(&content);
    assert_eq!(chunks, vec![("a".to_string(), 0), ("b".to_string(), 1)]);
}

#[test]
fn all_empty_yields_no_chunks() {
    let content = format!("{RS}{RS}");
    let chunks = chunk(&content);
    assert!(chunks.is_empty());
}

#[test]
fn strategy_name_is_passthrough() {
    assert_eq!(PassthroughStrategy.name(), "passthrough");
}

#[test]
fn passthrough_tokens_are_bytes_over_four() {
    let content = format!("abcdefgh{RS}xyz");
    let chunks = PassthroughStrategy
        .chunk(&content, &ChunkerConfig::default())
        .unwrap();
    assert_eq!(chunks[0].tokens, 2);
    assert_eq!(chunks[1].tokens, 0);
    let joined: String = chunks.iter().map(|c| c.content.as_str()).collect();
    assert_eq!(joined, "abcdefghxyz");
}
