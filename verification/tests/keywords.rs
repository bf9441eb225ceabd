use edgequake::error::QueryError;
use edgequake::keywords::{
    default_intent, is_mock_provider, keyword_parse_failure, keyword_parse_outcome,
    CachedKeywordExtractor, LLMKeywordExtractor, DEFAULT_KEYWORD_TTL_SECS,
};

#[test]
fn test_llm_extractor_prompt_generation() {
    let extractor = LLMKeywordExtractor::new(());

    let prompt = extractor.build_prompt("What is AI?");
    assert!(prompt.contains("What is AI?"));
    assert!(prompt.contains("high_level_keywords"));
    assert!(prompt.contains("low_level_keywords"));
    assert!(prompt.contains("query_intent"));
}

#[test]
fn test_json_extraction() {
    let extractor = LLMKeywordExtractor::new(());

    // Pure JSON
    let json = r#"{"high_level_keywords": ["ai"], "low_level_keywords": ["gpt"], "query_intent": "factual"}"#;
    let result = extractor.extract_json(json).unwrap();
    assert!(result.contains("high_level_keywords"));

    // JSON with surrounding text
    let messy = r#"Here is the JSON:
{"high_level_keywords": ["ai"], "low_level_keywords": ["gpt"], "query_intent": "factual"}
Done!"#;
    let result = extractor.extract_json(messy).unwrap();
    assert!(result.contains("high_level_keywords"));
}

#[test]
fn extract_json_exact_results() {
    let e = LLMKeywordExtractor::new(());
    assert_eq!(e.extract_json("{\"a\": [1, {}]}").unwrap(), "{\"a\": [1, {}]}");
    assert_eq!(e.extract_json("  {\"a\": {\"b\": 1}} trailing }").unwrap(), "{\"a\": {\"b\": 1}}");
    assert_eq!(
        e.extract_json("text ```json\n {\"k\": 1} \n```\nmore").unwrap(),
        "{\"k\": 1}"
    );
    assert_eq!(e.extract_json("say {\"k\": 2} ok").unwrap(), "{\"k\": 2}");
    assert_eq!(
        e.extract_json("  no json here  "),
        Err(QueryError::Internal(
            "Could not find JSON in response: no json here".to_string()
        ))
    );
}

#[test]
fn try_fix_json_repairs_quotes_and_trailing_commas() {
    let e = LLMKeywordExtractor::new(());
    assert_eq!(
        e.try_fix_json("{'a': ['x', 'y',], 'b': 1,}").unwrap(),
        "{\"a\": [\"x\", \"y\"], \"b\": 1}"
    );
    assert_eq!(e.try_fix_json("{\"ok\": true}").unwrap(), "{\"ok\": true}");
    assert_eq!(e.try_fix_json("[1 ,\n ]").unwrap(), "[1 ]");
}

#[test]
fn default_intent_is_exploratory() {
    assert_eq!(default_intent(), "exploratory");
}

#[test]
fn mock_provider_is_matched_ignoring_case() {
    assert!(is_mock_provider("mock"));
    assert!(is_mock_provider("MoCk"));
    assert!(!is_mock_provider("mocker"));
    assert!(!is_mock_provider("openai"));
}

#[test]
fn parse_outcome_prefers_first_then_repaired() {
    let ok: Result<u32, QueryError> = keyword_parse_outcome("{}", Ok(1), None);
    assert_eq!(ok, Ok(1));
    let repaired = keyword_parse_outcome("{'a':1,}", Err::<u32, String>("bad".to_string()), Some(Ok(2)));
    assert_eq!(repaired, Ok(2));
    let failed = keyword_parse_outcome("{x}", Err::<u32, String>("e1".to_string()), Some(Err("e2".to_string())));
    assert_eq!(
        failed,
        Err(QueryError::Internal(
            "Failed to parse keyword JSON after fix attempt: e1. Response: {x}".to_string()
        ))
    );
    assert_eq!(failed, Err(keyword_parse_failure("e1", "{x}")));
}

#[test]
fn cached_extractor_default_ttl_is_one_day() {
    let c = CachedKeywordExtractor::with_default_ttl("inner", "cache");
    assert_eq!(c.ttl(), std::time::Duration::from_secs(24 * 60 * 60));
    assert_eq!(DEFAULT_KEYWORD_TTL_SECS, 86400);
    assert_eq!(*c.inner(), "inner");
    assert_eq!(*c.cache(), "cache");
    let d = CachedKeywordExtractor::new(1u8, 2u8, std::time::Duration::from_secs(5));
    assert_eq!(d.ttl(), std::time::Duration::from_secs(5));
}

#[test]
fn out_of_order_markers_are_reported_not_sliced() {
    let e = LLMKeywordExtractor::new(());
    assert_eq!(
        e.extract_json("x ```json {\"a\": 1"),
        Err(QueryError::Internal(
            "Could not find JSON in response: x ```json {\"a\": 1".to_string()
        ))
    );
    assert_eq!(
        e.extract_json("} then {"),
        Err(QueryError::Internal("Could not find JSON in response: } then {".to_string()))
    );
    assert_eq!(e.extract_json("}{").unwrap(), "");
}
