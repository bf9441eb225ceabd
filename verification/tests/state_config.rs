use edgequake::state::{default_setup, reranker_choice, AppConfig, DefaultsSetup, RerankerChoice, StorageMode};

#[test]
fn test_storage_mode_as_str() {
    assert_eq!(StorageMode::Memory.as_str(), "memory");
    assert_eq!(StorageMode::PostgreSQL.as_str(), "postgresql");
}

#[test]
fn test_storage_mode_is_memory() {
    assert!(StorageMode::Memory.is_memory());
    assert!(!StorageMode::PostgreSQL.is_memory());
}

#[test]
fn test_storage_mode_is_postgresql() {
    assert!(StorageMode::PostgreSQL.is_postgresql());
    assert!(!StorageMode::Memory.is_postgresql());
}

#[test]
fn test_app_config_default() {
    let config = AppConfig::default();
    assert_eq!(config.workspace_id, "default");
    assert_eq!(config.max_document_size, 50 * 1024 * 1024);
    assert_eq!(config.max_query_length, 10000);
}

#[test]
fn test_app_config_custom() {
    let config = AppConfig {
        workspace_id: "custom-workspace".to_string(),
        max_document_size: 5 * 1024 * 1024,
        max_query_length: 5000,
    };
    assert_eq!(config.workspace_id, "custom-workspace");
    assert_eq!(config.max_document_size, 5 * 1024 * 1024);
    assert_eq!(config.max_query_length, 5000);
}

fn some(s: &str) -> Option<String> {
    Some(s.to_string())
}

#[test]
fn reranker_uses_http_when_base_url_set() {
    match reranker_choice(some("https://rerank.example/v1/rerank"), None, some(""), None) {
        RerankerChoice::Http { model, base_url, api_key } => {
            assert_eq!(model, "Qwen3-Reranker-0.6B");
            assert_eq!(base_url, "https://rerank.example/v1/rerank");
            assert_eq!(api_key, None);
        }
        other => panic!("expected the HTTP re-ranker, got {other:?}"),
    }
    match reranker_choice(some("http://r"), some("m1"), some("k-123"), some("false")) {
        RerankerChoice::Http { model, api_key, .. } => {
            assert_eq!(model, "m1");
            assert_eq!(api_key.as_deref(), Some("k-123"));
        }
        other => panic!("expected the HTTP re-ranker, got {other:?}"),
    }
}

#[test]
fn reranker_falls_back_to_bm25() {
    assert!(matches!(
        reranker_choice(some("   "), None, None, None),
        RerankerChoice::Bm25Enhanced
    ));
    assert!(matches!(
        reranker_choice(None, None, None, some("false")),
        RerankerChoice::Bm25Minimal
    ));
    assert!(matches!(
        reranker_choice(None, None, None, some("FALSE")),
        RerankerChoice::Bm25Enhanced
    ));
    assert!(matches!(
        reranker_choice(None, None, None, some("true")),
        RerankerChoice::Bm25Enhanced
    ));
}

#[test]
fn start_up_defaults() {
    assert_eq!(default_setup(true, 0), DefaultsSetup::EnsureDefaultUser);
    assert_eq!(default_setup(false, 2), DefaultsSetup::AlreadyInitialized);
    match default_setup(false, 0) {
        DefaultsSetup::CreateDefaults(p) => {
            assert_eq!((p.tenant_name.as_str(), p.tenant_slug.as_str()), ("Default", "default"));
            assert_eq!(p.tenant_description, "Default tenant for EdgeQuake");
            assert!(p.pro_plan);
            assert_eq!((p.workspace_name.as_str(), p.workspace_slug.as_str()), ("Default Workspace", "default"));
            assert_eq!(p.embedding_model, "text-embedding-3-small");
        }
        other => panic!("expected the defaults to be created, got {other:?}"),
    }
    // Once created, a second start does nothing.
    assert_eq!(default_setup(false, 1), DefaultsSetup::AlreadyInitialized);
}
