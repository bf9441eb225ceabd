use edgequake::workspace::{
    adaptive_chunker_selected, lookup_outcome, parse_workspace_id, provider_failure, PipelineFallbackPolicy,
    WorkspacePipelineFactory, WorkspaceResolutionFailure,
};

#[test]
fn strict_mode_fails_on_invalid_workspace_id() {
    let factory = WorkspacePipelineFactory::new((), "global");
    let failure = WorkspaceResolutionFailure::InvalidId { workspace_id: "not-a-valid-uuid".to_string() };
    let err = factory
        .handle_failure(PipelineFallbackPolicy::Strict, &failure)
        .expect_err("expected strict resolution to fail");
    assert!(err.contains("Invalid workspace ID"));
    assert_eq!(err, "Invalid workspace ID format 'not-a-valid-uuid'");
}

#[test]
fn lenient_mode_falls_back_on_invalid_workspace_id() {
    let factory = WorkspacePipelineFactory::new((), "global");
    let failure = WorkspaceResolutionFailure::InvalidId { workspace_id: "not-a-valid-uuid".to_string() };
    let p = factory.handle_failure(PipelineFallbackPolicy::LenientGlobal, &failure).unwrap();
    assert_eq!(*p, "global");
    assert_eq!(*factory.global_pipeline(), "global");
}

#[test]
fn strict_mode_fails_when_workspace_missing() {
    let factory = WorkspacePipelineFactory::new((), 0u8);
    let missing = lookup_outcome::<u8>("ws-1", Ok(None)).unwrap_err();
    let err = factory
        .handle_failure(PipelineFallbackPolicy::Strict, &missing)
        .expect_err("expected strict resolution to fail");
    assert!(err.contains("not found"));
    assert_eq!(err, "Workspace 'ws-1' not found");
}

#[test]
fn lookup_outcomes() {
    assert_eq!(lookup_outcome("w", Ok(Some(5u8))).ok(), Some(5));
    let e = lookup_outcome::<u8>("w", Err("db".to_string())).unwrap_err();
    assert_eq!(e.message(), "Failed to lookup workspace 'w': db");
}

#[test]
fn provider_failures_name_what_failed() {
    assert!(provider_failure(Ok(()), Ok(()), "openai", "gpt", "openai", "emb").is_none());
    let f = provider_failure(Err("no key".to_string()), Ok(()), "openai", "gpt-4o", "openai", "emb").unwrap();
    assert_eq!(f.message(), "Failed to create LLM provider 'openai' / 'gpt-4o': no key");
    let f = provider_failure(Ok(()), Err("bad dim".to_string()), "openai", "gpt-4o", "ollama", "nomic").unwrap();
    assert_eq!(f.message(), "Failed to create embedding provider 'ollama' / 'nomic': bad dim");
    let f = provider_failure(Err("a".to_string()), Err("b".to_string()), "x", "y", "z", "w").unwrap();
    assert_eq!(f.message(), "Failed to create LLM (a) and embedding (b) providers");
}

#[test]
fn adaptive_chunker_only_for_exact_setting() {
    assert!(adaptive_chunker_selected(Some("adaptive")));
    assert!(!adaptive_chunker_selected(Some("Adaptive")));
    assert!(!adaptive_chunker_selected(None));
}

#[test]
fn workspace_ids_parse_or_fail_as_invalid() {
    assert_eq!(parse_workspace_id("00000000-0000-0000-0000-00000000002a").ok(), Some(42));
    let f = parse_workspace_id("not-a-valid-uuid").unwrap_err();
    assert_eq!(f.message(), "Invalid workspace ID format 'not-a-valid-uuid'");
}
