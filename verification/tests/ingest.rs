use edgequake::ingest::{
    cancellation_message, chunk_key_prefix, chunk_progress_text, content_key,
    embedding_failures_message, embedding_progress_text, entity_vector_id, estimated_entities,
    estimated_pdf_chunks, final_document_status, graph_store_failure_message,
    lineage_fields_to_add, lineage_key, merge_source_ids, metadata_key, pipeline_workspace_id,
    processing_outcome, resolve_text_insert_context, scoping_workspace_id,
    should_update_chunk_metadata, vector_storage_unavailable_message, IngestStatus,
    TextInsertMetadata,
};

#[test]
fn context_falls_back_to_file_source_and_markdown() {
    let meta = TextInsertMetadata::default();
    let ctx = resolve_text_insert_context(&meta, "notes.txt");
    assert_eq!(ctx.document_id, "notes.txt");
    assert_eq!(ctx.source_type, "markdown");
    assert!(!ctx.skip_graph_extraction);
    let meta = TextInsertMetadata {
        document_id: Some("doc-1".to_string()),
        source_type: Some("pdf".to_string()),
        skip_graph_extraction: Some(true),
        tenant_id: Some("t".to_string()),
        pdf_id: None,
        workspace_id: None,
    };
    let ctx = resolve_text_insert_context(&meta, "notes.txt");
    assert_eq!((ctx.document_id.as_str(), ctx.source_type.as_str()), ("doc-1", "pdf"));
    assert!(ctx.skip_graph_extraction);
    assert_eq!(ctx.tenant_id.as_deref(), Some("t"));
}

#[test]
fn workspace_selection() {
    let meta_ws = Some("ws-meta".to_string());
    assert_eq!(pipeline_workspace_id("ws-task", &meta_ws).as_deref(), Some("ws-task"));
    assert_eq!(pipeline_workspace_id("default", &meta_ws).as_deref(), Some("ws-meta"));
    assert_eq!(pipeline_workspace_id("", &None), None);
    assert_eq!(scoping_workspace_id(&meta_ws, "ws-task"), "ws-meta");
    assert_eq!(scoping_workspace_id(&None, "ws-task"), "ws-task");
}

#[test]
fn lineage_fields_only_when_missing() {
    let r = lineage_fields_to_add(false, true, false, Some(10), Some(20), None, 30);
    assert_eq!(
        r,
        vec![("file_size_bytes".to_string(), 10), ("document_type".to_string(), 30)]
    );
    let r = lineage_fields_to_add(true, true, true, Some(1), Some(2), Some(3), 4);
    assert!(r.is_empty());
}

#[test]
fn progress_estimates_and_cadence() {
    assert_eq!(estimated_pdf_chunks(1000), 1);
    assert_eq!(estimated_pdf_chunks(9000), 4);
    assert_eq!(estimated_entities(7), 21);
    assert!(should_update_chunk_metadata(0, 10));
    assert!(!should_update_chunk_metadata(1, 10));
    assert!(should_update_chunk_metadata(3, 10));
    assert!(should_update_chunk_metadata(9, 10));
    assert_eq!(chunk_progress_text(2, 10, 30), "Extracting entities: chunk 3/10 (30%)");
    assert_eq!(embedding_progress_text("chunks", 0, 12, 0), "Embedding chunkies: starting (12 total)");
    assert_eq!(embedding_progress_text("entities", 3, 12, 25), "Embedding entities: 3/12 (25%)");
}

#[test]
fn merging_sources_keeps_each_id_once() {
    let existing = vec!["a".to_string(), "b".to_string(), "a".to_string()];
    let merged = merge_source_ids(&existing, &"c".to_string());
    assert_eq!(merged, vec!["a".to_string(), "b".to_string(), "c".to_string()]);
    let again = merge_source_ids(&merged, &"c".to_string());
    assert_eq!(again, merged);
}

#[test]
fn final_status_rules() {
    let none: Vec<String> = vec![];
    let errs = vec!["e1".to_string(), "e2".to_string()];
    assert_eq!(final_document_status(3, 3, 0, false, &none), (IngestStatus::Failed, None));
    assert_eq!(final_document_status(0, 0, 0, false, &none), (IngestStatus::Failed, None));
    assert_eq!(final_document_status(0, 3, 0, true, &none), (IngestStatus::Completed, None));
    assert_eq!(final_document_status(1, 3, 0, false, &none), (IngestStatus::PartialFailure, None));
    assert_eq!(
        final_document_status(0, 3, 5, false, &errs),
        (IngestStatus::PartialFailure, Some("e1; e2".to_string()))
    );
    assert_eq!(final_document_status(1, 3, 5, false, &none), (IngestStatus::Completed, None));
    assert_eq!(IngestStatus::Completed.as_str(), "completed");
    assert_eq!(IngestStatus::Completed.postgres_status(), "indexed");
    assert_eq!(IngestStatus::PartialFailure.postgres_status(), IngestStatus::PartialFailure.as_str());
    assert_eq!(processing_outcome(0), "success");
    assert_eq!(processing_outcome(2), "partial");
}

#[test]
fn keys_and_messages() {
    assert_eq!(metadata_key("d"), "d-metadata");
    assert_eq!(content_key("d"), "d-content");
    assert_eq!(lineage_key("d"), "d-lineage");
    assert_eq!(chunk_key_prefix("d"), "d-chunk-");
    assert_eq!(entity_vector_id("ACME"), "entity:ACME");
    assert_eq!(
        cancellation_message("chunking", "d"),
        "Task cancelled during 'chunking' stage for document d"
    );
    assert_eq!(
        vector_storage_unavailable_message("ws", "down"),
        "CRITICAL: Cannot obtain workspace vector storage for 'ws': down. Document ingestion aborted to prevent data isolation violation."
    );
    assert_eq!(
        graph_store_failure_message(4, "entities", "timeout"),
        "Failed to store 4 entities in graph: timeout"
    );
    assert_eq!(
        embedding_failures_message(2),
        "2 entity embeddings failed to store in vector DB"
    );
}
