use edgequake::ids::{resolve_track_id, task_scope_ids, upload_track_id};
use edgequake::upload::{
    duplicate_action, duplicate_processing_response, initial_upload_status, processed_response,
    queued_response, is_protected_task_key, merge_task_metadata,
    postgres_document_status, sync_timeout_text, sync_upload_status, upload_file_source,
    DuplicateAction,
};

#[test]
fn initial_status_depends_on_mode() {
    assert_eq!(initial_upload_status(true), "pending");
    assert_eq!(initial_upload_status(false), "processing");
}

#[test]
fn protected_task_keys() {
    for k in ["document_id", "title", "tenant_id", "workspace_id"] {
        assert!(is_protected_task_key(k));
    }
    assert!(!is_protected_task_key("source"));
    assert!(!is_protected_task_key("Title"));
}

#[test]
fn caller_metadata_cannot_override_protected_keys() {
    let base = vec![
        ("document_id".to_string(), "doc-1"),
        ("title".to_string(), "Real title"),
    ];
    let user = vec![
        ("title".to_string(), "Injected"),
        ("source".to_string(), "web"),
        ("document_id".to_string(), "doc-evil"),
        ("source".to_string(), "api"),
    ];
    let merged = merge_task_metadata(base, user);
    let get = |k: &str| merged.iter().rev().find(|(key, _)| key == k).map(|(_, v)| *v);
    assert_eq!(get("title"), Some("Real title"));
    assert_eq!(get("document_id"), Some("doc-1"));
    assert_eq!(get("source"), Some("api"));
}

#[test]
fn file_source_and_duplicates() {
    assert_eq!(upload_file_source(&Some("My Doc".to_string()), "doc-1"), "My Doc");
    assert_eq!(upload_file_source(&None, "doc-1"), "doc-1");
    assert_eq!(duplicate_action::<String>(&Ok(true)), DuplicateAction::Reingest);
    assert_eq!(duplicate_action::<String>(&Ok(false)), DuplicateAction::ReportStillProcessing);
    assert_eq!(duplicate_action(&Err("db down".to_string())), DuplicateAction::Reingest);
}

#[test]
fn sync_status_rules() {
    assert_eq!(sync_upload_status(1, 2, 5, 3), "partial_success");
    assert_eq!(sync_upload_status(3, 0, 0, 3), "failed");
    assert_eq!(sync_upload_status(0, 3, 0, 3), "partial_failure");
    assert_eq!(sync_upload_status(0, 3, 7, 3), "completed");
    assert_eq!(sync_upload_status(0, 0, 0, 0), "completed");
    assert_eq!(postgres_document_status("completed"), "indexed");
    assert_eq!(postgres_document_status("failed"), "failed");
}

#[test]
fn track_ids() {
    assert_eq!(
        upload_track_id("20240101_000000", "abc12345-ffff"),
        "upload_20240101_000000_abc12345"
    );
    assert_eq!(resolve_track_id(Some("mine".to_string()), "t"), "mine");
    let made = resolve_track_id(None, "20240101_000000");
    assert!(made.starts_with("upload_20240101_000000_"));
    assert_eq!(made.len(), "upload_20240101_000000_".len() + 8);
    assert!(made["upload_20240101_000000_".len()..].chars().all(|c| c.is_ascii_hexdigit()));
}

#[test]
fn task_scope_ids_parse_or_name_the_bad_id() {
    let t = "550e8400-e29b-41d4-a716-446655440000";
    let w = "00000000-0000-0000-0000-000000000001";
    assert_eq!(
        task_scope_ids(t, w),
        Ok((0x550e8400e29b41d4a716446655440000u128, 1u128))
    );
    assert_eq!(task_scope_ids("nope", w), Err("Invalid tenant ID".to_string()));
    assert_eq!(task_scope_ids(t, "nope"), Err("Invalid workspace ID".to_string()));
}

#[test]
fn sync_timeout_message_text() {
    assert_eq!(
        sync_timeout_text(300, "openai", 123456),
        "Document processing exceeded 300 seconds (provider: openai). For large documents (>50KB), use async_processing: true to avoid timeouts. Current document size: 123456 bytes"
    );
}

#[test]
fn upload_answers() {
    let dup = duplicate_processing_response("doc-old", "upload_1".to_string());
    assert_eq!(dup.document_id, "doc-old");
    assert_eq!(dup.status, "duplicate_processing");
    assert_eq!(dup.duplicate_of.as_deref(), Some("doc-old"));
    assert_eq!((dup.task_id, dup.chunk_count, dup.entity_count, dup.relationship_count), (None, None, None, None));
    assert_eq!(dup.track_id, "upload_1");
    let q = queued_response("d".to_string(), "t".to_string(), "k".to_string());
    assert_eq!((q.status.as_str(), q.task_id.as_deref(), q.duplicate_of), ("pending", Some("t"), None));
    let p = processed_response("d".to_string(), "k".to_string(), 5, 3, 2);
    assert_eq!(p.status, "processed");
    assert_eq!((p.chunk_count, p.entity_count, p.relationship_count, p.task_id), (Some(5), Some(3), Some(2), None));
}

#[test]
fn generated_track_id_suffix_is_lower_hex() {
    for _ in 0..20 {
        let made = resolve_track_id(None, "T");
        let suffix = &made["upload_T_".len()..];
        assert_eq!(suffix.len(), 8);
        assert!(suffix.chars().all(|c| c.is_ascii_digit() || ('a'..='f').contains(&c)));
    }
}
