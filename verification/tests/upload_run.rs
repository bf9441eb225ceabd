use edgequake::upload::UploadDocumentResponse;
use edgequake::upload_run::{UploadAction, UploadEvent, UploadPhase, UploadRun, UploadWork};

fn store(status: &str) -> Option<UploadAction> {
    Some(UploadAction::Do(UploadWork::StoreDocument { status: status.to_string() }))
}

#[test]
fn queued_upload_without_duplicate() {
    let mut run = UploadRun::start(true, "upload_1".to_string());
    assert_eq!(run.step(UploadEvent::NoDuplicate), store("pending"));
    assert_eq!(
        run.step(UploadEvent::Stored { document_id: "doc-1".to_string() }),
        Some(UploadAction::Do(UploadWork::Queue))
    );
    assert_eq!(
        run.step(UploadEvent::Queued { task_id: "task-9".to_string() }),
        Some(UploadAction::Respond(UploadDocumentResponse {
            document_id: "doc-1".to_string(),
            status: "pending".to_string(),
            task_id: Some("task-9".to_string()),
            track_id: "upload_1".to_string(),
            duplicate_of: None,
            chunk_count: None,
            entity_count: None,
            relationship_count: None,
        }))
    );
    assert_eq!(run.phase(), UploadPhase::Answered);
}

#[test]
fn duplicate_still_processing_stores_nothing() {
    let mut run = UploadRun::start(true, "upload_2".to_string());
    assert_eq!(
        run.step(UploadEvent::DuplicateFound { existing_document_id: "doc-old".to_string() }),
        Some(UploadAction::Do(UploadWork::DeleteDuplicate {
            existing_document_id: "doc-old".to_string()
        }))
    );
    assert_eq!(
        run.step(UploadEvent::DuplicateDeletion { result: Ok(false) }),
        Some(UploadAction::Respond(UploadDocumentResponse {
            document_id: "doc-old".to_string(),
            status: "duplicate_processing".to_string(),
            task_id: None,
            track_id: "upload_2".to_string(),
            duplicate_of: Some("doc-old".to_string()),
            chunk_count: None,
            entity_count: None,
            relationship_count: None,
        }))
    );
    assert_eq!(run.step(UploadEvent::Stored { document_id: "x".to_string() }), None);
}

#[test]
fn deleted_or_undeletable_duplicate_is_reingested_inline() {
    let mut run = UploadRun::start(false, "t".to_string());
    run.step(UploadEvent::DuplicateFound { existing_document_id: "old".to_string() });
    assert_eq!(
        run.step(UploadEvent::DuplicateDeletion { result: Err("db down".to_string()) }),
        store("processing")
    );
    assert_eq!(
        run.step(UploadEvent::Stored { document_id: "new".to_string() }),
        Some(UploadAction::Do(UploadWork::ProcessNow))
    );
    match run.step(UploadEvent::Processed { chunk_count: 5, entity_count: 3, relationship_count: 2 }) {
        Some(UploadAction::Respond(a)) => {
            assert_eq!((a.document_id.as_str(), a.status.as_str()), ("new", "processed"));
            assert_eq!((a.chunk_count, a.entity_count, a.relationship_count), (Some(5), Some(3), Some(2)));
        }
        other => panic!("expected an answer, got {other:?}"),
    }
    let mut run = UploadRun::start(false, "t".to_string());
    run.step(UploadEvent::DuplicateFound { existing_document_id: "old".to_string() });
    assert_eq!(run.step(UploadEvent::DuplicateDeletion { result: Ok(true) }), store("processing"));
}
