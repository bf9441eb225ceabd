use edgequake::ingest::IngestStatus;
use edgequake::ingest_run::{
    IngestAction, IngestEvent, IngestPhase, IngestRecord, IngestRun, IngestSummary, IngestWork,
    TaskFailure,
};

fn stage(s: &str, work: IngestWork) -> Option<IngestAction> {
    Some(IngestAction::Do { record: IngestRecord::Stage(s.to_string()), work })
}

fn work(work: IngestWork) -> Option<IngestAction> {
    Some(IngestAction::Do { record: IngestRecord::Nothing, work })
}

#[test]
fn full_run_records_each_stage_and_final_status() {
    let mut run = IngestRun::start("doc-1".to_string(), false);
    assert_eq!(run.step(IngestEvent::PipelineReady), stage("chunking", IngestWork::CheckCancellation));
    assert_eq!(run.step(IngestEvent::Proceed), work(IngestWork::RunPipeline));
    assert_eq!(
        run.step(IngestEvent::PipelineDone { chunk_count: 4, failed_chunks: 1, entity_count: 9, relationship_count: 6 }),
        work(IngestWork::CheckCancellation)
    );
    assert_eq!(run.step(IngestEvent::Proceed), stage("extracting", IngestWork::StoreChunks));
    assert_eq!(run.step(IngestEvent::ChunksStored), work(IngestWork::OpenVectorStorage));
    assert_eq!(run.step(IngestEvent::VectorStorageReady), stage("embedding", IngestWork::StoreChunkEmbeddings));
    assert_eq!(run.step(IngestEvent::WorkDone), work(IngestWork::CheckCancellation));
    assert_eq!(run.step(IngestEvent::Proceed), stage("indexing", IngestWork::StoreEntities));
    assert_eq!(
        run.step(IngestEvent::GraphWritten { failure: Some((9, "conn reset".to_string())) }),
        work(IngestWork::CheckCancellation)
    );
    assert_eq!(run.step(IngestEvent::Proceed), work(IngestWork::StoreEntityEmbeddings));
    assert_eq!(
        run.step(IngestEvent::EntityEmbeddingsStored { failures: 2 }),
        work(IngestWork::CheckCancellation)
    );
    assert_eq!(run.step(IngestEvent::Proceed), work(IngestWork::StoreEdges));
    assert_eq!(
        run.step(IngestEvent::GraphWritten { failure: None }),
        Some(IngestAction::Do {
            record: IngestRecord::Final {
                status: IngestStatus::PartialFailure,
                error_details: Some(
                    "Failed to store 9 entities in graph: conn reset; 2 entity embeddings failed to store in vector DB"
                        .to_string()
                ),
            },
            work: IngestWork::CheckCancellation,
        })
    );
    assert_eq!(run.step(IngestEvent::Proceed), work(IngestWork::PersistLineage));
    assert_eq!(
        run.step(IngestEvent::WorkDone),
        Some(IngestAction::Complete {
            summary: IngestSummary {
                document_id: "doc-1".to_string(),
                chunk_count: 4,
                entity_count: 9,
                relationship_count: 6,
            },
        })
    );
    assert_eq!(run.phase(), IngestPhase::Finished);
}

#[test]
fn cancellation_at_a_gate_aborts() {
    let mut run = IngestRun::start("doc-2".to_string(), false);
    run.step(IngestEvent::PipelineReady);
    let msg = "Task cancelled during 'pre-extraction' stage for document doc-2".to_string();
    assert_eq!(
        run.step(IngestEvent::Cancelled),
        Some(IngestAction::Abort {
            failure: Some(("cancelled".to_string(), msg.clone())),
            error: TaskFailure::Cancelled(msg),
        })
    );
    assert_eq!(run.phase(), IngestPhase::Aborted);
    assert_eq!(run.step(IngestEvent::Proceed), None);
}

#[test]
fn failures_abort_with_their_messages() {
    let mut run = IngestRun::start("d".to_string(), false);
    assert_eq!(
        run.step(IngestEvent::PipelineUnavailable { error: "no key".to_string() }),
        Some(IngestAction::Abort {
            failure: Some(("failed".to_string(), "Workspace provider error: no key".to_string())),
            error: TaskFailure::Process("Workspace pipeline error: no key".to_string()),
        })
    );

    let mut run = IngestRun::start("d".to_string(), false);
    run.step(IngestEvent::PipelineReady);
    run.step(IngestEvent::Proceed);
    let m = "Pipeline processing failed: boom".to_string();
    assert_eq!(
        run.step(IngestEvent::PipelineFailed { error: "boom".to_string() }),
        Some(IngestAction::Abort {
            failure: Some(("failed".to_string(), m.clone())),
            error: TaskFailure::Process(m),
        })
    );

    let mut run = IngestRun::start("d".to_string(), true);
    run.step(IngestEvent::PipelineReady);
    run.step(IngestEvent::Proceed);
    run.step(IngestEvent::PipelineDone { chunk_count: 2, failed_chunks: 0, entity_count: 0, relationship_count: 0 });
    run.step(IngestEvent::Proceed);
    let m = "Failed to store chunks: disk full".to_string();
    assert_eq!(
        run.step(IngestEvent::ChunksFailed { error: "disk full".to_string() }),
        Some(IngestAction::Abort {
            failure: Some(("failed".to_string(), m.clone())),
            error: TaskFailure::Storage(m),
        })
    );
}

#[test]
fn unavailable_vector_storage_aborts_without_status() {
    let mut run = IngestRun::start("d".to_string(), true);
    run.step(IngestEvent::PipelineReady);
    run.step(IngestEvent::Proceed);
    run.step(IngestEvent::PipelineDone { chunk_count: 2, failed_chunks: 0, entity_count: 0, relationship_count: 0 });
    run.step(IngestEvent::Proceed);
    run.step(IngestEvent::ChunksStored);
    assert_eq!(
        run.step(IngestEvent::VectorStorageFailed { workspace_id: "ws".to_string(), error: "down".to_string() }),
        Some(IngestAction::Abort {
            failure: None,
            error: TaskFailure::Process(
                "CRITICAL: Cannot obtain workspace vector storage for 'ws': down. Document ingestion aborted to prevent data isolation violation.".to_string()
            ),
        })
    );
}

#[test]
fn skipped_extraction_completes_with_zero_entities() {
    let mut run = IngestRun::start("d".to_string(), true);
    run.step(IngestEvent::PipelineReady);
    run.step(IngestEvent::Proceed);
    assert_eq!(run.step(IngestEvent::ChunksStored), None);
    run.step(IngestEvent::PipelineDone { chunk_count: 3, failed_chunks: 0, entity_count: 0, relationship_count: 0 });
    run.step(IngestEvent::Proceed);
    run.step(IngestEvent::ChunksStored);
    run.step(IngestEvent::VectorStorageReady);
    run.step(IngestEvent::WorkDone);
    run.step(IngestEvent::Proceed);
    run.step(IngestEvent::GraphWritten { failure: None });
    run.step(IngestEvent::Proceed);
    run.step(IngestEvent::EntityEmbeddingsStored { failures: 0 });
    run.step(IngestEvent::Proceed);
    assert_eq!(
        run.step(IngestEvent::GraphWritten { failure: None }),
        Some(IngestAction::Do {
            record: IngestRecord::Final { status: IngestStatus::Completed, error_details: None },
            work: IngestWork::CheckCancellation,
        })
    );
}

#[test]
fn failed_status_still_returns_the_summary() {
    let mut run = IngestRun::start("doc-f".to_string(), false);
    run.step(IngestEvent::PipelineReady);
    run.step(IngestEvent::Proceed);
    run.step(IngestEvent::PipelineDone { chunk_count: 2, failed_chunks: 2, entity_count: 0, relationship_count: 0 });
    run.step(IngestEvent::Proceed);
    run.step(IngestEvent::ChunksStored);
    run.step(IngestEvent::VectorStorageReady);
    run.step(IngestEvent::WorkDone);
    run.step(IngestEvent::Proceed);
    run.step(IngestEvent::GraphWritten { failure: None });
    run.step(IngestEvent::Proceed);
    run.step(IngestEvent::EntityEmbeddingsStored { failures: 0 });
    run.step(IngestEvent::Proceed);
    assert_eq!(
        run.step(IngestEvent::GraphWritten { failure: None }),
        Some(IngestAction::Do {
            record: IngestRecord::Final { status: IngestStatus::Failed, error_details: None },
            work: IngestWork::CheckCancellation,
        })
    );
    run.step(IngestEvent::Proceed);
    assert_eq!(
        run.step(IngestEvent::WorkDone),
        Some(IngestAction::Complete {
            summary: IngestSummary {
                document_id: "doc-f".to_string(),
                chunk_count: 2,
                entity_count: 0,
                relationship_count: 0,
            },
        })
    );
}
