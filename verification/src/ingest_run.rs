//! The stage sequence of a text-insert task: which status is written,
//! which work comes next, where cancellation is checked, what aborts the
//! task, and the final status. The caller does the work and reports what
//! happened.
use vstd::prelude::*;
use crate::ingest::{
    cancellation_message, embedding_failures_message, final_document_status,
    graph_store_failure_message, prefixed_message, spec_final_status,
    vector_storage_unavailable_message, IngestStatus,
};
use crate::sql::{join, string_views};
use crate::text::decimal;

verus! {

/// Where a text-insert task stands.
#[derive(Debug, Clone, Copy, PartialEq, Eq, Structural)]
pub enum IngestPhase {
    /// Waiting for the workspace's pipeline.
    ResolvingPipeline,
    /// Checking cancellation before the pipeline runs.
    GateBeforeExtraction,
    /// Waiting for the pipeline (chunking, extraction, embedding).
    RunningPipeline,
    /// Checking cancellation after the pipeline ran.
    GateAfterExtraction,
    /// Waiting for the chunks to be stored.
    StoringChunks,
    /// Waiting for the workspace's vector storage.
    OpeningVectorStorage,
    /// Waiting for the chunk embeddings to be stored.
    StoringChunkEmbeddings,
    /// Checking cancellation before the graph is written.
    GateBeforeGraph,
    /// Waiting for the entities to be written to the graph.
    StoringEntities,
    /// Checking cancellation before the entity embeddings are stored.
    GateBeforeEntityEmbeddings,
    /// Waiting for the entity embeddings to be stored.
    StoringEntityEmbeddings,
    /// Checking cancellation before the relationships are written.
    GateBeforeEdges,
    /// Waiting for the relationships to be written to the graph.
    StoringEdges,
    /// Checking cancellation before the lineage is persisted.
    GateBeforeLineage,
    /// Waiting for the lineage to be persisted.
    PersistingLineage,
    /// The task succeeded.
    Finished,
    /// The task was aborted.
    Aborted,
}

/// The work the caller does next.
#[derive(Debug, Clone, Copy, PartialEq, Eq, Structural)]
pub enum IngestWork {
    /// Check whether the task was cancelled; report `Proceed` or `Cancelled`.
    CheckCancellation,
    /// Run the pipeline on the document.
    RunPipeline,
    /// Store the chunks.
    StoreChunks,
    /// Obtain the workspace's vector storage.
    OpenVectorStorage,
    /// Store the chunk embeddings.
    StoreChunkEmbeddings,
    /// Write the entities to the graph.
    StoreEntities,
    /// Store the entity embeddings.
    StoreEntityEmbeddings,
    /// Write the relationships to the graph.
    StoreEdges,
    /// Persist the document's lineage.
    PersistLineage,
}

/// What happened, as the caller reports it.
pub enum IngestEvent {
    /// The workspace's pipeline is ready.
    PipelineReady,
    /// The workspace's providers could not be created (strict mode).
    PipelineUnavailable { error: String },
    /// The task was not cancelled.
    Proceed,
    /// The task was cancelled.
    Cancelled,
    /// The pipeline ran, with these counts.
    PipelineDone {
        chunk_count: usize,
        failed_chunks: usize,
        entity_count: usize,
        relationship_count: usize,
    },
    /// The pipeline failed.
    PipelineFailed { error: String },
    /// The chunks were stored.
    ChunksStored,
    /// Storing the chunks failed.
    ChunksFailed { error: String },
    /// The vector storage is available.
    VectorStorageReady,
    /// The vector storage of `workspace_id` is not available.
    VectorStorageFailed { workspace_id: String, error: String },
    /// The current work finished (chunk embeddings, lineage).
    WorkDone,
    /// The graph write finished; on failure, how many items and the error.
    GraphWritten { failure: Option<(usize, String)> },
    /// The entity embeddings were stored, with this many failures.
    EntityEmbeddingsStored { failures: u32 },
}

/// Why a task was aborted.
#[derive(Debug, Clone, PartialEq, Eq)]
pub enum TaskFailure {
    /// Processing failed.
    Process(String),
    /// Storage failed.
    Storage(String),
    /// The task was cancelled.
    Cancelled(String),
}

/// What the caller records for the document before the next work.
#[derive(Debug, Clone, PartialEq, Eq)]
pub enum IngestRecord {
    /// Nothing.
    Nothing,
    /// The document's current stage as its status.
    Stage(String),
    /// The document's final status, with the error details to store.
    Final { status: IngestStatus, error_details: Option<String> },
}

/// What a finished task gives back: the document and its counts.
#[derive(Debug, Clone, PartialEq, Eq)]
pub struct IngestSummary {
    pub document_id: String,
    pub chunk_count: usize,
    pub entity_count: usize,
    pub relationship_count: usize,
}

/// What the caller does.
#[derive(Debug, Clone, PartialEq, Eq)]
pub enum IngestAction {
    /// Record, then do the work.
    Do { record: IngestRecord, work: IngestWork },
    /// End the task successfully with this summary.
    Complete { summary: IngestSummary },
    /// Record the document's failure (status and message) when given,
    /// then end the task with the error.
    Abort { failure: Option<(String, String)>, error: TaskFailure },
}

/// The cancellation gate a phase is, by its stage name.
pub open spec fn gate_stage(p: IngestPhase) -> Option<Seq<char>> {
    match p {
        IngestPhase::GateBeforeExtraction => Some("pre-extraction"@),
        IngestPhase::GateAfterExtraction => Some("post-extraction"@),
        IngestPhase::GateBeforeGraph => Some("pre-graph-storage"@),
        IngestPhase::GateBeforeEntityEmbeddings => Some("pre-entity-embeddings"@),
        IngestPhase::GateBeforeEdges => Some("pre-edge-storage"@),
        IngestPhase::GateBeforeLineage => Some("pre-lineage"@),
        _ => None,
    }
}

/// Past a gate: the next phase, the stage status to record (if any) and
/// the work.
pub open spec fn after_gate(p: IngestPhase) -> (IngestPhase, Option<Seq<char>>, IngestWork) {
    match p {
        IngestPhase::GateBeforeExtraction => (
            IngestPhase::RunningPipeline,
            None,
            IngestWork::RunPipeline,
        ),
        IngestPhase::GateAfterExtraction => (
            IngestPhase::StoringChunks,
            Some("extracting"@),
            IngestWork::StoreChunks,
        ),
        IngestPhase::GateBeforeGraph => (
            IngestPhase::StoringEntities,
            Some("indexing"@),
            IngestWork::StoreEntities,
        ),
        IngestPhase::GateBeforeEntityEmbeddings => (
            IngestPhase::StoringEntityEmbeddings,
            None,
            IngestWork::StoreEntityEmbeddings,
        ),
        IngestPhase::GateBeforeEdges => (
            IngestPhase::StoringEdges,
            None,
            IngestWork::StoreEdges,
        ),
        _ => (IngestPhase::PersistingLineage, None, IngestWork::PersistLineage),
    }
}

/// Whether `r` records the stage `s` (or nothing, for `None`) and then
/// asks for `w`.
pub open spec fn does(r: Option<IngestAction>, s: Option<Seq<char>>, w: IngestWork) -> bool {
    match s {
        Some(st) => (r matches Some(IngestAction::Do { record: IngestRecord::Stage(x), work })
            && x@ == st && work == w),
        None => (r matches Some(IngestAction::Do { record: IngestRecord::Nothing, work })
            && work == w),
    }
}

/// Whether `r` aborts with the failure recorded as `status`/`message` and
/// the error `e` (compared by kind and text).
pub open spec fn aborts(
    r: Option<IngestAction>,
    failure: Option<(Seq<char>, Seq<char>)>,
    kind: int,
    text: Seq<char>,
) -> bool {
    r matches Some(IngestAction::Abort { failure: f, error }) && (match (f, failure) {
        (Some((a, b)), Some((x, y))) => a@ == x && b@ == y,
        (None, None) => true,
        _ => false,
    }) && (match error {
        TaskFailure::Process(m) => kind == 0 && m@ == text,
        TaskFailure::Storage(m) => kind == 1 && m@ == text,
        TaskFailure::Cancelled(m) => kind == 2 && m@ == text,
    })
}

/// The run of one text-insert task.
pub struct IngestRun {
    phase: IngestPhase,
    document_id: String,
    skip_graph_extraction: bool,
    chunk_count: usize,
    failed_chunks: usize,
    entity_count: usize,
    relationship_count: usize,
    storage_errors: Vec<String>,
}

impl IngestRun {
    /// The phase.
    pub closed spec fn spec_phase(&self) -> IngestPhase {
        self.phase
    }

    /// The document.
    pub closed spec fn spec_document_id(&self) -> Seq<char> {
        self.document_id@
    }

    /// Whether graph extraction is skipped for the document.
    pub closed spec fn spec_skip(&self) -> bool {
        self.skip_graph_extraction
    }

    /// The counts the pipeline reported: chunks, failed chunks, entities,
    /// relationships.
    pub closed spec fn spec_counts(&self) -> (nat, nat, nat, nat) {
        (
            self.chunk_count as nat,
            self.failed_chunks as nat,
            self.entity_count as nat,
            self.relationship_count as nat,
        )
    }

    /// The storage errors collected so far.
    pub closed spec fn spec_storage_errors(&self) -> Seq<Seq<char>> {
        string_views(self.storage_errors@)
    }

    /// A run for the document, waiting for its pipeline.
    pub fn start(document_id: String, skip_graph_extraction: bool) -> (r: IngestRun)
        ensures
            r.spec_phase() == IngestPhase::ResolvingPipeline,
            r.spec_document_id() == document_id@,
            r.spec_skip() == skip_graph_extraction,
            r.spec_counts() == (0nat, 0nat, 0nat, 0nat),
            r.spec_storage_errors() == Seq::<Seq<char>>::empty(),
    {
        let r = IngestRun {
            phase: IngestPhase::ResolvingPipeline,
            document_id,
            skip_graph_extraction,
            chunk_count: 0,
            failed_chunks: 0,
            entity_count: 0,
            relationship_count: 0,
            storage_errors: Vec::new(),
        };
        assert(r.spec_storage_errors() =~= Seq::<Seq<char>>::empty());
        r
    }

    /// The phase.
    pub fn phase(&self) -> (r: IngestPhase)
        ensures
            r == self.spec_phase(),
    {
        self.phase
    }

    fn abort(&mut self, failure: Option<(String, String)>, error: TaskFailure) -> (r: Option<
        IngestAction,
    >)
        ensures
            final(self).spec_phase() == IngestPhase::Aborted,
            final(self).spec_document_id() == old(self).spec_document_id(),
            final(self).spec_skip() == old(self).spec_skip(),
            final(self).spec_counts() == old(self).spec_counts(),
            final(self).spec_storage_errors() == old(self).spec_storage_errors(),
            r == Some(IngestAction::Abort { failure, error }),
    {
        self.phase = IngestPhase::Aborted;
        Some(IngestAction::Abort { failure, error })
    }

    fn record_graph_failure(&mut self, failure: Option<(usize, String)>, what: &str)
        ensures
            final(self).spec_phase() == old(self).spec_phase(),
            final(self).spec_document_id() == old(self).spec_document_id(),
            final(self).spec_skip() == old(self).spec_skip(),
            final(self).spec_counts() == old(self).spec_counts(),
            final(self).spec_storage_errors() == match failure {
                Some((n, e)) => old(self).spec_storage_errors().push(
                    "Failed to store "@ + decimal(n as nat) + " "@ + what@ + " in graph: "@ + e@,
                ),
                None => old(self).spec_storage_errors(),
            },
    {
        match failure {
            Some((n, e)) => {
                let m = graph_store_failure_message(n, what, e.as_str());
                let ghost before = string_views(self.storage_errors@);
                self.storage_errors.push(m);
                assert(string_views(self.storage_errors@) =~= before.push(m@));
            },
            None => {},
        }
    }

    /// Decides what follows an event. An event the current phase does not
    /// wait for changes nothing and gets `None`.
    ///
    /// - Once the pipeline is ready the status becomes `chunking`; if the
    ///   workspace's providers cannot be created the task fails.
    /// - Cancellation is checked before and after the pipeline run, before
    ///   the graph write, before the entity embeddings, before the
    ///   relationships and before the lineage; a cancelled task is recorded
    ///   as `cancelled` and ends.
    /// - After the pipeline the status becomes `extracting` and the chunks
    ///   are stored; a failed pipeline or chunk store fails the task; an
    ///   unavailable vector storage ends it without a status change.
    /// - The status becomes `embedding`, then `indexing` before the graph
    ///   write; graph and embedding failures are collected, and after the
    ///   relationships the final status is recorded from the counts and
    ///   those failures, whatever it is; once the lineage is persisted the
    ///   task ends with the document id and the chunk, entity and
    ///   relationship counts.
    pub fn step(&mut self, event: IngestEvent) -> (r: Option<IngestAction>)
        ensures
            final(self).spec_document_id() == old(self).spec_document_id(),
            final(self).spec_skip() == old(self).spec_skip(),
            r is None ==> *final(self) == *old(self),
            ({
                let p = old(self).spec_phase();
                let doc = old(self).spec_document_id();
                let (chunks, failed, entities, relationships) = old(self).spec_counts();
                let errs = old(self).spec_storage_errors();
                let p2 = final(self).spec_phase();
                let same = final(self).spec_counts() == old(self).spec_counts()
                    && final(self).spec_storage_errors() == errs;
                match event {
                    IngestEvent::PipelineReady => if p == IngestPhase::ResolvingPipeline {
                        same && p2 == IngestPhase::GateBeforeExtraction && does(
                            r,
                            Some("chunking"@),
                            IngestWork::CheckCancellation,
                        )
                    } else {
                        r is None
                    },
                    IngestEvent::PipelineUnavailable { error } => if p
                        == IngestPhase::ResolvingPipeline {
                        same && p2 == IngestPhase::Aborted && aborts(
                            r,
                            Some(("failed"@, "Workspace provider error: "@ + error@)),
                            0,
                            "Workspace pipeline error: "@ + error@,
                        )
                    } else {
                        r is None
                    },
                    IngestEvent::Proceed => match gate_stage(p) {
                        Some(_) => {
                            let (next, status, work) = after_gate(p);
                            same && p2 == next && does(r, status, work)
                        },
                        None => r is None,
                    },
                    IngestEvent::Cancelled => match gate_stage(p) {
                        Some(stage) => {
                            let m = "Task cancelled during '"@ + stage + "' stage for document "@
                                + doc;
                            same && p2 == IngestPhase::Aborted && aborts(
                                r,
                                Some(("cancelled"@, m)),
                                2,
                                m,
                            )
                        },
                        None => r is None,
                    },
                    IngestEvent::PipelineDone {
                        chunk_count,
                        failed_chunks,
                        entity_count,
                        relationship_count,
                    } => if p == IngestPhase::RunningPipeline {
                        &&& final(self).spec_counts() == (
                            chunk_count as nat,
                            failed_chunks as nat,
                            entity_count as nat,
                            relationship_count as nat,
                        )
                        &&& final(self).spec_storage_errors() == errs
                        &&& p2 == IngestPhase::GateAfterExtraction
                        &&& does(r, None, IngestWork::CheckCancellation)
                    } else {
                        r is None
                    },
                    IngestEvent::PipelineFailed { error } => if p == IngestPhase::RunningPipeline {
                        let m = "Pipeline processing failed: "@ + error@;
                        same && p2 == IngestPhase::Aborted && aborts(r, Some(("failed"@, m)), 0, m)
                    } else {
                        r is None
                    },
                    IngestEvent::ChunksStored => if p == IngestPhase::StoringChunks {
                        same && p2 == IngestPhase::OpeningVectorStorage && does(
                            r,
                            None,
                            IngestWork::OpenVectorStorage,
                        )
                    } else {
                        r is None
                    },
                    IngestEvent::ChunksFailed { error } => if p == IngestPhase::StoringChunks {
                        let m = "Failed to store chunks: "@ + error@;
                        same && p2 == IngestPhase::Aborted && aborts(r, Some(("failed"@, m)), 1, m)
                    } else {
                        r is None
                    },
                    IngestEvent::VectorStorageReady => if p == IngestPhase::OpeningVectorStorage {
                        same && p2 == IngestPhase::StoringChunkEmbeddings && does(
                            r,
                            Some("embedding"@),
                            IngestWork::StoreChunkEmbeddings,
                        )
                    } else {
                        r is None
                    },
                    IngestEvent::VectorStorageFailed { workspace_id, error } => if p
                        == IngestPhase::OpeningVectorStorage {
                        same && p2 == IngestPhase::Aborted && aborts(
                            r,
                            None,
                            0,
                            "CRITICAL: Cannot obtain workspace vector storage for '"@
                                + workspace_id@ + "': "@ + error@
                                + ". Document ingestion aborted to prevent data isolation violation."@,
                        )
                    } else {
                        r is None
                    },
                    IngestEvent::WorkDone => if p == IngestPhase::StoringChunkEmbeddings {
                        same && p2 == IngestPhase::GateBeforeGraph && does(
                            r,
                            None,
                            IngestWork::CheckCancellation,
                        )
                    } else if p == IngestPhase::PersistingLineage {
                        &&& same
                        &&& p2 == IngestPhase::Finished
                        &&& r matches Some(IngestAction::Complete { summary })
                        &&& summary.document_id@ == doc
                        &&& summary.chunk_count == chunks
                        &&& summary.entity_count == entities
                        &&& summary.relationship_count == relationships
                    } else {
                        r is None
                    },
                    IngestEvent::GraphWritten { failure } => {
                        let errs2 = match failure {
                            Some((n, e)) => errs.push(
                                "Failed to store "@ + decimal(n as nat) + " "@ + (if p
                                    == IngestPhase::StoringEntities {
                                    "entities"@
                                } else {
                                    "relationships"@
                                }) + " in graph: "@ + e@,
                            ),
                            None => errs,
                        };
                        if p == IngestPhase::StoringEntities {
                            &&& final(self).spec_counts() == old(self).spec_counts()
                            &&& final(self).spec_storage_errors() == errs2
                            &&& p2 == IngestPhase::GateBeforeEntityEmbeddings
                            &&& does(r, None, IngestWork::CheckCancellation)
                        } else if p == IngestPhase::StoringEdges {
                            &&& final(self).spec_counts() == old(self).spec_counts()
                            &&& final(self).spec_storage_errors() == errs2
                            &&& p2 == IngestPhase::GateBeforeLineage
                            &&& r matches Some(
                                IngestAction::Do {
                                    record: IngestRecord::Final { status, error_details },
                                    work: IngestWork::CheckCancellation,
                                },
                            )
                            &&& status == spec_final_status(
                                failed,
                                chunks,
                                entities,
                                old(self).spec_skip(),
                                errs2.len() > 0,
                            )
                            &&& (error_details is Some <==> (chunks > 0 && failed != chunks
                                && entities > 0 && errs2.len() > 0))
                            &&& (error_details matches Some(d) ==> d@ == join(errs2, "; "@))
                        } else {
                            r is None
                        }
                    },
                    IngestEvent::EntityEmbeddingsStored { failures } => if p
                        == IngestPhase::StoringEntityEmbeddings {
                        &&& final(self).spec_counts() == old(self).spec_counts()
                        &&& final(self).spec_storage_errors() == if failures > 0 {
                            errs.push(
                                decimal(failures as nat)
                                    + " entity embeddings failed to store in vector DB"@,
                            )
                        } else {
                            errs
                        }
                        &&& p2 == IngestPhase::GateBeforeEdges
                        &&& does(r, None, IngestWork::CheckCancellation)
                    } else {
                        r is None
                    },
                }
            }),
    {
        match event {
            IngestEvent::PipelineReady => {
                if self.phase == IngestPhase::ResolvingPipeline {
                    self.phase = IngestPhase::GateBeforeExtraction;
                    Some(
                        IngestAction::Do {
                            record: IngestRecord::Stage("chunking".to_owned()),
                            work: IngestWork::CheckCancellation,
                        },
                    )
                } else {
                    None
                }
            },
            IngestEvent::PipelineUnavailable { error } => {
                if self.phase == IngestPhase::ResolvingPipeline {
                    let status_message = prefixed_message("Workspace provider error: ", error.as_str());
                    let task_message = prefixed_message("Workspace pipeline error: ", error.as_str());
                    self.abort(
                        Some(("failed".to_owned(), status_message)),
                        TaskFailure::Process(task_message),
                    )
                } else {
                    None
                }
            },
            IngestEvent::Proceed => {
                match self.phase {
                    IngestPhase::GateBeforeExtraction => {
                        self.phase = IngestPhase::RunningPipeline;
                        Some(
                            IngestAction::Do {
                                record: IngestRecord::Nothing,
                                work: IngestWork::RunPipeline,
                            },
                        )
                    },
                    IngestPhase::GateAfterExtraction => {
                        self.phase = IngestPhase::StoringChunks;
                        Some(
                            IngestAction::Do {
                                record: IngestRecord::Stage("extracting".to_owned()),
                                work: IngestWork::StoreChunks,
                            },
                        )
                    },
                    IngestPhase::GateBeforeGraph => {
                        self.phase = IngestPhase::StoringEntities;
                        Some(
                            IngestAction::Do {
                                record: IngestRecord::Stage("indexing".to_owned()),
                                work: IngestWork::StoreEntities,
                            },
                        )
                    },
                    IngestPhase::GateBeforeEntityEmbeddings => {
                        self.phase = IngestPhase::StoringEntityEmbeddings;
                        Some(
                            IngestAction::Do {
                                record: IngestRecord::Nothing,
                                work: IngestWork::StoreEntityEmbeddings,
                            },
                        )
                    },
                    IngestPhase::GateBeforeEdges => {
                        self.phase = IngestPhase::StoringEdges;
                        Some(
                            IngestAction::Do {
                                record: IngestRecord::Nothing,
                                work: IngestWork::StoreEdges,
                            },
                        )
                    },
                    IngestPhase::GateBeforeLineage => {
                        self.phase = IngestPhase::PersistingLineage;
                        Some(
                            IngestAction::Do {
                                record: IngestRecord::Nothing,
                                work: IngestWork::PersistLineage,
                            },
                        )
                    },
                    _ => None,
                }
            },
            IngestEvent::Cancelled => {
                let stage: &str = match self.phase {
                    IngestPhase::GateBeforeExtraction => "pre-extraction",
                    IngestPhase::GateAfterExtraction => "post-extraction",
                    IngestPhase::GateBeforeGraph => "pre-graph-storage",
                    IngestPhase::GateBeforeEntityEmbeddings => "pre-entity-embeddings",
                    IngestPhase::GateBeforeEdges => "pre-edge-storage",
                    IngestPhase::GateBeforeLineage => "pre-lineage",
                    _ => {
                        return None;
                    },
                };
                let m = cancellation_message(stage, self.document_id.as_str());
                let m2 = m.clone();
                self.abort(Some(("cancelled".to_owned(), m)), TaskFailure::Cancelled(m2))
            },
            IngestEvent::PipelineDone {
                chunk_count,
                failed_chunks,
                entity_count,
                relationship_count,
            } => {
                if self.phase == IngestPhase::RunningPipeline {
                    self.chunk_count = chunk_count;
                    self.failed_chunks = failed_chunks;
                    self.entity_count = entity_count;
                    self.relationship_count = relationship_count;
                    self.phase = IngestPhase::GateAfterExtraction;
                    Some(
                        IngestAction::Do {
                            record: IngestRecord::Nothing,
                            work: IngestWork::CheckCancellation,
                        },
                    )
                } else {
                    None
                }
            },
            IngestEvent::PipelineFailed { error } => {
                if self.phase == IngestPhase::RunningPipeline {
                    let m = prefixed_message("Pipeline processing failed: ", error.as_str());
                    let m2 = m.clone();
                    self.abort(Some(("failed".to_owned(), m)), TaskFailure::Process(m2))
                } else {
                    None
                }
            },
            IngestEvent::ChunksStored => {
                if self.phase == IngestPhase::StoringChunks {
                    self.phase = IngestPhase::OpeningVectorStorage;
                    Some(
                        IngestAction::Do {
                            record: IngestRecord::Nothing,
                            work: IngestWork::OpenVectorStorage,
                        },
                    )
                } else {
                    None
                }
            },
            IngestEvent::ChunksFailed { error } => {
                if self.phase == IngestPhase::StoringChunks {
                    let m = prefixed_message("Failed to store chunks: ", error.as_str());
                    let m2 = m.clone();
                    self.abort(Some(("failed".to_owned(), m)), TaskFailure::Storage(m2))
                } else {
                    None
                }
            },
            IngestEvent::VectorStorageReady => {
                if self.phase == IngestPhase::OpeningVectorStorage {
                    self.phase = IngestPhase::StoringChunkEmbeddings;
                    Some(
                        IngestAction::Do {
                            record: IngestRecord::Stage("embedding".to_owned()),
                            work: IngestWork::StoreChunkEmbeddings,
                        },
                    )
                } else {
                    None
                }
            },
            IngestEvent::VectorStorageFailed { workspace_id, error } => {
                if self.phase == IngestPhase::OpeningVectorStorage {
                    let m = vector_storage_unavailable_message(
                        workspace_id.as_str(),
                        error.as_str(),
                    );
                    self.abort(None, TaskFailure::Process(m))
                } else {
                    None
                }
            },
            IngestEvent::WorkDone => {
                if self.phase == IngestPhase::StoringChunkEmbeddings {
                    self.phase = IngestPhase::GateBeforeGraph;
                    Some(
                        IngestAction::Do {
                            record: IngestRecord::Nothing,
                            work: IngestWork::CheckCancellation,
                        },
                    )
                } else if self.phase == IngestPhase::PersistingLineage {
                    self.phase = IngestPhase::Finished;
                    Some(
                        IngestAction::Complete {
                            summary: IngestSummary {
                                document_id: self.document_id.clone(),
                                chunk_count: self.chunk_count,
                                entity_count: self.entity_count,
                                relationship_count: self.relationship_count,
                            },
                        },
                    )
                } else {
                    None
                }
            },
            IngestEvent::GraphWritten { failure } => {
                if self.phase == IngestPhase::StoringEntities {
                    self.record_graph_failure(failure, "entities");
                    self.phase = IngestPhase::GateBeforeEntityEmbeddings;
                    Some(
                        IngestAction::Do {
                            record: IngestRecord::Nothing,
                            work: IngestWork::CheckCancellation,
                        },
                    )
                } else if self.phase == IngestPhase::StoringEdges {
                    self.record_graph_failure(failure, "relationships");
                    self.phase = IngestPhase::GateBeforeLineage;
                    let (status, error_details) = final_document_status(
                        self.failed_chunks,
                        self.chunk_count,
                        self.entity_count,
                        self.skip_graph_extraction,
                        &self.storage_errors,
                    );
                    Some(
                        IngestAction::Do {
                            record: IngestRecord::Final { status, error_details },
                            work: IngestWork::CheckCancellation,
                        },
                    )
                } else {
                    None
                }
            },
            IngestEvent::EntityEmbeddingsStored { failures } => {
                if self.phase == IngestPhase::StoringEntityEmbeddings {
                    if failures > 0 {
                        let m = embedding_failures_message(failures);
                        let ghost before = string_views(self.storage_errors@);
                        self.storage_errors.push(m);
                        assert(string_views(self.storage_errors@) =~= before.push(m@));
                    }
                    self.phase = IngestPhase::GateBeforeEdges;
                    Some(
                        IngestAction::Do {
                            record: IngestRecord::Nothing,
                            work: IngestWork::CheckCancellation,
                        },
                    )
                } else {
                    None
                }
            },
        }
    }
}

} // verus!
