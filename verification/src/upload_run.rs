//! The sequence of a text upload once its content is accepted: the
//! duplicate check, re-ingestion, storing the document, then queueing it or
//! processing it on the spot, and the answer. The caller does the storage
//! and processing and reports what happened.
use vstd::prelude::*;
use crate::upload::{
    duplicate_action, duplicate_processing_response, initial_upload_status, processed_response,
    queued_response, DuplicateAction, UploadDocumentResponse,
};

verus! {

/// Where an upload stands.
#[derive(Debug, Clone, Copy, PartialEq, Eq, Structural)]
pub enum UploadPhase {
    /// Waiting for the duplicate lookup of the content in the workspace.
    CheckingDuplicate,
    /// Waiting for the earlier document's deletion.
    DeletingDuplicate,
    /// Waiting for the document to be stored.
    Storing,
    /// Waiting for the task to be queued.
    Queueing,
    /// Waiting for the document to be processed on the spot.
    Processing,
    /// Answered.
    Answered,
}

/// What happened, as the caller reports it.
pub enum UploadEvent {
    /// No document with the same content exists in the workspace.
    NoDuplicate,
    /// A document with the same content exists.
    DuplicateFound { existing_document_id: String },
    /// The earlier document's deletion: deleted, still processing, or the
    /// deletion's error.
    DuplicateDeletion { result: Result<bool, String> },
    /// The new document was stored under this id.
    Stored { document_id: String },
    /// The task was queued under this id.
    Queued { task_id: String },
    /// The document was processed, with these counts.
    Processed { chunk_count: usize, entity_count: usize, relationship_count: usize },
}

/// The work the caller does next.
#[derive(Debug, Clone, PartialEq, Eq)]
pub enum UploadWork {
    /// Delete the earlier document so that the content can be ingested again.
    DeleteDuplicate { existing_document_id: String },
    /// Store the new document with this initial status.
    StoreDocument { status: String },
    /// Queue the processing task.
    Queue,
    /// Process the document now.
    ProcessNow,
}

/// What the caller does.
#[derive(Debug, Clone, PartialEq, Eq)]
pub enum UploadAction {
    /// Do the work.
    Do(UploadWork),
    /// Answer the request.
    Respond(UploadDocumentResponse),
}

/// The run of one upload.
pub struct UploadRun {
    phase: UploadPhase,
    async_processing: bool,
    track_id: String,
    duplicate_of: String,
    document_id: String,
}

impl UploadRun {
    /// The phase.
    pub closed spec fn spec_phase(&self) -> UploadPhase {
        self.phase
    }

    /// Whether the upload is processed in the background.
    pub closed spec fn spec_async(&self) -> bool {
        self.async_processing
    }

    /// The upload's track id.
    pub closed spec fn spec_track_id(&self) -> Seq<char> {
        self.track_id@
    }

    /// The earlier document with the same content, once one was found.
    pub closed spec fn spec_duplicate_of(&self) -> Seq<char> {
        self.duplicate_of@
    }

    /// The new document's id, once stored.
    pub closed spec fn spec_document_id(&self) -> Seq<char> {
        self.document_id@
    }

    /// An upload with this track id, waiting for its duplicate lookup.
    pub fn start(async_processing: bool, track_id: String) -> (r: UploadRun)
        ensures
            r.spec_phase() == UploadPhase::CheckingDuplicate,
            r.spec_async() == async_processing,
            r.spec_track_id() == track_id@,
    {
        UploadRun {
            phase: UploadPhase::CheckingDuplicate,
            async_processing,
            track_id,
            duplicate_of: String::new(),
            document_id: String::new(),
        }
    }

    /// The phase.
    pub fn phase(&self) -> (r: UploadPhase)
        ensures
            r == self.spec_phase(),
    {
        self.phase
    }

    fn store(&mut self) -> (r: Option<UploadAction>)
        ensures
            final(self).spec_phase() == UploadPhase::Storing,
            final(self).spec_async() == old(self).spec_async(),
            final(self).spec_track_id() == old(self).spec_track_id(),
            final(self).spec_duplicate_of() == old(self).spec_duplicate_of(),
            final(self).spec_document_id() == old(self).spec_document_id(),
            r matches Some(UploadAction::Do(UploadWork::StoreDocument { status }))
                && status@ == (if old(self).spec_async() {
                "pending"@
            } else {
                "processing"@
            }),
    {
        self.phase = UploadPhase::Storing;
        let status = initial_upload_status(self.async_processing).to_owned();
        Some(UploadAction::Do(UploadWork::StoreDocument { status }))
    }

    /// Decides what follows an event. An event the current phase does not
    /// wait for changes nothing and gets `None`.
    ///
    /// - Without a duplicate the document is stored; with one, the earlier
    ///   document is deleted first. Its deletion, or a failed deletion,
    ///   lets the upload go on; an earlier document that is still being
    ///   processed ends the upload with the duplicate answer, and nothing
    ///   is stored.
    /// - A stored document is queued (`pending`) or processed on the spot
    ///   (`processing`), and the answer carries the task or the counts.
    pub fn step(&mut self, event: UploadEvent) -> (r: Option<UploadAction>)
        ensures
            final(self).spec_async() == old(self).spec_async(),
            final(self).spec_track_id() == old(self).spec_track_id(),
            r is None ==> *final(self) == *old(self),
            ({
                let p = old(self).spec_phase();
                let p2 = final(self).spec_phase();
                let store_status = if old(self).spec_async() {
                    "pending"@
                } else {
                    "processing"@
                };
                match event {
                    UploadEvent::NoDuplicate => if p == UploadPhase::CheckingDuplicate {
                        p2 == UploadPhase::Storing && (r matches Some(
                            UploadAction::Do(UploadWork::StoreDocument { status }),
                        ) && status@ == store_status)
                    } else {
                        r is None
                    },
                    UploadEvent::DuplicateFound { existing_document_id } => if p
                        == UploadPhase::CheckingDuplicate {
                        &&& p2 == UploadPhase::DeletingDuplicate
                        &&& final(self).spec_duplicate_of() == existing_document_id@
                        &&& r matches Some(
                            UploadAction::Do(UploadWork::DeleteDuplicate { existing_document_id: d }),
                        )
                        &&& d@ == existing_document_id@
                    } else {
                        r is None
                    },
                    UploadEvent::DuplicateDeletion { result } => if p
                        == UploadPhase::DeletingDuplicate {
                        if result == Ok::<bool, String>(false) {
                            &&& p2 == UploadPhase::Answered
                            &&& r matches Some(UploadAction::Respond(a))
                            &&& a.document_id@ == old(self).spec_duplicate_of()
                            &&& a.status@ == "duplicate_processing"@
                            &&& a.task_id is None
                            &&& a.track_id@ == old(self).spec_track_id()
                            &&& a.duplicate_of matches Some(d) && d@
                                == old(self).spec_duplicate_of()
                            &&& a.chunk_count is None
                            &&& a.entity_count is None
                            &&& a.relationship_count is None
                        } else {
                            p2 == UploadPhase::Storing && (r matches Some(
                                UploadAction::Do(UploadWork::StoreDocument { status }),
                            ) && status@ == store_status)
                        }
                    } else {
                        r is None
                    },
                    UploadEvent::Stored { document_id } => if p == UploadPhase::Storing {
                        &&& final(self).spec_document_id() == document_id@
                        &&& if old(self).spec_async() {
                            p2 == UploadPhase::Queueing && r == Some(
                                UploadAction::Do(UploadWork::Queue),
                            )
                        } else {
                            p2 == UploadPhase::Processing && r == Some(
                                UploadAction::Do(UploadWork::ProcessNow),
                            )
                        }
                    } else {
                        r is None
                    },
                    UploadEvent::Queued { task_id } => if p == UploadPhase::Queueing {
                        &&& p2 == UploadPhase::Answered
                        &&& r matches Some(UploadAction::Respond(a))
                        &&& a.document_id@ == old(self).spec_document_id()
                        &&& a.status@ == "pending"@
                        &&& a.task_id == Some(task_id)
                        &&& a.track_id@ == old(self).spec_track_id()
                        &&& a.duplicate_of is None
                        &&& a.chunk_count is None
                        &&& a.entity_count is None
                        &&& a.relationship_count is None
                    } else {
                        r is None
                    },
                    UploadEvent::Processed { chunk_count, entity_count, relationship_count } => if p
                        == UploadPhase::Processing {
                        &&& p2 == UploadPhase::Answered
                        &&& r matches Some(UploadAction::Respond(a))
                        &&& a.document_id@ == old(self).spec_document_id()
                        &&& a.status@ == "processed"@
                        &&& a.task_id is None
                        &&& a.track_id@ == old(self).spec_track_id()
                        &&& a.duplicate_of is None
                        &&& a.chunk_count == Some(chunk_count)
                        &&& a.entity_count == Some(entity_count)
                        &&& a.relationship_count == Some(relationship_count)
                    } else {
                        r is None
                    },
                }
            }),
    {
        match event {
            UploadEvent::NoDuplicate => {
                if self.phase == UploadPhase::CheckingDuplicate {
                    self.store()
                } else {
                    None
                }
            },
            UploadEvent::DuplicateFound { existing_document_id } => {
                if self.phase == UploadPhase::CheckingDuplicate {
                    self.phase = UploadPhase::DeletingDuplicate;
                    self.duplicate_of = existing_document_id.clone();
                    Some(UploadAction::Do(UploadWork::DeleteDuplicate { existing_document_id }))
                } else {
                    None
                }
            },
            UploadEvent::DuplicateDeletion { result } => {
                if self.phase == UploadPhase::DeletingDuplicate {
                    match duplicate_action(&result) {
                        DuplicateAction::ReportStillProcessing => {
                            self.phase = UploadPhase::Answered;
                            let a = duplicate_processing_response(
                                self.duplicate_of.as_str(),
                                self.track_id.clone(),
                            );
                            Some(UploadAction::Respond(a))
                        },
                        DuplicateAction::Reingest => self.store(),
                    }
                } else {
                    None
                }
            },
            UploadEvent::Stored { document_id } => {
                if self.phase == UploadPhase::Storing {
                    self.document_id = document_id;
                    if self.async_processing {
                        self.phase = UploadPhase::Queueing;
                        Some(UploadAction::Do(UploadWork::Queue))
                    } else {
                        self.phase = UploadPhase::Processing;
                        Some(UploadAction::Do(UploadWork::ProcessNow))
                    }
                } else {
                    None
                }
            },
            UploadEvent::Queued { task_id } => {
                if self.phase == UploadPhase::Queueing {
                    self.phase = UploadPhase::Answered;
                    Some(
                        UploadAction::Respond(
                            queued_response(self.document_id.clone(), task_id, self.track_id.clone()),
                        ),
                    )
                } else {
                    None
                }
            },
            UploadEvent::Processed { chunk_count, entity_count, relationship_count } => {
                if self.phase == UploadPhase::Processing {
                    self.phase = UploadPhase::Answered;
                    Some(
                        UploadAction::Respond(
                            processed_response(
                                self.document_id.clone(),
                                self.track_id.clone(),
                                chunk_count,
                                entity_count,
                                relationship_count,
                            ),
                        ),
                    )
                } else {
                    None
                }
            },
        }
    }
}

} // verus!
