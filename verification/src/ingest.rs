//! The decisions of background document ingestion (the text-insert task):
//! what the task's metadata resolves to, which workspace scopes the work,
//! which lineage fields are filled in, when progress is written, how entity
//! sources are merged, the document's final status, and the storage keys
//! and messages involved. The storage, LLM and progress I/O is done by the
//! caller.
use vstd::prelude::*;
use crate::text::{push_str, push_decimal, decimal, str_eq};

verus! {

/// The values the task metadata carries (each absent when missing or of
/// another JSON type).
#[derive(Debug, Clone, Default)]
pub struct TextInsertMetadata {
    pub document_id: Option<String>,
    pub source_type: Option<String>,
    pub skip_graph_extraction: Option<bool>,
    pub tenant_id: Option<String>,
    pub pdf_id: Option<String>,
    pub workspace_id: Option<String>,
}

/// What a text-insert task works on.
#[derive(Debug, Clone)]
pub struct TextInsertContext {
    /// The document id: from the metadata, else the task's file source.
    pub document_id: String,
    /// The source type: from the metadata, else `markdown`.
    pub source_type: String,
    /// Whether LLM graph extraction is skipped for this document.
    pub skip_graph_extraction: bool,
    pub tenant_id: Option<String>,
    pub pdf_id: Option<String>,
}

/// The view of an optional string.
pub open spec fn opt_view(o: Option<String>) -> Option<Seq<char>> {
    match o {
        Some(s) => Some(s@),
        None => None,
    }
}

fn copy_opt(o: &Option<String>) -> (r: Option<String>)
    ensures
        opt_view(r) == opt_view(*o),
{
    match o {
        Some(s) => Some(s.clone()),
        None => None,
    }
}

/// Resolves a task's metadata: the document id falls back to the file
/// source, the source type to `markdown`, the skip flag to `false`.
pub fn resolve_text_insert_context(meta: &TextInsertMetadata, file_source: &str) -> (r:
    TextInsertContext)
    ensures
        r.document_id@ == match meta.document_id {
            Some(d) => d@,
            None => file_source@,
        },
        r.source_type@ == match meta.source_type {
            Some(s) => s@,
            None => "markdown"@,
        },
        r.skip_graph_extraction == match meta.skip_graph_extraction {
            Some(b) => b,
            None => false,
        },
        opt_view(r.tenant_id) == opt_view(meta.tenant_id),
        opt_view(r.pdf_id) == opt_view(meta.pdf_id),
{
    let document_id = match &meta.document_id {
        Some(d) => d.clone(),
        None => file_source.to_owned(),
    };
    let source_type = match &meta.source_type {
        Some(s) => s.clone(),
        None => "markdown".to_owned(),
    };
    let skip_graph_extraction = match meta.skip_graph_extraction {
        Some(b) => b,
        None => false,
    };
    TextInsertContext {
        document_id,
        source_type,
        skip_graph_extraction,
        tenant_id: copy_opt(&meta.tenant_id),
        pdf_id: copy_opt(&meta.pdf_id),
    }
}

/// The workspace whose pipeline processes the task: the task's own
/// workspace unless it is empty or `default`, else the metadata's.
pub fn pipeline_workspace_id(task_workspace_id: &str, meta_workspace_id: &Option<String>) -> (r:
    Option<String>)
    ensures
        (task_workspace_id@.len() > 0 && task_workspace_id@ != "default"@) ==> opt_view(r) == Some(
            task_workspace_id@,
        ),
        !(task_workspace_id@.len() > 0 && task_workspace_id@ != "default"@) ==> opt_view(r)
            == opt_view(*meta_workspace_id),
{
    if !task_workspace_id.is_empty() && !str_eq(task_workspace_id, "default") {
        Some(task_workspace_id.to_owned())
    } else {
        copy_opt(meta_workspace_id)
    }
}

/// The workspace that scopes stored chunks, entities and embeddings: the
/// metadata's workspace, else the task's.
pub fn scoping_workspace_id(meta_workspace_id: &Option<String>, task_workspace_id: &str) -> (r:
    String)
    ensures
        r@ == match meta_workspace_id {
            Some(w) => w@,
            None => task_workspace_id@,
        },
{
    match meta_workspace_id {
        Some(w) => w.clone(),
        None => task_workspace_id.to_owned(),
    }
}

/// The lineage fields written into the stored document metadata: each of
/// file size, checksum and document type, in that order, when the stored
/// metadata lacks it and a value is known; the document type falls back to
/// the source type.
pub fn lineage_fields_to_add<V>(
    has_file_size: bool,
    has_checksum: bool,
    has_document_type: bool,
    file_size_bytes: Option<V>,
    sha256_checksum: Option<V>,
    document_type: Option<V>,
    source_type: V,
) -> (r: Vec<(String, V)>)
    ensures
        r@.map_values(|p: (String, V)| (p.0@, p.1)) == (if !has_file_size && file_size_bytes is Some {
            seq![("file_size_bytes"@, file_size_bytes->0)]
        } else {
            seq![]
        }) + (if !has_checksum && sha256_checksum is Some {
            seq![("sha256_checksum"@, sha256_checksum->0)]
        } else {
            seq![]
        }) + (if !has_document_type {
            seq![
                ("document_type"@, match document_type {
                    Some(d) => d,
                    None => source_type,
                }),
            ]
        } else {
            seq![]
        }),
{
    let mut r: Vec<(String, V)> = Vec::new();
    if !has_file_size {
        if let Some(v) = file_size_bytes {
            r.push(("file_size_bytes".to_owned(), v));
        }
    }
    let ghost r1 = r@.map_values(|p: (String, V)| (p.0@, p.1));
    if !has_checksum {
        if let Some(v) = sha256_checksum {
            r.push(("sha256_checksum".to_owned(), v));
        }
    }
    let ghost r2 = r@.map_values(|p: (String, V)| (p.0@, p.1));
    if !has_document_type {
        let d = match document_type {
            Some(d) => d,
            None => source_type,
        };
        r.push(("document_type".to_owned(), d));
    }
    assert(r@.map_values(|p: (String, V)| (p.0@, p.1)) =~= (if !has_file_size
        && file_size_bytes is Some {
        seq![("file_size_bytes"@, file_size_bytes->0)]
    } else {
        seq![]
    }) + (if !has_checksum && sha256_checksum is Some {
        seq![("sha256_checksum"@, sha256_checksum->0)]
    } else {
        seq![]
    }) + (if !has_document_type {
        seq![
            ("document_type"@, match document_type {
                Some(d) => d,
                None => source_type,
            }),
        ]
    } else {
        seq![]
    }));
    r
}

/// The chunk estimate of a PDF's text for progress: one chunk per 2000
/// bytes, at least one.
pub fn estimated_pdf_chunks(text_len_bytes: usize) -> (r: usize)
    ensures
        r == if text_len_bytes / 2000 > 1 {
            text_len_bytes / 2000
        } else {
            1
        },
{
    let e = text_len_bytes / 2000;
    if e > 1 {
        e
    } else {
        1
    }
}

/// The entity estimate for the extraction phase: three per chunk.
pub fn estimated_entities(chunk_count: usize) -> (r: usize)
    requires
        chunk_count * 3 <= usize::MAX,
    ensures
        r == chunk_count * 3,
{
    chunk_count * 3
}

/// Whether a chunk's progress is written to the document metadata: every
/// third chunk and the last one.
pub fn should_update_chunk_metadata(chunk_index: usize, total_chunks: usize) -> (r: bool)
    requires
        total_chunks > 0,
    ensures
        r == (chunk_index % 3 == 0 || chunk_index == total_chunks - 1),
{
    chunk_index % 3 == 0 || chunk_index == total_chunks - 1
}

/// The progress message of the extraction phase.
pub open spec fn chunk_progress_message(chunk_index: nat, total: nat, percent: nat) -> Seq<char> {
    "Extracting entities: chunk "@ + decimal(chunk_index + 1) + "/"@ + decimal(total) + " ("@
        + decimal(percent) + "%)"@
}

/// The progress message of the extraction phase for chunk `chunk_index`
/// (0-based) of `total_chunks`, at `percent` percent (the 1-based number
/// must fit in a `usize`).
pub fn chunk_progress_text(chunk_index: usize, total_chunks: usize, percent: u32) -> (r: String)
    requires
        chunk_index < usize::MAX,
    ensures
        r@ == chunk_progress_message(chunk_index as nat, total_chunks as nat, percent as nat),
{
    let mut m = String::new();
    push_str(&mut m, "Extracting entities: chunk ");
    push_decimal(&mut m, (chunk_index + 1) as u64);
    push_str(&mut m, "/");
    push_decimal(&mut m, total_chunks as u64);
    push_str(&mut m, " (");
    push_decimal(&mut m, percent as u64);
    push_str(&mut m, "%)");
    m
}

/// The label of an embedding stage in progress messages.
pub open spec fn stage_label(stage: Seq<char>) -> Seq<char> {
    if stage == "chunks"@ {
        "chunk"@
    } else if stage == "entities"@ {
        "entit"@
    } else if stage == "relationships"@ {
        "relationship"@
    } else {
        stage
    }
}

/// The progress message of the embedding phase.
pub open spec fn embedding_progress_message(
    stage: Seq<char>,
    current: nat,
    total: nat,
    percent: nat,
) -> Seq<char> {
    if current == 0 {
        "Embedding "@ + stage_label(stage) + "ies: starting ("@ + decimal(total) + " total)"@
    } else {
        "Embedding "@ + stage_label(stage) + "ies: "@ + decimal(current) + "/"@ + decimal(total)
            + " ("@ + decimal(percent) + "%)"@
    }
}

/// The progress message of the embedding phase for `stage`, `current` of
/// `total` items, at `percent` percent.
pub fn embedding_progress_text(stage: &str, current: usize, total: usize, percent: u32) -> (r:
    String)
    ensures
        r@ == embedding_progress_message(stage@, current as nat, total as nat, percent as nat),
{
    let label = if str_eq(stage, "chunks") {
        "chunk"
    } else if str_eq(stage, "entities") {
        "entit"
    } else if str_eq(stage, "relationships") {
        "relationship"
    } else {
        stage
    };
    let mut m = String::new();
    push_str(&mut m, "Embedding ");
    push_str(&mut m, label);
    if current == 0 {
        push_str(&mut m, "ies: starting (");
        push_decimal(&mut m, total as u64);
        push_str(&mut m, " total)");
    } else {
        push_str(&mut m, "ies: ");
        push_decimal(&mut m, current as u64);
        push_str(&mut m, "/");
        push_decimal(&mut m, total as u64);
        push_str(&mut m, " (");
        push_decimal(&mut m, percent as u64);
        push_str(&mut m, "%)");
    }
    m
}

/// The distinct source ids of an entity or relationship after a document
/// adds to it: the existing ones and the document's, each once.
pub open spec fn merged_sources(existing: Seq<Seq<char>>, document_id: Seq<char>) -> Set<
    Seq<char>,
> {
    existing.to_set().insert(document_id)
}

/// Merging a document's id into source ids that already came from merging
/// it changes nothing: reprocessing a document leaves the sources as they
/// were.
pub proof fn merge_sources_idempotent(existing: Seq<Seq<char>>, merged: Seq<Seq<char>>, document_id: Seq<char>)
    requires
        merged.to_set() == merged_sources(existing, document_id),
    ensures
        merged_sources(merged, document_id) == merged_sources(existing, document_id),
{
    assert(merged_sources(merged, document_id) =~= merged_sources(existing, document_id));
}

/// Merges a document into the source ids of an entity or relationship:
/// every existing id and the document's id, each exactly once.
pub fn merge_source_ids(existing: &Vec<String>, document_id: &String) -> (r: Vec<String>)
    ensures
        r@.map_values(|s: String| s@).to_set() == merged_sources(
            existing@.map_values(|s: String| s@),
            document_id@,
        ),
        r@.map_values(|s: String| s@).no_duplicates(),
{
    let ghost ex = existing@.map_values(|s: String| s@);
    let mut out: Vec<String> = Vec::new();
    let mut i: usize = 0;
    while i < existing.len()
        invariant
            ex == existing@.map_values(|s: String| s@),
            i <= existing@.len(),
            out@.map_values(|s: String| s@).to_set() == ex.take(i as int).to_set(),
            out@.map_values(|s: String| s@).no_duplicates(),
        decreases existing@.len() - i,
    {
        let ghost before = out@.map_values(|s: String| s@);
        if !contains_string(&out, &existing[i]) {
            out.push(existing[i].clone());
            assert(out@.map_values(|s: String| s@) =~= before.push(ex[i as int]));
            proof {
                before.lemma_push_to_set_commute(ex[i as int]);
            }
        } else {
            assert(before.to_set().insert(ex[i as int]) =~= before.to_set());
        }
        assert(ex.take(i + 1) =~= ex.take(i as int).push(ex[i as int]));
        proof {
            ex.take(i as int).lemma_push_to_set_commute(ex[i as int]);
        }
        i = i + 1;
    }
    assert(ex.take(existing@.len() as int) =~= ex);
    let ghost before = out@.map_values(|s: String| s@);
    if !contains_string(&out, document_id) {
        out.push(document_id.clone());
        assert(out@.map_values(|s: String| s@) =~= before.push(document_id@));
        proof {
            before.lemma_push_to_set_commute(document_id@);
        }
    } else {
        assert(before.to_set().insert(document_id@) =~= before.to_set());
    }
    out
}

/// Whether `v` holds a string equal to `s`.
fn contains_string(v: &Vec<String>, s: &String) -> (r: bool)
    ensures
        r == v@.map_values(|x: String| x@).contains(s@),
{
    let mut i: usize = 0;
    while i < v.len()
        invariant
            i <= v@.len(),
            forall|j: int| 0 <= j < i ==> v@[j]@ != s@,
        decreases v@.len() - i,
    {
        if v[i] == *s {
            assert(v@.map_values(|x: String| x@)[i as int] == s@);
            return true;
        }
        i = i + 1;
    }
    let ghost vv = v@.map_values(|x: String| x@);
    assert forall|j: int| 0 <= j < vv.len() implies vv[j] != s@ by {}
    false
}

/// The status a processed document ends in.
#[derive(Debug, Clone, Copy, PartialEq, Eq)]
pub enum IngestStatus {
    Completed,
    PartialFailure,
    Failed,
}

impl IngestStatus {
    /// The status text stored with the document.
    pub open spec fn spec_str(self) -> Seq<char> {
        match self {
            IngestStatus::Completed => "completed"@,
            IngestStatus::PartialFailure => "partial_failure"@,
            IngestStatus::Failed => "failed"@,
        }
    }

    /// The status text stored with the document.
    pub fn as_str(&self) -> (r: &'static str)
        ensures
            r@ == self.spec_str(),
    {
        match self {
            IngestStatus::Completed => "completed",
            IngestStatus::PartialFailure => "partial_failure",
            IngestStatus::Failed => "failed",
        }
    }

    /// The status written to the relational documents table: `indexed` for
    /// a completed document, else the status itself.
    pub fn postgres_status(&self) -> (r: &'static str)
        ensures
            r@ == if *self == IngestStatus::Completed {
                "indexed"@
            } else {
                self.spec_str()
            },
    {
        match self {
            IngestStatus::Completed => "indexed",
            _ => self.as_str(),
        }
    }
}

/// The status of a processed document: failed when every chunk failed
/// extraction or no chunk was produced; completed with zero entities when
/// graph extraction was skipped on purpose; partial failure when no entity
/// was extracted otherwise, or when storing failed; else completed.
pub open spec fn spec_final_status(
    failed_chunks: nat,
    chunk_count: nat,
    entity_count: nat,
    skip_graph_extraction: bool,
    has_storage_errors: bool,
) -> IngestStatus {
    if failed_chunks == chunk_count && chunk_count > 0 {
        IngestStatus::Failed
    } else if chunk_count == 0 {
        IngestStatus::Failed
    } else if entity_count == 0 && skip_graph_extraction {
        IngestStatus::Completed
    } else if entity_count == 0 {
        IngestStatus::PartialFailure
    } else if has_storage_errors {
        IngestStatus::PartialFailure
    } else {
        IngestStatus::Completed
    }
}

/// A document is reported completed only when chunks were produced, not
/// all of them failed, and entities were extracted unless extraction was
/// skipped on purpose.
pub proof fn completed_only_after_work(
    failed_chunks: nat,
    chunk_count: nat,
    entity_count: nat,
    skip_graph_extraction: bool,
    has_storage_errors: bool,
)
    ensures
        spec_final_status(
            failed_chunks,
            chunk_count,
            entity_count,
            skip_graph_extraction,
            has_storage_errors,
        ) == IngestStatus::Completed ==> chunk_count > 0 && failed_chunks != chunk_count && (
        entity_count > 0 || skip_graph_extraction),
{
}

/// How the outcome of the pipeline decides a document's status: it fails
/// only when no chunk was produced or every chunk failed extraction; any
/// other document with extracted entities is completed unless storing them
/// failed, in which case it is a partial failure; a document without
/// entities is completed when extraction was skipped on purpose and a
/// partial failure otherwise.
pub proof fn final_status_by_outcome(
    failed_chunks: nat,
    chunk_count: nat,
    entity_count: nat,
    skip_graph_extraction: bool,
    has_storage_errors: bool,
)
    ensures
        ({
            let st = spec_final_status(
                failed_chunks,
                chunk_count,
                entity_count,
                skip_graph_extraction,
                has_storage_errors,
            );
            let some_chunk_survived = chunk_count > 0 && failed_chunks != chunk_count;
            &&& !some_chunk_survived ==> st == IngestStatus::Failed
            &&& some_chunk_survived ==> st != IngestStatus::Failed
            &&& some_chunk_survived && entity_count > 0 && !has_storage_errors ==> st
                == IngestStatus::Completed
            &&& some_chunk_survived && entity_count > 0 && has_storage_errors ==> st
                == IngestStatus::PartialFailure
            &&& some_chunk_survived && entity_count == 0 && skip_graph_extraction ==> st
                == IngestStatus::Completed
            &&& some_chunk_survived && entity_count == 0 && !skip_graph_extraction ==> st
                == IngestStatus::PartialFailure
        }),
{
}

/// The final status of a processed document, with the error details to
/// record: the storage errors joined with `; ` when they decide the status.
pub fn final_document_status(
    failed_chunks: usize,
    chunk_count: usize,
    entity_count: usize,
    skip_graph_extraction: bool,
    storage_errors: &Vec<String>,
) -> (r: (IngestStatus, Option<String>))
    ensures
        r.0 == spec_final_status(
            failed_chunks as nat,
            chunk_count as nat,
            entity_count as nat,
            skip_graph_extraction,
            storage_errors@.len() > 0,
        ),
        r.0 == IngestStatus::Failed <==> (chunk_count == 0 || failed_chunks == chunk_count),
        r.1 is Some <==> (chunk_count > 0 && failed_chunks != chunk_count && entity_count > 0
            && storage_errors@.len() > 0),
        r.1 matches Some(d) ==> d@ == crate::sql::join(
            crate::sql::string_views(storage_errors@),
            "; "@,
        ),
{
    if failed_chunks == chunk_count && chunk_count > 0 {
        (IngestStatus::Failed, None)
    } else if chunk_count == 0 {
        (IngestStatus::Failed, None)
    } else if entity_count == 0 && skip_graph_extraction {
        (IngestStatus::Completed, None)
    } else if entity_count == 0 {
        (IngestStatus::PartialFailure, None)
    } else if storage_errors.len() > 0 {
        (IngestStatus::PartialFailure, Some(crate::sql::join_strings(storage_errors, "; ")))
    } else {
        (IngestStatus::Completed, None)
    }
}

/// The processing outcome recorded in metrics: `partial` when some chunk
/// failed extraction, else `success`.
pub fn processing_outcome(failed_chunks: usize) -> (r: &'static str)
    ensures
        r@ == if failed_chunks > 0 {
            "partial"@
        } else {
            "success"@
        },
{
    if failed_chunks > 0 {
        "partial"
    } else {
        "success"
    }
}

fn key_with_suffix(document_id: &str, suffix: &str) -> (r: String)
    ensures
        r@ == document_id@ + suffix@,
{
    let mut s = String::new();
    push_str(&mut s, document_id);
    push_str(&mut s, suffix);
    s
}

/// The key of a document's metadata record.
pub fn metadata_key(document_id: &str) -> (r: String)
    ensures
        r@ == document_id@ + "-metadata"@,
{
    key_with_suffix(document_id, "-metadata")
}

/// The key of a document's content record.
pub fn content_key(document_id: &str) -> (r: String)
    ensures
        r@ == document_id@ + "-content"@,
{
    key_with_suffix(document_id, "-content")
}

/// The key of a document's persisted lineage.
pub fn lineage_key(document_id: &str) -> (r: String)
    ensures
        r@ == document_id@ + "-lineage"@,
{
    key_with_suffix(document_id, "-lineage")
}

/// The prefix shared by the keys of a document's chunks.
pub fn chunk_key_prefix(document_id: &str) -> (r: String)
    ensures
        r@ == document_id@ + "-chunk-"@,
{
    key_with_suffix(document_id, "-chunk-")
}

/// The id of an entity's embedding in vector storage.
pub fn entity_vector_id(entity_name: &str) -> (r: String)
    ensures
        r@ == "entity:"@ + entity_name@,
{
    let mut s = String::new();
    push_str(&mut s, "entity:");
    push_str(&mut s, entity_name);
    s
}

/// The message of a task cancelled at a stage boundary.
pub fn cancellation_message(stage: &str, document_id: &str) -> (r: String)
    ensures
        r@ == "Task cancelled during '"@ + stage@ + "' stage for document "@ + document_id@,
{
    let mut s = String::new();
    push_str(&mut s, "Task cancelled during '");
    push_str(&mut s, stage);
    push_str(&mut s, "' stage for document ");
    push_str(&mut s, document_id);
    s
}

/// `<prefix><error>`: the message of a stage failure.
pub fn prefixed_message(prefix: &str, error_text: &str) -> (r: String)
    ensures
        r@ == prefix@ + error_text@,
{
    let mut s = String::new();
    push_str(&mut s, prefix);
    push_str(&mut s, error_text);
    s
}

/// The message when the workspace's vector storage cannot be obtained.
pub fn vector_storage_unavailable_message(workspace_id: &str, error_text: &str) -> (r: String)
    ensures
        r@ == "CRITICAL: Cannot obtain workspace vector storage for '"@ + workspace_id@ + "': "@
            + error_text@ + ". Document ingestion aborted to prevent data isolation violation."@,
{
    let mut s = String::new();
    push_str(&mut s, "CRITICAL: Cannot obtain workspace vector storage for '");
    push_str(&mut s, workspace_id);
    push_str(&mut s, "': ");
    push_str(&mut s, error_text);
    push_str(&mut s, ". Document ingestion aborted to prevent data isolation violation.");
    s
}

/// The message when a batch of graph writes fails: `Failed to store <n>
/// <what> in graph: <error>`.
pub fn graph_store_failure_message(count: usize, what: &str, error_text: &str) -> (r: String)
    ensures
        r@ == "Failed to store "@ + decimal(count as nat) + " "@ + what@ + " in graph: "@
            + error_text@,
{
    let mut s = String::new();
    push_str(&mut s, "Failed to store ");
    push_decimal(&mut s, count as u64);
    push_str(&mut s, " ");
    push_str(&mut s, what);
    push_str(&mut s, " in graph: ");
    push_str(&mut s, error_text);
    s
}

/// The message when entity embeddings fail to store.
pub fn embedding_failures_message(failures: u32) -> (r: String)
    ensures
        r@ == decimal(failures as nat) + " entity embeddings failed to store in vector DB"@,
{
    let mut s = String::new();
    push_decimal(&mut s, failures as u64);
    push_str(&mut s, " entity embeddings failed to store in vector DB");
    s
}

} // verus!
