//! The decisions of the document upload endpoint: the initial status, the
//! task metadata a caller may add to, the duplicate rule, the status of a
//! synchronously processed upload, and its identifiers and messages.
use vstd::prelude::*;
use crate::text::{decimal, push_decimal, push_str, str_eq};

verus! {

/// The status a freshly stored upload starts with: `pending` when it is
/// queued for background processing, else `processing`.
pub fn initial_upload_status(async_processing: bool) -> (r: &'static str)
    ensures
        r@ == if async_processing {
            "pending"@
        } else {
            "processing"@
        },
{
    if async_processing {
        "pending"
    } else {
        "processing"
    }
}

/// The task metadata keys a caller cannot override.
pub open spec fn is_protected_key(k: Seq<char>) -> bool {
    k == "document_id"@ || k == "title"@ || k == "tenant_id"@ || k == "workspace_id"@
}

/// Whether a task metadata key is protected (`document_id`, `title`,
/// `tenant_id`, `workspace_id`).
pub fn is_protected_task_key(k: &str) -> (r: bool)
    ensures
        r == is_protected_key(k@),
{
    str_eq(k, "document_id") || str_eq(k, "title") || str_eq(k, "tenant_id") || str_eq(
        k,
        "workspace_id",
    )
}

/// The object an association list describes: later entries override
/// earlier ones with the same key.
pub open spec fn as_object<V>(entries: Seq<(Seq<char>, V)>) -> Map<Seq<char>, V>
    decreases entries.len(),
{
    if entries.len() == 0 {
        Map::empty()
    } else {
        as_object(entries.drop_last()).insert(entries.last().0, entries.last().1)
    }
}

/// The view of a list of `(key, value)` entries.
pub open spec fn entry_views<V>(entries: Seq<(String, V)>) -> Seq<(Seq<char>, V)> {
    entries.map_values(|e: (String, V)| (e.0@, e.1))
}

/// The base object updated with the caller's entries, except those under a
/// protected key.
pub open spec fn merged_object<V>(base: Map<Seq<char>, V>, user: Seq<(Seq<char>, V)>) -> Map<
    Seq<char>,
    V,
>
    decreases user.len(),
{
    if user.len() == 0 {
        base
    } else {
        let m = merged_object(base, user.drop_last());
        if is_protected_key(user.last().0) {
            m
        } else {
            m.insert(user.last().0, user.last().1)
        }
    }
}

/// Caller metadata never overrides a protected key: under such a key the
/// merged object holds exactly what the base held (the value, or nothing).
pub proof fn protected_keys_keep_base<V>(base: Map<Seq<char>, V>, user: Seq<(Seq<char>, V)>, k: Seq<char>)
    requires
        is_protected_key(k),
    ensures
        merged_object(base, user).dom().contains(k) == base.dom().contains(k),
        base.dom().contains(k) ==> merged_object(base, user)[k] == base[k],
    decreases user.len(),
{
    if user.len() > 0 {
        protected_keys_keep_base(base, user.drop_last(), k);
    }
}

/// Any other key takes the value of the caller's last entry under it.
pub proof fn caller_entry_wins<V>(base: Map<Seq<char>, V>, user: Seq<(Seq<char>, V)>, i: int)
    requires
        0 <= i < user.len(),
        !is_protected_key(user[i].0),
        forall|j: int| i < j < user.len() ==> user[j].0 != user[i].0,
    ensures
        merged_object(base, user).dom().contains(user[i].0),
        merged_object(base, user)[user[i].0] == user[i].1,
    decreases user.len(),
{
    if i < user.len() - 1 {
        caller_entry_wins(base, user.drop_last(), i);
    }
}

/// Merges caller-supplied metadata into the task's base metadata: every
/// caller entry is added, overriding the base, unless its key is protected,
/// in which case the base value stands.
pub fn merge_task_metadata<V>(base: Vec<(String, V)>, user: Vec<(String, V)>) -> (r: Vec<
    (String, V),
>)
    ensures
        as_object(entry_views(r@)) == merged_object(
            as_object(entry_views(base@)),
            entry_views(user@),
        ),
{
    let mut out = base;
    let ghost b = as_object(entry_views(out@));
    let ghost uv = entry_views(user@);
    let mut user = user;
    let n: usize = user.len();
    assert(uv.take(0) =~= seq![]);
    while user.len() > 0
        invariant
            n == uv.len(),
            user@.len() <= n,
            entry_views(user@) == uv.subrange(n - user@.len(), n as int),
            as_object(entry_views(out@)) == merged_object(b, uv.take(n - user@.len())),
        decreases user@.len(),
    {
        let ghost u0 = user@;
        let ghost k = (n - user@.len()) as int;
        let e = user.remove(0);
        assert(entry_views(u0)[0] == (e.0@, e.1));
        assert(uv[k] == entry_views(u0)[0]);
        assert(user@ =~= u0.subrange(1, u0.len() as int));
        assert(entry_views(user@) =~= entry_views(u0).subrange(1, u0.len() as int));
        assert(entry_views(user@) =~= uv.subrange(k + 1, n as int));
        assert(uv.take(k + 1).drop_last() =~= uv.take(k));
        assert(uv.take(k + 1).last() == uv[k]);
        if !is_protected_task_key(e.0.as_str()) {
            let ghost o0 = entry_views(out@);
            out.push(e);
            assert(entry_views(out@) =~= o0.push((e.0@, e.1)));
            assert(entry_views(out@).drop_last() =~= o0);
        }
    }
    assert(uv.take(n as int) =~= uv);
    out
}

/// The file source a queued upload is processed under: its title, else its
/// document id.
pub fn upload_file_source(title: &Option<String>, document_id: &str) -> (r: String)
    ensures
        r@ == match title {
            Some(t) => t@,
            None => document_id@,
        },
{
    match title {
        Some(t) => t.clone(),
        None => document_id.to_owned(),
    }
}

/// What an upload does when the same content is already stored in the
/// workspace, after trying to delete the earlier document.
#[derive(Debug, Clone, Copy, PartialEq, Eq)]
pub enum DuplicateAction {
    /// Store and process the upload as new.
    Reingest,
    /// Answer that the earlier document is still being processed.
    ReportStillProcessing,
}

/// The duplicate rule: the upload is re-ingested when the earlier document
/// was deleted or its deletion failed, and refused as a duplicate when the
/// earlier document is still being processed (`Ok(false)`).
pub fn duplicate_action<E>(deletion: &Result<bool, E>) -> (r: DuplicateAction)
    ensures
        r == match deletion {
            Ok(false) => DuplicateAction::ReportStillProcessing,
            _ => DuplicateAction::Reingest,
        },
{
    match deletion {
        Ok(false) => DuplicateAction::ReportStillProcessing,
        _ => DuplicateAction::Reingest,
    }
}

/// The answer to an upload. Its cost breakdown, which holds money amounts,
/// is attached by the caller.
#[derive(Debug, Clone, PartialEq, Eq)]
pub struct UploadDocumentResponse {
    pub document_id: String,
    pub status: String,
    pub task_id: Option<String>,
    pub track_id: String,
    pub duplicate_of: Option<String>,
    pub chunk_count: Option<usize>,
    pub entity_count: Option<usize>,
    pub relationship_count: Option<usize>,
}

/// The answer when the same content is already stored and still being
/// processed: the earlier document's id as the document and as the
/// duplicate, status `duplicate_processing`, no task and no counts.
pub fn duplicate_processing_response(existing_document_id: &str, track_id: String) -> (r:
    UploadDocumentResponse)
    ensures
        r.document_id@ == existing_document_id@,
        r.status@ == "duplicate_processing"@,
        r.task_id is None,
        r.track_id == track_id,
        r.duplicate_of matches Some(d) && d@ == existing_document_id@,
        r.chunk_count is None,
        r.entity_count is None,
        r.relationship_count is None,
{
    UploadDocumentResponse {
        document_id: existing_document_id.to_owned(),
        status: "duplicate_processing".to_owned(),
        task_id: None,
        track_id,
        duplicate_of: Some(existing_document_id.to_owned()),
        chunk_count: None,
        entity_count: None,
        relationship_count: None,
    }
}

/// The answer when the upload was queued: status `pending` with the task's
/// id, no duplicate and no counts yet.
pub fn queued_response(document_id: String, task_id: String, track_id: String) -> (r:
    UploadDocumentResponse)
    ensures
        r.document_id == document_id,
        r.status@ == "pending"@,
        r.task_id == Some(task_id),
        r.track_id == track_id,
        r.duplicate_of is None,
        r.chunk_count is None,
        r.entity_count is None,
        r.relationship_count is None,
{
    UploadDocumentResponse {
        document_id,
        status: "pending".to_owned(),
        task_id: Some(task_id),
        track_id,
        duplicate_of: None,
        chunk_count: None,
        entity_count: None,
        relationship_count: None,
    }
}

/// The answer when the upload was processed on the spot: status
/// `processed` with the chunk, entity and relationship counts.
pub fn processed_response(
    document_id: String,
    track_id: String,
    chunk_count: usize,
    entity_count: usize,
    relationship_count: usize,
) -> (r: UploadDocumentResponse)
    ensures
        r.document_id == document_id,
        r.status@ == "processed"@,
        r.task_id is None,
        r.track_id == track_id,
        r.duplicate_of is None,
        r.chunk_count == Some(chunk_count),
        r.entity_count == Some(entity_count),
        r.relationship_count == Some(relationship_count),
{
    UploadDocumentResponse {
        document_id,
        status: "processed".to_owned(),
        task_id: None,
        track_id,
        duplicate_of: None,
        chunk_count: Some(chunk_count),
        entity_count: Some(entity_count),
        relationship_count: Some(relationship_count),
    }
}

/// The status of a synchronously processed upload: with failed chunks,
/// `partial_success` when some chunk succeeded and `failed` otherwise; with
/// no failure, `partial_failure` when chunks exist but no entity was
/// extracted; else `completed`.
pub open spec fn spec_sync_status(
    failed_chunks: nat,
    successful_chunks: nat,
    entity_count: nat,
    chunk_count: nat,
) -> Seq<char> {
    if failed_chunks > 0 {
        if successful_chunks > 0 {
            "partial_success"@
        } else {
            "failed"@
        }
    } else if entity_count == 0 && chunk_count > 0 {
        "partial_failure"@
    } else {
        "completed"@
    }
}

/// What a synchronous upload reports: with no failed chunk, `completed`
/// unless chunks exist and no entity was extracted from them, which is a
/// `partial_failure`; with failed chunks, `partial_success` when some chunk
/// succeeded and `failed` when none did. The four answers are distinct.
pub proof fn sync_status_by_outcome(
    failed_chunks: nat,
    successful_chunks: nat,
    entity_count: nat,
    chunk_count: nat,
)
    ensures
        ({
            let st = spec_sync_status(failed_chunks, successful_chunks, entity_count, chunk_count);
            &&& failed_chunks == 0 && chunk_count > 0 && entity_count == 0 ==> st
                == "partial_failure"@
            &&& failed_chunks == 0 && entity_count > 0 ==> st == "completed"@
            &&& failed_chunks == 0 && chunk_count == 0 ==> st == "completed"@
            &&& failed_chunks > 0 && successful_chunks > 0 ==> st == "partial_success"@
            &&& failed_chunks > 0 && successful_chunks == 0 ==> st == "failed"@
        }),
        "completed"@ != "partial_failure"@,
        "completed"@ != "partial_success"@,
        "completed"@ != "failed"@,
        "partial_failure"@ != "partial_success"@,
        "partial_failure"@ != "failed"@,
        "partial_success"@ != "failed"@,
{
    reveal_strlit("completed");
    reveal_strlit("partial_failure");
    reveal_strlit("partial_success");
    reveal_strlit("failed");
    assert("completed"@[0] != "partial_failure"@[0]);
    assert("completed"@[0] != "partial_success"@[0]);
    assert("completed"@.len() != "failed"@.len());
    assert("partial_failure"@[8] != "partial_success"@[8]);
    assert("partial_failure"@[0] != "failed"@[0]);
    assert("partial_success"@[0] != "failed"@[0]);
}

/// The status of a synchronously processed upload.
pub fn sync_upload_status(
    failed_chunks: usize,
    successful_chunks: usize,
    entity_count: usize,
    chunk_count: usize,
) -> (r: &'static str)
    ensures
        r@ == spec_sync_status(
            failed_chunks as nat,
            successful_chunks as nat,
            entity_count as nat,
            chunk_count as nat,
        ),
{
    if failed_chunks > 0 {
        if successful_chunks > 0 {
            "partial_success"
        } else {
            "failed"
        }
    } else if entity_count == 0 && chunk_count > 0 {
        "partial_failure"
    } else {
        "completed"
    }
}

/// The status written to the relational documents table for a status
/// text: `indexed` for `completed`, else unchanged.
pub fn postgres_document_status(status: &str) -> (r: String)
    ensures
        r@ == if status@ == "completed"@ {
            "indexed"@
        } else {
            status@
        },
{
    if str_eq(status, "completed") {
        "indexed".to_owned()
    } else {
        status.to_owned()
    }
}

/// The message of a synchronous upload that ran out of time.
pub open spec fn sync_timeout_message(secs: nat, provider: Seq<char>, size: nat) -> Seq<char> {
    "Document processing exceeded "@ + decimal(secs) + " seconds (provider: "@ + provider
        + "). For large documents (>50KB), use async_processing: true to avoid timeouts. Current document size: "@
        + decimal(size) + " bytes"@
}

/// The message of a synchronous upload that ran out of time.
pub fn sync_timeout_text(timeout_secs: u64, provider: &str, content_len: usize) -> (r: String)
    ensures
        r@ == sync_timeout_message(timeout_secs as nat, provider@, content_len as nat),
{
    let mut s = String::new();
    push_str(&mut s, "Document processing exceeded ");
    push_decimal(&mut s, timeout_secs);
    push_str(&mut s, " seconds (provider: ");
    push_str(&mut s, provider);
    push_str(
        &mut s,
        "). For large documents (>50KB), use async_processing: true to avoid timeouts. Current document size: ",
    );
    push_decimal(&mut s, content_len as u64);
    push_str(&mut s, " bytes");
    s
}

} // verus!
