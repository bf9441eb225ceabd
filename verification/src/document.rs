//! The decisions of the document-detail endpoint: existence, tenant and
//! workspace access, which content is shown, and the defaults of the
//! detail fields.
use vstd::prelude::*;
use crate::text::{is_blank, push_str, str_eq, str_is_blank};
use crate::ingest::opt_view;

verus! {

/// A document exists when it has a metadata record or at least one chunk.
pub fn document_exists(has_metadata: bool, chunk_count: usize) -> (r: bool)
    ensures
        r == (has_metadata || chunk_count > 0),
{
    has_metadata || chunk_count > 0
}

/// The message of a missing document.
pub fn not_found_message(document_id: &str) -> (r: String)
    ensures
        r@ == "Document "@ + document_id@ + " not found"@,
{
    let mut s = String::new();
    push_str(&mut s, "Document ");
    push_str(&mut s, document_id);
    push_str(&mut s, " not found");
    s
}

/// Access on one dimension (tenant or workspace): allowed unless both the
/// request and the document name one and they differ.
pub open spec fn dimension_allows(requested: Option<Seq<char>>, stored: Option<Seq<char>>) -> bool {
    match (requested, stored) {
        (Some(a), Some(b)) => a == b,
        _ => true,
    }
}

fn dimension_allows_exec(requested: &Option<String>, stored: &Option<String>) -> (r: bool)
    ensures
        r == dimension_allows(opt_view(*requested), opt_view(*stored)),
{
    match (requested, stored) {
        (Some(a), Some(b)) => str_eq(a.as_str(), b.as_str()),
        _ => true,
    }
}

/// Whether a request in the given tenant/workspace context may read a
/// document stored under the given tenant/workspace: refused only when the
/// tenant, or the workspace, is named on both sides and differs.
pub fn document_access_allowed(
    requested_tenant: &Option<String>,
    document_tenant: &Option<String>,
    requested_workspace: &Option<String>,
    document_workspace: &Option<String>,
) -> (r: bool)
    ensures
        r == (dimension_allows(opt_view(*requested_tenant), opt_view(*document_tenant))
            && dimension_allows(opt_view(*requested_workspace), opt_view(*document_workspace))),
{
    dimension_allows_exec(requested_tenant, document_tenant) && dimension_allows_exec(
        requested_workspace,
        document_workspace,
    )
}

/// Why a document's details are refused.
#[derive(Debug, Clone, PartialEq, Eq)]
pub enum DetailRefusal {
    /// No metadata record and no chunk: the not-found message.
    NotFound(String),
    /// The request's tenant or workspace differs from the document's.
    Forbidden,
}

/// Whether a document's details may be returned: not found exactly when it
/// has no metadata and no chunk; else forbidden exactly when its metadata
/// object names a tenant or workspace that differs from the request's.
/// `stored_scope` holds the tenant and workspace the metadata object names
/// (`None` when there is no metadata object to check).
pub fn detail_access(
    document_id: &str,
    has_metadata: bool,
    stored_scope: Option<(Option<String>, Option<String>)>,
    chunk_count: usize,
    requested_tenant: &Option<String>,
    requested_workspace: &Option<String>,
) -> (r: Result<(), DetailRefusal>)
    ensures
        (!has_metadata && chunk_count == 0) ==> (r matches Err(DetailRefusal::NotFound(m))
            && m@ == "Document "@ + document_id@ + " not found"@),
        (has_metadata || chunk_count > 0) ==> match stored_scope {
            Some((t, w)) => if dimension_allows(opt_view(*requested_tenant), opt_view(t))
                && dimension_allows(opt_view(*requested_workspace), opt_view(w)) {
                r is Ok
            } else {
                r matches Err(DetailRefusal::Forbidden)
            },
            None => r is Ok,
        },
{
    if !document_exists(has_metadata, chunk_count) {
        return Err(DetailRefusal::NotFound(not_found_message(document_id)));
    }
    match &stored_scope {
        Some((t, w)) => {
            if document_access_allowed(requested_tenant, t, requested_workspace, w) {
                Ok(())
            } else {
                Err(DetailRefusal::Forbidden)
            }
        },
        None => Ok(()),
    }
}

/// The content shown for a document: the stored `content` field when it is
/// a string, else the stored `text` field; an empty string counts as none.
/// Without stored content, a PDF shows its converted markdown unless blank.
pub open spec fn shown_content(
    stored_content: Option<Seq<char>>,
    stored_text: Option<Seq<char>>,
    is_pdf: bool,
    pdf_markdown: Option<Seq<char>>,
) -> Option<Seq<char>> {
    let kv = match stored_content {
        Some(c) => Some(c),
        None => stored_text,
    };
    match kv {
        Some(c) if c.len() > 0 => Some(c),
        _ => if is_pdf {
            match pdf_markdown {
                Some(m) if !is_blank(m) => Some(m),
                _ => None,
            }
        } else {
            None
        },
    }
}

/// Chooses the content shown for a document.
pub fn select_document_content(
    stored_content: Option<String>,
    stored_text: Option<String>,
    is_pdf: bool,
    pdf_markdown: Option<String>,
) -> (r: Option<String>)
    ensures
        opt_view(r) == shown_content(
            opt_view(stored_content),
            opt_view(stored_text),
            is_pdf,
            opt_view(pdf_markdown),
        ),
{
    let kv = match stored_content {
        Some(c) => Some(c),
        None => stored_text,
    };
    match kv {
        Some(c) => {
            if !c.as_str().is_empty() {
                return Some(c);
            }
        },
        None => {},
    }
    if is_pdf {
        match pdf_markdown {
            Some(m) => if str_is_blank(m.as_str()) {
                None
            } else {
                Some(m)
            },
            None => None,
        }
    } else {
        None
    }
}

/// The extraction method reported for a PDF: the recorded one, else
/// `vision` when processing completed with a vision model, else none.
pub fn pdf_extraction_method(
    recorded: Option<String>,
    processing_status: &str,
    has_vision_model: bool,
) -> (r: Option<String>)
    ensures
        opt_view(r) == match recorded {
            Some(m) => Some(m@),
            None => if processing_status@ == "completed"@ && has_vision_model {
                Some("vision"@)
            } else {
                None
            },
        },
{
    match recorded {
        Some(m) => Some(m),
        None => if str_eq(processing_status, "completed") && has_vision_model {
            Some("vision".to_owned())
        } else {
            None
        },
    }
}

/// The file name shown: the stored file name, else the title.
pub fn file_name_or_title(file_name: Option<String>, title: &Option<String>) -> (r: Option<
    String,
>)
    ensures
        opt_view(r) == match file_name {
            Some(f) => Some(f@),
            None => opt_view(*title),
        },
{
    match file_name {
        Some(f) => Some(f),
        None => match title {
            Some(t) => Some(t.clone()),
            None => None,
        },
    }
}

/// The status shown: the stored status, else `completed`.
pub fn status_or_completed(status: Option<String>) -> (r: String)
    ensures
        r@ == match status {
            Some(s) => s@,
            None => "completed"@,
        },
{
    match status {
        Some(s) => s,
        None => "completed".to_owned(),
    }
}

/// Which lineage fields of a document's metadata are present.
#[derive(Debug, Clone, Copy, Default)]
pub struct LineagePresence {
    pub llm_model: bool,
    pub embedding_model: bool,
    pub embedding_dimensions: bool,
    pub keywords: bool,
    pub entity_types: bool,
    pub relationship_types: bool,
    pub chunking_strategy: bool,
    pub avg_chunk_size: bool,
    pub processing_duration_ms: bool,
    pub input_tokens: bool,
    pub output_tokens: bool,
    pub total_tokens: bool,
    pub cost_usd: bool,
    pub pdf_vision_model: bool,
    pub pdf_extraction_method: bool,
    pub pdf_extraction_warning: bool,
}

/// Whether any lineage field is present.
pub open spec fn any_lineage_field(p: LineagePresence) -> bool {
    p.llm_model || p.embedding_model || p.embedding_dimensions || p.keywords || p.entity_types
        || p.relationship_types || p.chunking_strategy || p.avg_chunk_size
        || p.processing_duration_ms || p.input_tokens || p.output_tokens || p.total_tokens
        || p.cost_usd || p.pdf_vision_model || p.pdf_extraction_method
        || p.pdf_extraction_warning
}

/// A document's lineage is shown when at least one of its fields is
/// present.
pub fn lineage_is_shown(p: &LineagePresence) -> (r: bool)
    ensures
        r == any_lineage_field(*p),
{
    p.llm_model || p.embedding_model || p.embedding_dimensions || p.keywords || p.entity_types
        || p.relationship_types || p.chunking_strategy || p.avg_chunk_size
        || p.processing_duration_ms || p.input_tokens || p.output_tokens || p.total_tokens
        || p.cost_usd || p.pdf_vision_model || p.pdf_extraction_method
        || p.pdf_extraction_warning
}

} // verus!
