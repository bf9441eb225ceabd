//! Request types of the document API and their defaults.
use vstd::prelude::*;

verus! {

/// `serde_json::Value`, carried through as an opaque value.
#[verifier::external_type_specification]
#[verifier::external_body]
pub struct ExJsonValue(serde_json::Value);

/// A request to upload a text document.
#[derive(Debug, Clone)]
pub struct UploadDocumentRequest {
    /// The document's text.
    pub content: String,
    /// An optional title.
    pub title: Option<String>,
    /// Optional metadata, kept as given.
    pub metadata: Option<serde_json::Value>,
    /// Whether to process in the background.
    pub async_processing: bool,
    /// An optional batch tracking id.
    pub track_id: Option<String>,
    /// Whether to run gleaning passes during extraction.
    pub enable_gleaning: bool,
    /// How many gleaning passes to run at most.
    pub max_gleaning: usize,
    /// Whether descriptions are summarised by the LLM.
    pub use_llm_summarization: bool,
}

/// A request for one document's details.
#[derive(Debug, Clone)]
pub struct GetDocumentRequest {
    /// The document's id.
    pub document_id: String,
}

/// A request for one page of the document list.
#[derive(Debug, Clone, Copy)]
pub struct ListDocumentsRequest {
    /// The page, counted from 1.
    pub page: usize,
    /// How many documents a page holds.
    pub page_size: usize,
}

/// The page listed when a request names none.
pub fn default_page() -> (r: usize)
    ensures
        r == 1,
{
    1
}

/// The page size used when a request names none.
pub fn default_page_size() -> (r: usize)
    ensures
        r == 20,
{
    20
}

/// The OpenAPI description of the server's API.
pub struct ApiDoc;

} // verus!
