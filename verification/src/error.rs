//! Error types of the pipeline and of query-side keyword extraction.
use vstd::prelude::*;

verus! {

/// Errors raised while chunking, validating or extracting a document.
#[derive(Debug, Clone, PartialEq, Eq)]
pub enum PipelineError {
    /// Chunking failed or produced nothing usable.
    ChunkingError(String),
    /// Entity / relationship extraction failed.
    ExtractionError(String),
    /// The input was rejected before any work was done.
    Validation(String),
}

/// The mathematical value of a [`PipelineError`]: its kind and its message.
pub enum PipelineErrorView {
    ChunkingError(Seq<char>),
    ExtractionError(Seq<char>),
    Validation(Seq<char>),
}

impl View for PipelineError {
    type V = PipelineErrorView;

    open spec fn view(&self) -> PipelineErrorView {
        match self {
            PipelineError::ChunkingError(m) => PipelineErrorView::ChunkingError(m@),
            PipelineError::ExtractionError(m) => PipelineErrorView::ExtractionError(m@),
            PipelineError::Validation(m) => PipelineErrorView::Validation(m@),
        }
    }
}

impl PipelineError {
    /// A copy of the error, kind and message.
    pub fn duplicate(&self) -> (r: PipelineError)
        ensures
            r@ == self@,
    {
        match self {
            PipelineError::ChunkingError(m) => PipelineError::ChunkingError(m.clone()),
            PipelineError::ExtractionError(m) => PipelineError::ExtractionError(m.clone()),
            PipelineError::Validation(m) => PipelineError::Validation(m.clone()),
        }
    }
}

/// Errors of query-side processing.
#[derive(Debug, Clone, PartialEq, Eq)]
pub enum QueryError {
    /// An internal failure with a human-readable message.
    Internal(String),
}

/// The mathematical value of a [`QueryError`].
pub enum QueryErrorView {
    Internal(Seq<char>),
}

impl View for QueryError {
    type V = QueryErrorView;

    open spec fn view(&self) -> QueryErrorView {
        match self {
            QueryError::Internal(m) => QueryErrorView::Internal(m@),
        }
    }
}

} // verus!
