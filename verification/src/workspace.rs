//! Resolving the ingestion pipeline of a workspace: the fallback policy,
//! the failures that can occur, their messages, and whether the adaptive
//! chunker is switched on.
use vstd::prelude::*;
use crate::text::{push_str, str_eq};

verus! {

/// Policy when workspace provider resolution fails.
#[derive(Debug, Clone, Copy, PartialEq, Eq, Structural)]
pub enum PipelineFallbackPolicy {
    /// Return the global default pipeline.
    LenientGlobal,
    /// Fail with an explicit error.
    Strict,
}

/// Why a workspace's pipeline could not be built.
#[derive(Debug, Clone)]
pub enum WorkspaceResolutionFailure {
    /// The workspace id is not a valid id.
    InvalidId { workspace_id: String },
    /// No such workspace.
    NotFound { workspace_id: String },
    /// Looking the workspace up failed.
    LookupFailed { workspace_id: String, error: String },
    /// The workspace's LLM provider could not be created.
    LlmProviderFailed { provider: String, model: String, error: String },
    /// The workspace's embedding provider could not be created.
    EmbeddingProviderFailed { provider: String, model: String, error: String },
    /// Neither provider could be created.
    BothProvidersFailed { llm_error: String, embedding_error: String },
}

/// The message of a resolution failure.
pub open spec fn failure_message(f: WorkspaceResolutionFailure) -> Seq<char> {
    match f {
        WorkspaceResolutionFailure::InvalidId { workspace_id } => "Invalid workspace ID format '"@
            + workspace_id@ + "'"@,
        WorkspaceResolutionFailure::NotFound { workspace_id } => "Workspace '"@ + workspace_id@
            + "' not found"@,
        WorkspaceResolutionFailure::LookupFailed { workspace_id, error } =>
            "Failed to lookup workspace '"@ + workspace_id@ + "': "@ + error@,
        WorkspaceResolutionFailure::LlmProviderFailed { provider, model, error } =>
            "Failed to create LLM provider '"@ + provider@ + "' / '"@ + model@ + "': "@ + error@,
        WorkspaceResolutionFailure::EmbeddingProviderFailed { provider, model, error } =>
            "Failed to create embedding provider '"@ + provider@ + "' / '"@ + model@ + "': "@
                + error@,
        WorkspaceResolutionFailure::BothProvidersFailed { llm_error, embedding_error } =>
            "Failed to create LLM ("@ + llm_error@ + ") and embedding ("@ + embedding_error@
                + ") providers"@,
    }
}

impl WorkspaceResolutionFailure {
    /// The message of the failure.
    pub fn message(&self) -> (r: String)
        ensures
            r@ == failure_message(*self),
    {
        let mut s = String::new();
        match self {
            WorkspaceResolutionFailure::InvalidId { workspace_id } => {
                push_str(&mut s, "Invalid workspace ID format '");
                push_str(&mut s, workspace_id.as_str());
                push_str(&mut s, "'");
            },
            WorkspaceResolutionFailure::NotFound { workspace_id } => {
                push_str(&mut s, "Workspace '");
                push_str(&mut s, workspace_id.as_str());
                push_str(&mut s, "' not found");
            },
            WorkspaceResolutionFailure::LookupFailed { workspace_id, error } => {
                push_str(&mut s, "Failed to lookup workspace '");
                push_str(&mut s, workspace_id.as_str());
                push_str(&mut s, "': ");
                push_str(&mut s, error.as_str());
            },
            WorkspaceResolutionFailure::LlmProviderFailed { provider, model, error } => {
                push_str(&mut s, "Failed to create LLM provider '");
                push_str(&mut s, provider.as_str());
                push_str(&mut s, "' / '");
                push_str(&mut s, model.as_str());
                push_str(&mut s, "': ");
                push_str(&mut s, error.as_str());
            },
            WorkspaceResolutionFailure::EmbeddingProviderFailed { provider, model, error } => {
                push_str(&mut s, "Failed to create embedding provider '");
                push_str(&mut s, provider.as_str());
                push_str(&mut s, "' / '");
                push_str(&mut s, model.as_str());
                push_str(&mut s, "': ");
                push_str(&mut s, error.as_str());
            },
            WorkspaceResolutionFailure::BothProvidersFailed { llm_error, embedding_error } => {
                push_str(&mut s, "Failed to create LLM (");
                push_str(&mut s, llm_error.as_str());
                push_str(&mut s, ") and embedding (");
                push_str(&mut s, embedding_error.as_str());
                push_str(&mut s, ") providers");
            },
        }
        s
    }
}

/// The workspace id as a UUID, or the invalid-id failure naming it.
pub fn parse_workspace_id(workspace_id: &str) -> (r: Result<u128, WorkspaceResolutionFailure>)
    ensures
        match crate::ids::parsed_uuid(workspace_id@) {
            Some(u) => r == Ok::<u128, WorkspaceResolutionFailure>(u),
            None => (r matches Err(WorkspaceResolutionFailure::InvalidId { workspace_id: id })
                && id@ == workspace_id@),
        },
{
    match crate::ids::parse_uuid(workspace_id) {
        Some(u) => Ok(u),
        None => Err(WorkspaceResolutionFailure::InvalidId { workspace_id: workspace_id.to_owned() }),
    }
}

/// The workspace a lookup found, or the failure: `NotFound` when it found
/// none, `LookupFailed` with the lookup's own error.
pub fn lookup_outcome<W>(workspace_id: &str, lookup: Result<Option<W>, String>) -> (r: Result<
    W,
    WorkspaceResolutionFailure,
>)
    ensures
        match lookup {
            Ok(Some(w)) => (r matches Ok(v) && v == w),
            Ok(None) => (r matches Err(WorkspaceResolutionFailure::NotFound { workspace_id: id })
                && id@ == workspace_id@),
            Err(e) => (r matches Err(
                WorkspaceResolutionFailure::LookupFailed { workspace_id: id, error },
            ) && id@ == workspace_id@ && error@ == e@),
        },
{
    match lookup {
        Ok(Some(w)) => Ok(w),
        Ok(None) => Err(WorkspaceResolutionFailure::NotFound { workspace_id: workspace_id.to_owned() }),
        Err(e) => Err(
            WorkspaceResolutionFailure::LookupFailed { workspace_id: workspace_id.to_owned(), error: e },
        ),
    }
}

/// The outcome of creating the two providers of a workspace, as a failure
/// when either failed (both errors are reported when both did).
pub fn provider_failure(
    llm: Result<(), String>,
    embedding: Result<(), String>,
    llm_provider: &str,
    llm_model: &str,
    embedding_provider: &str,
    embedding_model: &str,
) -> (r: Option<WorkspaceResolutionFailure>)
    ensures
        match (llm, embedding) {
            (Ok(_), Ok(_)) => r is None,
            (Err(e), Ok(_)) => (r matches Some(WorkspaceResolutionFailure::LlmProviderFailed {
                provider,
                model,
                error,
            }) && provider@ == llm_provider@ && model@ == llm_model@ && error@ == e@),
            (Ok(_), Err(e)) => (r matches Some(
                WorkspaceResolutionFailure::EmbeddingProviderFailed { provider, model, error },
            ) && provider@ == embedding_provider@ && model@ == embedding_model@ && error@
                == e@),
            (Err(a), Err(b)) => (r matches Some(
                WorkspaceResolutionFailure::BothProvidersFailed { llm_error, embedding_error },
            ) && llm_error@ == a@ && embedding_error@ == b@),
        },
{
    match (llm, embedding) {
        (Ok(_), Ok(_)) => None,
        (Err(e), Ok(_)) => Some(
            WorkspaceResolutionFailure::LlmProviderFailed {
                provider: llm_provider.to_owned(),
                model: llm_model.to_owned(),
                error: e,
            },
        ),
        (Ok(_), Err(e)) => Some(
            WorkspaceResolutionFailure::EmbeddingProviderFailed {
                provider: embedding_provider.to_owned(),
                model: embedding_model.to_owned(),
                error: e,
            },
        ),
        (Err(a), Err(b)) => Some(
            WorkspaceResolutionFailure::BothProvidersFailed { llm_error: a, embedding_error: b },
        ),
    }
}

/// Builds workspace-scoped pipelines over a workspace service `S`, falling
/// back to the global pipeline `P` as the policy allows.
pub struct WorkspacePipelineFactory<S, P> {
    workspace_service: S,
    global_pipeline: P,
}

impl<S, P> WorkspacePipelineFactory<S, P> {
    /// A factory over a workspace service and the global pipeline.
    pub fn new(workspace_service: S, global_pipeline: P) -> (r: WorkspacePipelineFactory<S, P>)
        ensures
            r.spec_service() == workspace_service,
            r.spec_global() == global_pipeline,
    {
        WorkspacePipelineFactory { workspace_service, global_pipeline }
    }

    pub closed spec fn spec_service(&self) -> S {
        self.workspace_service
    }

    pub closed spec fn spec_global(&self) -> P {
        self.global_pipeline
    }

    /// The workspace service.
    pub fn workspace_service(&self) -> (r: &S)
        ensures
            *r == self.spec_service(),
    {
        &self.workspace_service
    }

    /// The global pipeline.
    pub fn global_pipeline(&self) -> (r: &P)
        ensures
            *r == self.spec_global(),
    {
        &self.global_pipeline
    }

    /// What a failure leads to: the failure's message under the strict
    /// policy, the global pipeline under the lenient one.
    pub fn handle_failure(&self, policy: PipelineFallbackPolicy, failure: &WorkspaceResolutionFailure) -> (r:
        Result<&P, String>)
        ensures
            policy == PipelineFallbackPolicy::Strict ==> (r matches Err(m) && m@ == failure_message(
                *failure,
            )),
            policy == PipelineFallbackPolicy::LenientGlobal ==> (r matches Ok(p) && *p
                == self.spec_global()),
    {
        match policy {
            PipelineFallbackPolicy::Strict => Err(failure.message()),
            PipelineFallbackPolicy::LenientGlobal => Ok(&self.global_pipeline),
        }
    }
}

/// Whether the chunker setting selects the adaptive chunker (the value
/// `adaptive`); any other value, or none, keeps the built-in chunker.
pub fn adaptive_chunker_selected(setting: Option<&str>) -> (r: bool)
    ensures
        r == match setting {
            Some(v) => v@ == "adaptive"@,
            None => false,
        },
{
    match setting {
        Some(v) => str_eq(v, "adaptive"),
        None => false,
    }
}

} // verus!
