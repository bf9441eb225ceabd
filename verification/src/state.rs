//! Server configuration: where data is stored and the request limits.
use vstd::prelude::*;
use crate::text::{is_blank, str_eq, str_is_blank};

verus! {

/// Where the server keeps its data.
#[derive(Debug, Clone, Copy, PartialEq, Eq, Structural)]
pub enum StorageMode {
    /// In-memory storage (ephemeral, for testing).
    Memory,
    /// Persistent storage in PostgreSQL with the graph extension.
    PostgreSQL,
}

impl StorageMode {
    /// The mode's name as written in configuration.
    pub open spec fn spec_name(self) -> Seq<char> {
        match self {
            StorageMode::Memory => "memory"@,
            StorageMode::PostgreSQL => "postgresql"@,
        }
    }

    /// The mode's name: `memory` or `postgresql`.
    pub fn as_str(&self) -> (r: &'static str)
        ensures
            r@ == self.spec_name(),
    {
        match self {
            StorageMode::Memory => "memory",
            StorageMode::PostgreSQL => "postgresql",
        }
    }

    /// Whether data is kept in memory.
    pub fn is_memory(&self) -> (r: bool)
        ensures
            r == (*self == StorageMode::Memory),
    {
        match self {
            StorageMode::Memory => true,
            StorageMode::PostgreSQL => false,
        }
    }

    /// Whether data is kept in PostgreSQL.
    pub fn is_postgresql(&self) -> (r: bool)
        ensures
            r == (*self == StorageMode::PostgreSQL),
    {
        match self {
            StorageMode::Memory => false,
            StorageMode::PostgreSQL => true,
        }
    }
}

/// The largest document accepted by default: 50 MiB.
pub const DEFAULT_MAX_DOCUMENT_SIZE: usize = 52428800;

/// The longest query accepted by default, in characters.
pub const DEFAULT_MAX_QUERY_LENGTH: usize = 10000;

/// Application configuration.
#[derive(Debug, Clone)]
pub struct AppConfig {
    /// The workspace used when a request names none.
    pub workspace_id: String,
    /// The largest document accepted, in bytes.
    pub max_document_size: usize,
    /// The longest query accepted.
    pub max_query_length: usize,
}

impl Default for AppConfig {
    fn default() -> (r: AppConfig)
        ensures
            r.workspace_id@ == "default"@,
            r.max_document_size == 50 * 1024 * 1024,
            r.max_query_length == 10000,
    {
        AppConfig {
            workspace_id: "default".to_owned(),
            max_document_size: DEFAULT_MAX_DOCUMENT_SIZE,
            max_query_length: DEFAULT_MAX_QUERY_LENGTH,
        }
    }
}

/// The re-ranking model used when none is configured.
pub const DEFAULT_RERANK_MODEL: &'static str = "Qwen3-Reranker-0.6B";

/// Which re-ranker orders the retrieved chunks.
#[derive(Debug, Clone)]
pub enum RerankerChoice {
    /// A neural re-ranker served over HTTP.
    Http { model: String, base_url: String, api_key: Option<String> },
    /// BM25 without stemming or normalisation.
    Bm25Minimal,
    /// BM25 with stemming and Unicode normalisation.
    Bm25Enhanced,
}

/// The re-ranker chosen by the settings: the HTTP re-ranker when a base URL
/// that is not blank is set (with the default model when none is named, and
/// the API key only when it is not empty); else minimal BM25 when the
/// enhanced switch reads exactly `false`; else enhanced BM25.
pub open spec fn spec_reranker_choice(
    base_url: Option<Seq<char>>,
    model: Option<Seq<char>>,
    api_key: Option<Seq<char>>,
    bm25_enhanced: Option<Seq<char>>,
) -> (Option<(Seq<char>, Seq<char>, Option<Seq<char>>)>, bool) {
    match base_url {
        Some(u) if !is_blank(u) => (
            Some(
                (
                    match model {
                        Some(m) => m,
                        None => DEFAULT_RERANK_MODEL@,
                    },
                    u,
                    match api_key {
                        Some(k) if k.len() > 0 => Some(k),
                        _ => None,
                    },
                ),
            ),
            false,
        ),
        _ => (None, bm25_enhanced == Some("false"@)),
    }
}

/// Chooses the re-ranker from the four settings (the base URL, the model,
/// the API key and the enhanced-BM25 switch), each absent when unset.
pub fn reranker_choice(
    base_url: Option<String>,
    model: Option<String>,
    api_key: Option<String>,
    bm25_enhanced: Option<String>,
) -> (r: RerankerChoice)
    ensures
        ({
            let (http, minimal) = spec_reranker_choice(
                crate::ingest::opt_view(base_url),
                crate::ingest::opt_view(model),
                crate::ingest::opt_view(api_key),
                crate::ingest::opt_view(bm25_enhanced),
            );
            match http {
                Some((m, u, k)) => (r matches RerankerChoice::Http { model: rm, base_url: ru, api_key: rk }
                    && rm@ == m && ru@ == u && crate::ingest::opt_view(rk) == k),
                None => if minimal {
                    r is Bm25Minimal
                } else {
                    r is Bm25Enhanced
                },
            }
        }),
{
    proof {
        reveal_strlit("false");
        reveal_strlit("Qwen3-Reranker-0.6B");
    }
    if let Some(u) = base_url {
        if !str_is_blank(u.as_str()) {
            let m = match model {
                Some(m) => m,
                None => DEFAULT_RERANK_MODEL.to_owned(),
            };
            let k = match api_key {
                Some(k) => if !k.as_str().is_empty() {
                    Some(k)
                } else {
                    None
                },
                None => None,
            };
            return RerankerChoice::Http { model: m, base_url: u, api_key: k };
        }
    }
    let minimal = match &bm25_enhanced {
        Some(v) => str_eq(v.as_str(), "false"),
        None => false,
    };
    if minimal {
        RerankerChoice::Bm25Minimal
    } else {
        RerankerChoice::Bm25Enhanced
    }
}

/// The default tenant and workspace created on a fresh in-memory server.
#[derive(Debug, Clone, PartialEq, Eq)]
pub struct DefaultTenantPlan {
    pub tenant_name: String,
    pub tenant_slug: String,
    pub tenant_description: String,
    /// Whether the tenant is on the Pro plan.
    pub pro_plan: bool,
    pub workspace_name: String,
    pub workspace_slug: String,
    pub embedding_model: String,
}

/// What the server does at start so that it is usable without
/// authentication.
#[derive(Debug, Clone, PartialEq, Eq)]
pub enum DefaultsSetup {
    /// PostgreSQL: make sure the default user exists; the workspace store
    /// creates the default tenant and workspace itself.
    EnsureDefaultUser,
    /// Tenants exist already: nothing to create.
    AlreadyInitialized,
    /// Create the default tenant, then the default workspace in it.
    CreateDefaults(DefaultTenantPlan),
}

/// The decision at start, as a spec: which of the three setups applies.
pub open spec fn spec_default_setup_kind(postgres: bool, existing_tenants: nat) -> int {
    if postgres {
        0
    } else if existing_tenants > 0 {
        1
    } else {
        2
    }
}

/// Decides the start-up setup: in PostgreSQL mode only the default user is
/// ensured; in memory, nothing when some tenant exists, else the default
/// tenant `Default` (slug `default`, Pro plan) and its workspace
/// `Default Workspace` (slug `default`, embedding model
/// `text-embedding-3-small`).
pub fn default_setup(postgres: bool, existing_tenants: usize) -> (r: DefaultsSetup)
    ensures
        spec_default_setup_kind(postgres, existing_tenants as nat) == 0 <==> r
            is EnsureDefaultUser,
        spec_default_setup_kind(postgres, existing_tenants as nat) == 1 <==> r
            is AlreadyInitialized,
        spec_default_setup_kind(postgres, existing_tenants as nat) == 2 <==> r is CreateDefaults,
        r matches DefaultsSetup::CreateDefaults(p) ==> {
            &&& p.tenant_name@ == "Default"@
            &&& p.tenant_slug@ == "default"@
            &&& p.tenant_description@ == "Default tenant for EdgeQuake"@
            &&& p.pro_plan
            &&& p.workspace_name@ == "Default Workspace"@
            &&& p.workspace_slug@ == "default"@
            &&& p.embedding_model@ == "text-embedding-3-small"@
        },
{
    if postgres {
        DefaultsSetup::EnsureDefaultUser
    } else if existing_tenants > 0 {
        DefaultsSetup::AlreadyInitialized
    } else {
        DefaultsSetup::CreateDefaults(
            DefaultTenantPlan {
                tenant_name: "Default".to_owned(),
                tenant_slug: "default".to_owned(),
                tenant_description: "Default tenant for EdgeQuake".to_owned(),
                pro_plan: true,
                workspace_name: "Default Workspace".to_owned(),
                workspace_slug: "default".to_owned(),
                embedding_model: "text-embedding-3-small".to_owned(),
            },
        )
    }
}

/// Start-up setup is idempotent: once the defaults were created (a tenant
/// exists), a later start creates nothing.
pub proof fn defaults_created_at_most_once(existing_tenants_after: nat)
    requires
        existing_tenants_after >= 1,
    ensures
        spec_default_setup_kind(false, existing_tenants_after) == 1,
{
}

} // verus!
