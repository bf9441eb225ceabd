//! The document pipeline's configuration and its decisions: capping the
//! chunk size to the embedding model, whether extraction runs, how many
//! documents run at once, and what a resilient run's outcome amounts to.
use vstd::prelude::*;
use crate::chunker::{Chunker, ChunkerConfig, ChunkingStrategy, TokenBasedChunking};
use crate::error::{PipelineError, PipelineErrorView};
use crate::text::{decimal, push_decimal, push_str};

verus! {

/// Pipeline configuration.
#[derive(Debug, Clone)]
pub struct PipelineConfig {
    /// Chunking parameters.
    pub chunker: ChunkerConfig,
    /// Chunks per extraction batch.
    pub extraction_batch_size: usize,
    /// Extract entities from chunks.
    pub enable_entity_extraction: bool,
    /// Extract relationships from chunks.
    pub enable_relationship_extraction: bool,
    /// Embed chunks.
    pub enable_chunk_embeddings: bool,
    /// Build the document's lineage.
    pub enable_lineage_tracking: bool,
}

impl Default for PipelineConfig {
    fn default() -> (r: PipelineConfig)
        ensures
            r.chunker.is_default(),
            r.extraction_batch_size == 10,
            r.enable_entity_extraction,
            r.enable_relationship_extraction,
            r.enable_chunk_embeddings,
            r.enable_lineage_tracking,
    {
        PipelineConfig {
            chunker: ChunkerConfig::default(),
            extraction_batch_size: 10,
            enable_entity_extraction: true,
            enable_relationship_extraction: true,
            enable_chunk_embeddings: true,
            enable_lineage_tracking: true,
        }
    }
}

/// The largest chunk size an embedding model with `max_tokens` of context
/// accepts with a two-fold margin: half its context, at least 100.
pub open spec fn embedding_safe_chunk_size(max_tokens: nat) -> nat {
    if max_tokens / 2 > 100 {
        max_tokens / 2
    } else {
        100
    }
}

/// The chunk size after fitting it to an embedding model: unchanged when
/// the model reports no limit (0) or the size already fits, else the safe
/// size.
pub open spec fn spec_capped_chunk_size(chunk_size: nat, max_tokens: nat) -> nat {
    if max_tokens > 0 && chunk_size > embedding_safe_chunk_size(max_tokens) {
        embedding_safe_chunk_size(max_tokens)
    } else {
        chunk_size
    }
}

/// Fitting the chunk size to an embedding model is idempotent, never grows
/// the size, and, for a model that reports a limit, leaves a size within
/// half its context (or 100 tokens, whichever is larger).
pub proof fn capped_chunk_size_laws(chunk_size: nat, max_tokens: nat)
    ensures
        spec_capped_chunk_size(spec_capped_chunk_size(chunk_size, max_tokens), max_tokens)
            == spec_capped_chunk_size(chunk_size, max_tokens),
        spec_capped_chunk_size(chunk_size, max_tokens) <= chunk_size,
        max_tokens > 0 ==> spec_capped_chunk_size(chunk_size, max_tokens)
            <= embedding_safe_chunk_size(max_tokens),
{
}

impl PipelineConfig {
    /// Fits the chunk size to an embedding model with `max_tokens` of
    /// context; returns whether it changed (the chunker is then rebuilt).
    pub fn apply_embedding_limit(&mut self, max_tokens: usize) -> (changed: bool)
        ensures
            final(self).chunker.chunk_size == spec_capped_chunk_size(
                old(self).chunker.chunk_size as nat,
                max_tokens as nat,
            ),
            changed == (final(self).chunker.chunk_size != old(self).chunker.chunk_size),
            final(self).chunker.chunk_overlap == old(self).chunker.chunk_overlap,
            final(self).chunker.split_by_character == old(self).chunker.split_by_character,
            final(self).chunker.split_by_character_only == old(
                self,
            ).chunker.split_by_character_only,
            final(self).extraction_batch_size == old(self).extraction_batch_size,
            final(self).enable_entity_extraction == old(self).enable_entity_extraction,
            final(self).enable_relationship_extraction == old(
                self,
            ).enable_relationship_extraction,
            final(self).enable_chunk_embeddings == old(self).enable_chunk_embeddings,
            final(self).enable_lineage_tracking == old(self).enable_lineage_tracking,
    {
        if max_tokens > 0 {
            let half = max_tokens / 2;
            let max_safe = if half > 100 {
                half
            } else {
                100
            };
            if self.chunker.chunk_size > max_safe {
                self.chunker.chunk_size = max_safe;
                return true;
            }
        }
        false
    }

    /// Whether extraction runs for a document: entity or relationship
    /// extraction is enabled, the document does not skip it, and an
    /// extractor is configured.
    pub fn runs_extraction(&self, skip_extraction: bool, has_extractor: bool) -> (r: bool)
        ensures
            r == ((self.enable_entity_extraction || self.enable_relationship_extraction)
                && !skip_extraction && has_extractor),
    {
        (self.enable_entity_extraction || self.enable_relationship_extraction) && !skip_extraction
            && has_extractor
    }
}

/// How many documents of a batch are processed at once: the configured
/// extraction concurrency, at least 4.
pub fn batch_concurrency(max_concurrent_extractions: usize) -> (r: usize)
    ensures
        r == if max_concurrent_extractions > 4 {
            max_concurrent_extractions
        } else {
            4
        },
{
    if max_concurrent_extractions > 4 {
        max_concurrent_extractions
    } else {
        4
    }
}

/// The document pipeline: its configuration, its chunker (with strategy
/// `S`), and the entity extractor `X` and embedding provider `E` once set.
pub struct Pipeline<S: ChunkingStrategy, X, E> {
    config: PipelineConfig,
    chunker: Chunker<S>,
    extractor: Option<X>,
    embedding_provider: Option<E>,
}

impl<X, E> Pipeline<TokenBasedChunking, X, E> {
    /// A pipeline with the given configuration, chunking by tokens with the
    /// configuration's chunking parameters, with no extractor and no
    /// embedding provider.
    pub fn new(config: PipelineConfig) -> (r: Pipeline<TokenBasedChunking, X, E>)
        ensures
            r.spec_config() == config,
            r.spec_chunker().spec_config() == config.chunker,
            r.spec_chunker().spec_strategy() == TokenBasedChunking,
            r.spec_extractor() is None,
            r.spec_embedding_provider() is None,
    {
        let chunker = Chunker::new(config.chunker.copy());
        Pipeline { config, chunker, extractor: None, embedding_provider: None }
    }
}

/// A pipeline after its embedding provider is set: the same pipeline with
/// the provider, or, when its chunk size had to be capped, the pipeline
/// rebuilt on the capped size with the token chunker (a custom chunking
/// strategy is then dropped).
pub enum EmbeddedPipeline<S: ChunkingStrategy, X, E> {
    /// The chunk size fitted; chunker and configuration are unchanged.
    Kept(Pipeline<S, X, E>),
    /// The chunk size was capped and the token chunker rebuilt on it.
    Rechunked(Pipeline<TokenBasedChunking, X, E>),
}

impl<X, E> EmbeddedPipeline<TokenBasedChunking, X, E> {
    /// For a token-chunked pipeline both outcomes are token-chunked
    /// pipelines: the one held.
    pub fn into_pipeline(self) -> (r: Pipeline<TokenBasedChunking, X, E>)
        ensures
            match self {
                EmbeddedPipeline::Kept(p) => r == p,
                EmbeddedPipeline::Rechunked(p) => r == p,
            },
    {
        match self {
            EmbeddedPipeline::Kept(p) => p,
            EmbeddedPipeline::Rechunked(p) => p,
        }
    }
}

impl<S: ChunkingStrategy, X, E> Pipeline<S, X, E> {

    /// Sets the embedding provider, whose model accepts `max_tokens` of
    /// context (0 when it reports no limit). When the chunk size does not
    /// fit that context with a two-fold margin it is capped and the token
    /// chunker is rebuilt on the capped configuration; otherwise only the
    /// provider changes.
    pub fn with_embedding_provider(self, provider: E, max_tokens: usize) -> (r: EmbeddedPipeline<
        S,
        X,
        E,
    >)
        ensures
            ({
                let c = self.spec_config().chunker.chunk_size as nat;
                let capped = spec_capped_chunk_size(c, max_tokens as nat);
                if capped == c {
                    r matches EmbeddedPipeline::Kept(p) && {
                        &&& p.spec_config() == self.spec_config()
                        &&& p.spec_chunker() == self.spec_chunker()
                        &&& p.spec_extractor() == self.spec_extractor()
                        &&& p.spec_embedding_provider() == Some(provider)
                    }
                } else {
                    r matches EmbeddedPipeline::Rechunked(p) && {
                        &&& p.spec_config() == (PipelineConfig {
                            chunker: ChunkerConfig {
                                chunk_size: capped as usize,
                                ..self.spec_config().chunker
                            },
                            ..self.spec_config()
                        })
                        &&& p.spec_chunker().spec_config() == p.spec_config().chunker
                        &&& p.spec_chunker().spec_strategy() == TokenBasedChunking
                        &&& p.spec_extractor() == self.spec_extractor()
                        &&& p.spec_embedding_provider() == Some(provider)
                    }
                }
            }),
    {
        let Pipeline { mut config, chunker, extractor, embedding_provider: _ } = self;
        let changed = config.apply_embedding_limit(max_tokens);
        if changed {
            let chunker = Chunker::new(config.chunker.copy());
            EmbeddedPipeline::Rechunked(
                Pipeline { config, chunker, extractor, embedding_provider: Some(provider) },
            )
        } else {
            EmbeddedPipeline::Kept(
                Pipeline { config, chunker, extractor, embedding_provider: Some(provider) },
            )
        }
    }
    /// The configuration.
    pub closed spec fn spec_config(&self) -> PipelineConfig {
        self.config
    }

    /// The chunker.
    pub closed spec fn spec_chunker(&self) -> Chunker<S> {
        self.chunker
    }

    /// The extractor, once set.
    pub closed spec fn spec_extractor(&self) -> Option<X> {
        self.extractor
    }

    /// The embedding provider, once set.
    pub closed spec fn spec_embedding_provider(&self) -> Option<E> {
        self.embedding_provider
    }

    /// Replaces the chunker with one driven by `strategy`, on the
    /// pipeline's current chunking parameters (so a cap applied by
    /// `with_embedding_provider` is kept).
    pub fn with_chunking_strategy<S2: ChunkingStrategy>(self, strategy: S2) -> (r: Pipeline<
        S2,
        X,
        E,
    >)
        ensures
            r.spec_config() == self.spec_config(),
            r.spec_chunker().spec_config() == self.spec_config().chunker,
            r.spec_chunker().spec_strategy() == strategy,
            r.spec_extractor() == self.spec_extractor(),
            r.spec_embedding_provider() == self.spec_embedding_provider(),
    {
        let Pipeline { config, chunker: _, extractor, embedding_provider } = self;
        let chunker = Chunker::with_strategy(config.chunker.copy(), strategy);
        Pipeline { config, chunker, extractor, embedding_provider }
    }

    /// Sets the entity extractor.
    pub fn with_extractor(self, extractor: X) -> (r: Pipeline<S, X, E>)
        ensures
            r.spec_config() == self.spec_config(),
            r.spec_chunker() == self.spec_chunker(),
            r.spec_extractor() == Some(extractor),
            r.spec_embedding_provider() == self.spec_embedding_provider(),
    {
        let Pipeline { config, chunker, extractor: _, embedding_provider } = self;
        Pipeline { config, chunker, extractor: Some(extractor), embedding_provider }
    }

    /// The configuration.
    pub fn config(&self) -> (r: &PipelineConfig)
        ensures
            *r == self.spec_config(),
    {
        &self.config
    }

    /// The chunker.
    pub fn chunker(&self) -> (r: &Chunker<S>)
        ensures
            *r == self.spec_chunker(),
    {
        &self.chunker
    }

    /// The extractor, once set.
    pub fn extractor(&self) -> (r: Option<&X>)
        ensures
            match self.spec_extractor() {
                Some(x) => r == Some(&x),
                None => r is None,
            },
    {
        match &self.extractor {
            Some(x) => Some(x),
            None => None,
        }
    }

    /// The embedding provider, once set.
    pub fn embedding_provider(&self) -> (r: Option<&E>)
        ensures
            match self.spec_embedding_provider() {
                Some(e) => r == Some(&e),
                None => r is None,
            },
    {
        match &self.embedding_provider {
            Some(e) => Some(e),
            None => None,
        }
    }
}

/// One chunk whose extraction failed.
#[derive(Debug, Clone)]
pub struct FailedChunk {
    /// The chunk's position in the document.
    pub chunk_index: usize,
    /// Why it failed.
    pub error: String,
}

/// The results of the chunks whose extraction succeeded, in order.
pub open spec fn successes<R>(outcomes: Seq<Result<R, FailedChunk>>) -> Seq<R>
    decreases outcomes.len(),
{
    if outcomes.len() == 0 {
        seq![]
    } else {
        let p = successes(outcomes.drop_last());
        match outcomes.last() {
            Ok(r) => p.push(r),
            Err(_) => p,
        }
    }
}

/// The chunks whose extraction failed, in order.
pub open spec fn failures<R>(outcomes: Seq<Result<R, FailedChunk>>) -> Seq<FailedChunk>
    decreases outcomes.len(),
{
    if outcomes.len() == 0 {
        seq![]
    } else {
        let p = failures(outcomes.drop_last());
        match outcomes.last() {
            Ok(_) => p,
            Err(f) => p.push(f),
        }
    }
}

proof fn lemma_successes_push<R>(s: Seq<Result<R, FailedChunk>>, x: Result<R, FailedChunk>)
    ensures
        successes(s.push(x)) == match x {
            Ok(r) => successes(s).push(r),
            Err(_) => successes(s),
        },
        failures(s.push(x)) == match x {
            Ok(_) => failures(s),
            Err(f) => failures(s).push(f),
        },
{
    assert(s.push(x).drop_last() =~= s);
}

/// Every chunk's outcome lands on exactly one side, and no chunk succeeded
/// exactly when every chunk failed.
pub proof fn chunk_outcomes_partition<R>(outcomes: Seq<Result<R, FailedChunk>>)
    ensures
        successes(outcomes).len() + failures(outcomes).len() == outcomes.len(),
        successes(outcomes).len() == 0 <==> (forall|i: int|
            0 <= i < outcomes.len() ==> (#[trigger] outcomes[i]) is Err),
    decreases outcomes.len(),
{
    if outcomes.len() > 0 {
        let q = outcomes.drop_last();
        chunk_outcomes_partition(q);
        if successes(outcomes).len() == 0 {
            assert forall|i: int| 0 <= i < outcomes.len() implies (#[trigger] outcomes[i]) is Err by {
                if i < q.len() {
                    assert(outcomes[i] == q[i]);
                }
            }
        } else {
            if outcomes.last() is Err {
                let j = choose|j: int| 0 <= j < q.len() && !(q[j] is Err);
                assert(outcomes[j] == q[j]);
            }
        }
    }
}

/// Splits the chunks' extraction outcomes into the successful results and
/// the failed chunks, each in chunk order.
pub fn partition_chunk_outcomes<R>(outcomes: Vec<Result<R, FailedChunk>>) -> (r: (
    Vec<R>,
    Vec<FailedChunk>,
))
    ensures
        r.0@ == successes(outcomes@),
        r.1@ == failures(outcomes@),
{
    let ghost all = outcomes@;
    let mut rest = outcomes;
    let mut ok: Vec<R> = Vec::new();
    let mut bad: Vec<FailedChunk> = Vec::new();
    let n: usize = rest.len();
    assert(all.take(0) =~= Seq::<Result<R, FailedChunk>>::empty());
    while rest.len() > 0
        invariant
            n == all.len(),
            rest@.len() <= n,
            rest@ == all.subrange(n - rest@.len(), n as int),
            ok@ == successes(all.take(n - rest@.len())),
            bad@ == failures(all.take(n - rest@.len())),
        decreases rest@.len(),
    {
        let ghost k = (n - rest@.len()) as int;
        let ghost r0 = rest@;
        let o = rest.remove(0);
        assert(all[k] == r0[0]);
        assert(rest@ =~= all.subrange(k + 1, n as int));
        assert(all.take(k + 1) =~= all.take(k).push(all[k]));
        proof {
            lemma_successes_push(all.take(k), all[k]);
        }
        match o {
            Ok(v) => ok.push(v),
            Err(f) => bad.push(f),
        }
    }
    assert(all.take(n as int) =~= all);
    (ok, bad)
}

/// `Chunk <i>: <error>` for each failure, joined with `; `.
pub open spec fn failure_summary(failures: Seq<FailedChunk>) -> Seq<char> {
    crate::sql::join(
        failures.map_values(
            |f: FailedChunk| "Chunk "@ + decimal(f.chunk_index as nat) + ": "@ + f.error@,
        ),
        "; "@,
    )
}

/// The error of a run in which every chunk failed extraction.
pub fn complete_failure_error(total_chunks: usize, failures: &Vec<FailedChunk>) -> (r:
    PipelineError)
    ensures
        r@ == PipelineErrorView::ExtractionError(
            "All "@ + decimal(total_chunks as nat) + " chunks failed extraction. Failures: "@
                + failure_summary(failures@),
        ),
{
    let ghost parts = failures@.map_values(
        |f: FailedChunk| "Chunk "@ + decimal(f.chunk_index as nat) + ": "@ + f.error@,
    );
    let mut lines: Vec<String> = Vec::new();
    let mut i: usize = 0;
    while i < failures.len()
        invariant
            i <= failures@.len(),
            parts == failures@.map_values(
                |f: FailedChunk| "Chunk "@ + decimal(f.chunk_index as nat) + ": "@ + f.error@,
            ),
            crate::sql::string_views(lines@) == parts.take(i as int),
        decreases failures@.len() - i,
    {
        let mut l = String::new();
        push_str(&mut l, "Chunk ");
        push_decimal(&mut l, failures[i].chunk_index as u64);
        push_str(&mut l, ": ");
        push_str(&mut l, failures[i].error.as_str());
        let ghost before = crate::sql::string_views(lines@);
        lines.push(l);
        assert(crate::sql::string_views(lines@) =~= before.push(parts[i as int]));
        assert(parts.take(i + 1) =~= parts.take(i as int).push(parts[i as int]));
        i = i + 1;
    }
    assert(parts.take(failures@.len() as int) =~= parts);
    let summary = crate::sql::join_strings(&lines, "; ");
    let mut m = String::new();
    push_str(&mut m, "All ");
    push_decimal(&mut m, total_chunks as u64);
    push_str(&mut m, " chunks failed extraction. Failures: ");
    push_str(&mut m, summary.as_str());
    PipelineError::ExtractionError(m)
}

/// The message of a document that produced no chunk.
pub open spec fn no_chunks_message() -> Seq<char> {
    "Document chunking produced 0 chunks - content may be empty or malformed"@
}

/// The note recorded when chunks were stored but no entity was extracted.
pub open spec fn zero_entities_note(chunk_count: nat, successful: nat, failed: nat) -> Seq<char> {
    "Extracted 0 entities from "@ + decimal(chunk_count) + " chunks ("@ + decimal(successful)
        + " succeeded, "@ + decimal(failed)
        + " failed). Document chunks are stored for semantic search."@
}

/// Checks the counts of a finished resilient run: no chunk at all is a
/// chunking error; chunks without any entity are accepted with a note;
/// otherwise nothing is noted.
pub fn check_resilient_counts(
    chunk_count: usize,
    entity_count: usize,
    successful_chunks: usize,
    failed_chunks: usize,
) -> (r: Result<Option<String>, PipelineError>)
    ensures
        chunk_count == 0 ==> (r matches Err(e) && e@ == PipelineErrorView::ChunkingError(
            no_chunks_message(),
        )),
        chunk_count > 0 && entity_count == 0 ==> (r matches Ok(Some(n)) && n@ == zero_entities_note(
            chunk_count as nat,
            successful_chunks as nat,
            failed_chunks as nat,
        )),
        chunk_count > 0 && entity_count > 0 ==> r matches Ok(None),
{
    if chunk_count == 0 {
        return Err(
            PipelineError::ChunkingError(
                "Document chunking produced 0 chunks - content may be empty or malformed".to_owned(),
            ),
        );
    }
    if entity_count == 0 {
        let mut m = String::new();
        push_str(&mut m, "Extracted 0 entities from ");
        push_decimal(&mut m, chunk_count as u64);
        push_str(&mut m, " chunks (");
        push_decimal(&mut m, successful_chunks as u64);
        push_str(&mut m, " succeeded, ");
        push_decimal(&mut m, failed_chunks as u64);
        push_str(&mut m, " failed). Document chunks are stored for semantic search.");
        return Ok(Some(m));
    }
    Ok(None)
}

} // verus!
