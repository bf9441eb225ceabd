//! The decisions of LLM entity extraction for one chunk: the size gate, the
//! output-token budget, and the retry policy that reacts to each outcome of
//! an LLM call (error, empty answer, truncated answer, parse failure,
//! success). The calls themselves, and the waiting between attempts, are
//! made by the caller, which reports each outcome to
//! [`ExtractionAttempts::step`] and follows the returned decision.
use vstd::prelude::*;
use crate::error::{PipelineError, PipelineErrorView};
use crate::sql::{lowercase_of, to_lowercase};
use crate::text::{contains, decimal, is_blank, push_decimal, push_str, str_is_blank, string_contains};

verus! {

/// Chunks estimated above this many tokens are rejected before any call.
pub const MAX_CHUNK_TOKENS: usize = 1500;

/// Number of LLM calls made for one chunk at most.
pub const MAX_RETRIES: u32 = 3;

/// Ceiling of the output-token budget when it is raised after truncation.
pub const MAX_OUTPUT_TOKENS: usize = 32768;

/// Adaptive chunk size recommendation based on document size (bytes).
pub open spec fn spec_recommended_chunk_size(bytes: nat) -> nat {
    if bytes > 100_000 {
        600
    } else if bytes > 50_000 {
        800
    } else {
        1200
    }
}

/// Adaptive chunk size recommendation based on document size (bytes):
/// 600 above 100 000 bytes, 800 above 50 000, else 1200.
pub fn recommended_chunk_size_for_bytes(chunk_size_bytes: usize) -> (r: usize)
    ensures
        r == spec_recommended_chunk_size(chunk_size_bytes as nat),
{
    if chunk_size_bytes > 100_000 {
        600
    } else if chunk_size_bytes > 50_000 {
        800
    } else {
        1200
    }
}

/// The language extracted names and descriptions are written in: the
/// configured one (the value of `EDGEQUAKE_EXTRACTION_LANGUAGE`, absent
/// when unset) unless blank, else `English`.
pub fn extraction_language(setting: Option<String>) -> (r: String)
    ensures
        r@ == match setting {
            Some(v) => if is_blank(v@) {
                "English"@
            } else {
                v@
            },
            None => "English"@,
        },
{
    match setting {
        Some(v) => if str_is_blank(v.as_str()) {
            "English".to_owned()
        } else {
            v
        },
        None => "English".to_owned(),
    }
}

/// A value recorded in an extraction result's metadata.
#[derive(Debug, Clone, PartialEq, Eq)]
pub enum MetadataValue {
    /// A text value.
    Text(String),
    /// A count.
    Count(u64),
}

/// Token usage, timing and metadata recorded on an extraction result.
#[derive(Debug, Clone, Default)]
pub struct ExtractionResult {
    /// Prompt tokens consumed.
    pub input_tokens: usize,
    /// Completion tokens produced.
    pub output_tokens: usize,
    /// Wall-clock time of the extraction.
    pub extraction_time_ms: u64,
    /// Metadata entries; a later entry overrides an earlier one with the
    /// same key.
    pub metadata: Vec<(String, MetadataValue)>,
}

/// Copy token usage from an LLM response into an extraction result.
pub fn assign_token_usage(result: &mut ExtractionResult, input_tokens: usize, output_tokens: usize)
    ensures
        final(result).input_tokens == input_tokens,
        final(result).output_tokens == output_tokens,
        final(result).extraction_time_ms == old(result).extraction_time_ms,
        final(result).metadata@ == old(result).metadata@,
{
    result.input_tokens = input_tokens;
    result.output_tokens = output_tokens;
}

/// Whether a metadata entry holds the text `text` under `key`.
pub open spec fn text_entry(e: (String, MetadataValue), key: Seq<char>, text: Seq<char>) -> bool {
    e.0@ == key && (e.1 matches MetadataValue::Text(t) && t@ == text)
}

/// Whether a metadata entry holds the count `n` under `key`.
pub open spec fn count_entry(e: (String, MetadataValue), key: Seq<char>, n: nat) -> bool {
    e.0@ == key && (e.1 matches MetadataValue::Count(c) && c == n)
}

/// Completes a parsed extraction result: the last answer's prompt and
/// completion tokens, the elapsed time, and the metadata entries
/// `extractor = sota`, `language`, `model`, `parse_attempts` and
/// `max_tokens_used`, in that order, after the result's own.
pub fn record_extraction_success(
    result: &mut ExtractionResult,
    prompt_tokens: usize,
    completion_tokens: usize,
    extraction_time_ms: u64,
    language: &str,
    model: &str,
    parse_attempts: u32,
    max_tokens_used: usize,
)
    ensures
        final(result).input_tokens == prompt_tokens,
        final(result).output_tokens == completion_tokens,
        final(result).extraction_time_ms == extraction_time_ms,
        ({
            let old_m = old(result).metadata@;
            let m = final(result).metadata@;
            let n = old_m.len() as int;
            &&& m.len() == n + 5
            &&& m.take(n) == old_m
            &&& text_entry(m[n], "extractor"@, "sota"@)
            &&& text_entry(m[n + 1], "language"@, language@)
            &&& text_entry(m[n + 2], "model"@, model@)
            &&& count_entry(m[n + 3], "parse_attempts"@, parse_attempts as nat)
            &&& count_entry(m[n + 4], "max_tokens_used"@, max_tokens_used as nat)
        }),
{
    assign_token_usage(result, prompt_tokens, completion_tokens);
    result.extraction_time_ms = extraction_time_ms;
    let ghost old_m = result.metadata@;
    result.metadata.push(("extractor".to_owned(), MetadataValue::Text("sota".to_owned())));
    result.metadata.push(("language".to_owned(), MetadataValue::Text(language.to_owned())));
    result.metadata.push(("model".to_owned(), MetadataValue::Text(model.to_owned())));
    result.metadata.push(("parse_attempts".to_owned(), MetadataValue::Count(parse_attempts as u64)));
    result.metadata.push(
        ("max_tokens_used".to_owned(), MetadataValue::Count(max_tokens_used as u64)),
    );
    assert(result.metadata@.take(old_m.len() as int) =~= old_m);
}

/// What an LLM answer for a chunk amounts to before it is parsed: an empty
/// answer when it is blank; a truncated one when its finish reason mentions
/// `length`; otherwise `None`, and the answer is to be parsed.
pub fn classify_answer(
    content: &str,
    finish_reason: &Option<String>,
    prompt_tokens: usize,
    completion_tokens: usize,
) -> (r: Option<ExtractionEvent>)
    ensures
        is_blank(content@) ==> (r matches Some(
            ExtractionEvent::EmptyResponse { prompt_tokens: p, completion_tokens: c },
        ) && p == prompt_tokens && c == completion_tokens),
        !is_blank(content@) && (finish_reason matches Some(f) && contains(f@, "length"@)) ==> (
        r matches Some(ExtractionEvent::Truncated { completion_tokens: c })
            && c == completion_tokens),
        !is_blank(content@) && !(finish_reason matches Some(f) && contains(f@, "length"@))
            ==> r is None,
{
    if str_is_blank(content) {
        return Some(ExtractionEvent::EmptyResponse { prompt_tokens, completion_tokens });
    }
    let truncated = match finish_reason {
        Some(f) => string_contains(f, "length"),
        None => false,
    };
    if truncated {
        Some(ExtractionEvent::Truncated { completion_tokens })
    } else {
        None
    }
}

/// The initial output-token budget, by chunk size in bytes.
pub open spec fn spec_base_max_tokens(bytes: nat) -> nat {
    if bytes < 25_000 {
        4096
    } else if bytes < 75_000 {
        8192
    } else if bytes < 125_000 {
        12288
    } else {
        16384
    }
}

/// The initial output-token budget for a chunk: 4096 below 25 000 bytes,
/// 8192 below 75 000, 12288 below 125 000, else 16384.
pub fn base_max_tokens(chunk_size_bytes: usize) -> (r: usize)
    ensures
        r == spec_base_max_tokens(chunk_size_bytes as nat),
{
    if chunk_size_bytes < 25_000 {
        4096
    } else if chunk_size_bytes < 75_000 {
        8192
    } else if chunk_size_bytes < 125_000 {
        12288
    } else {
        16384
    }
}

/// The wait before the attempt after `attempt`: 100 ms doubled per attempt.
pub open spec fn backoff_ms(attempt: nat) -> nat
    decreases attempt,
{
    if attempt <= 1 {
        100
    } else {
        2 * backoff_ms((attempt - 1) as nat)
    }
}

/// The back-off doubles from one attempt to the next.
pub proof fn backoff_doubles(attempt: nat)
    requires
        attempt >= 1,
    ensures
        backoff_ms(attempt + 1) == 2 * backoff_ms(attempt),
{
}

fn backoff_delay(attempt: u32) -> (r: u64)
    requires
        1 <= attempt <= MAX_RETRIES,
    ensures
        r == backoff_ms(attempt as nat),
{
    let mut d: u64 = 100;
    let mut i: u32 = 1;
    while i < attempt
        invariant
            1 <= i <= attempt <= MAX_RETRIES,
            d == backoff_ms(i as nat),
            d <= 400,
        decreases attempt - i,
    {
        d = d * 2;
        i = i + 1;
        assert(backoff_ms(i as nat) == 2 * backoff_ms((i - 1) as nat));
        assert(i <= 3);
        assert(d <= 400) by {
            reveal_with_fuel(backoff_ms, 4);
        }
    }
    d
}

/// The message of a chunk rejected for size.
pub open spec fn too_large_message(chunk_id: Seq<char>, bytes: nat) -> Seq<char> {
    let kb = decimal(bytes / 1024);
    "Chunk too large for LLM processing. Chunk size: "@ + kb + "KB (~"@ + decimal(bytes / 4)
        + " tokens, max: "@ + decimal(1500)
        + "). Suggestions:\n1. Use adaptive chunking: Set chunk_size="@ + decimal(
        spec_recommended_chunk_size(bytes),
    )
        + " for this document size\n2. Split document into smaller files (<50KB each)\n3. Current config uses chunk_size=1200 which is too large for "@
        + kb
        + "KB documents\n4. Alternative: Use Ollama with 300s timeout instead of OpenAI (120s)\nChunk ID: "@
        + chunk_id + " | Document size: ~"@ + kb + "KB"@
}

/// The message of a call that timed out.
pub open spec fn timeout_message(
    chunk_id: Seq<char>,
    bytes: nat,
    attempt: nat,
    error_text: Seq<char>,
) -> Seq<char> {
    let kb = decimal(bytes / 1024);
    "LLM timeout after 120s. Chunk: "@ + kb + "KB (~"@ + decimal(bytes / 4) + " tokens, max: "@
        + decimal(1500)
        + "). Document appears too large for current settings. Suggestions:\n1. BEST: Use adaptive chunking with chunk_size="@
        + decimal(spec_recommended_chunk_size(bytes)) + " (recommended for "@ + kb
        + "KB documents)\n2. Split document into smaller files (<50KB each)\n3. Switch to Ollama provider (300s timeout vs OpenAI 120s)\n4. Alternative: Increase LLM_TIMEOUT_SECS env variable (not recommended)\nChunk ID: "@
        + chunk_id + " | Attempt: "@ + decimal(attempt) + "/"@ + decimal(3)
        + " | Document size: ~"@ + kb + "KB | Original error: "@ + error_text
}

/// The message of an empty answer.
pub open spec fn empty_message(
    chunk_id: Seq<char>,
    bytes: nat,
    attempt: nat,
    prompt_tokens: nat,
    completion_tokens: nat,
) -> Seq<char> {
    let warn = if completion_tokens > 0 {
        " (completion_tokens="@ + decimal(completion_tokens)
            + ", reasoning may have consumed all tokens)"@
    } else {
        seq![]
    };
    "LLM returned EMPTY response"@ + warn + ". Chunk: "@ + decimal(bytes / 1024) + "KB (~"@
        + decimal(bytes / 4)
        + " tokens). Possible causes:\n1. REASONING MODEL: gpt-5-nano/gpt-5-mini use all tokens for CoT \u{2014} switch to gpt-5.4-mini or gpt-5.4-nano (support reasoning_effort=none)\n2. LLM timeout (check Ollama logs: journalctl -u ollama -f)\n3. Model crashed or OOM (check: ollama ps)\n4. Context window exhausted (reduce chunk_size)\nChunk ID: "@
        + chunk_id + " | Attempt: "@ + decimal(attempt) + "/"@ + decimal(3)
        + " | Prompt tokens: "@ + decimal(prompt_tokens)
}

/// The message recorded when a truncated answer is retried with a larger budget.
pub open spec fn truncated_retry_message(
    completion_tokens: nat,
    new_max: nat,
    next_attempt: nat,
) -> Seq<char> {
    "JSON truncated at "@ + decimal(completion_tokens) + " tokens. Retrying with "@ + decimal(
        new_max,
    ) + " tokens (attempt "@ + decimal(next_attempt) + "/"@ + decimal(3) + ")"@
}

/// The message when a truncated answer cannot be retried.
pub open spec fn still_truncated_message(max_tokens: nat) -> Seq<char> {
    "JSON still truncated after "@ + decimal(3) + " retries. Max tokens reached: "@ + decimal(
        max_tokens,
    )
        + ". Document may be too large for entity extraction. Suggestion: Split document into smaller chunks or use a model with larger context window."@
}

/// Whether a call error reads as a timeout.
pub open spec fn is_timeout_text(error_text: Seq<char>) -> bool {
    let l = lowercase_of(error_text);
    contains(l, "timeout"@) || contains(l, "timed out"@)
}

/// Whether a parse error reads as a JSON truncation.
pub open spec fn is_truncation_text(error_text: Seq<char>) -> bool {
    let l = lowercase_of(error_text);
    contains(l, "eof"@) || contains(l, "unexpected end"@) || contains(l, "unclosed"@)
}

/// The doubled output budget, capped.
pub open spec fn doubled_budget(current: nat) -> nat {
    if 2 * current < MAX_OUTPUT_TOKENS {
        2 * current
    } else {
        MAX_OUTPUT_TOKENS as nat
    }
}

/// What one LLM call for the chunk produced.
pub enum ExtractionEvent {
    /// The call failed; `error_text` is the error's display text.
    CallFailed { error_text: String },
    /// The answer was empty once trimmed.
    EmptyResponse { prompt_tokens: usize, completion_tokens: usize },
    /// The answer stopped on the token limit (finish reason `length`).
    Truncated { completion_tokens: usize },
    /// The answer parsed into an extraction result.
    Parsed,
    /// The answer did not parse; `error_text` is the error's display text.
    ParseFailed { error: PipelineError, error_text: String },
}

/// What the caller does next.
pub enum ExtractionStep {
    /// Wait this long, then call again with the (possibly raised) budget.
    Retry { delay_ms: u64 },
    /// Give up with this error.
    Fail(PipelineError),
    /// The result stands; record how many attempts and which budget it took.
    Done { parse_attempts: u32, max_tokens_used: usize },
}

/// The retry state of the extraction of one chunk.
pub struct ExtractionAttempts {
    chunk_id: String,
    chunk_size_bytes: usize,
    attempt: u32,
    current_max_tokens: usize,
    last_error: Option<PipelineError>,
}

impl ExtractionAttempts {
    /// The chunk id.
    pub closed spec fn spec_chunk_id(&self) -> Seq<char> {
        self.chunk_id@
    }

    /// The chunk size in bytes.
    pub closed spec fn spec_bytes(&self) -> nat {
        self.chunk_size_bytes as nat
    }

    /// The number of the current attempt (1-based).
    pub closed spec fn spec_attempt(&self) -> nat {
        self.attempt as nat
    }

    /// The output-token budget of the current attempt.
    pub closed spec fn spec_max_tokens(&self) -> nat {
        self.current_max_tokens as nat
    }

    /// The error of the latest failed attempt.
    pub closed spec fn spec_last_error(&self) -> Option<PipelineErrorView> {
        match self.last_error {
            Some(e) => Some(e@),
            None => None,
        }
    }

    /// The attempt number stays within the limit and the budget stays
    /// positive and within the ceiling.
    #[verifier::type_invariant]
    spec fn within_limits(self) -> bool {
        &&& 1 <= self.attempt <= MAX_RETRIES
        &&& 0 < self.current_max_tokens <= MAX_OUTPUT_TOKENS
    }

    /// The attempt number is within the limit and the budget is positive
    /// and within the ceiling.
    pub open spec fn wf(&self) -> bool {
        &&& 1 <= self.spec_attempt() <= MAX_RETRIES
        &&& 0 < self.spec_max_tokens() <= MAX_OUTPUT_TOKENS
    }

    /// Starts the extraction of a chunk of `chunk_size_bytes` bytes: rejects
    /// it when its estimate (one token per four bytes) exceeds 1500 tokens,
    /// else begins attempt 1 with the size-based budget.
    pub fn start(chunk_id: String, chunk_size_bytes: usize) -> (r: Result<
        ExtractionAttempts,
        PipelineError,
    >)
        ensures
            chunk_size_bytes / 4 > MAX_CHUNK_TOKENS ==> (r matches Err(e) && e@
                == PipelineErrorView::Validation(
                too_large_message(chunk_id@, chunk_size_bytes as nat),
            )),
            chunk_size_bytes / 4 <= MAX_CHUNK_TOKENS ==> (r matches Ok(s) && {
                &&& s.wf()
                &&& s.spec_attempt() == 1
                &&& s.spec_max_tokens() == spec_base_max_tokens(chunk_size_bytes as nat)
                &&& s.spec_last_error() is None
                &&& s.spec_chunk_id() == chunk_id@
                &&& s.spec_bytes() == chunk_size_bytes
            }),
    {
        let estimated_tokens = chunk_size_bytes / 4;
        if estimated_tokens > MAX_CHUNK_TOKENS {
            let kb = (chunk_size_bytes / 1024) as u64;
            let mut m = String::new();
            push_str(&mut m, "Chunk too large for LLM processing. Chunk size: ");
            push_decimal(&mut m, kb);
            push_str(&mut m, "KB (~");
            push_decimal(&mut m, estimated_tokens as u64);
            push_str(&mut m, " tokens, max: ");
            push_decimal(&mut m, MAX_CHUNK_TOKENS as u64);
            push_str(&mut m, "). Suggestions:\n1. Use adaptive chunking: Set chunk_size=");
            push_decimal(&mut m, recommended_chunk_size_for_bytes(chunk_size_bytes) as u64);
            push_str(
                &mut m,
                " for this document size\n2. Split document into smaller files (<50KB each)\n3. Current config uses chunk_size=1200 which is too large for ",
            );
            push_decimal(&mut m, kb);
            push_str(
                &mut m,
                "KB documents\n4. Alternative: Use Ollama with 300s timeout instead of OpenAI (120s)\nChunk ID: ",
            );
            push_str(&mut m, chunk_id.as_str());
            push_str(&mut m, " | Document size: ~");
            push_decimal(&mut m, kb);
            push_str(&mut m, "KB");
            assert(m@ =~= too_large_message(chunk_id@, chunk_size_bytes as nat));
            return Err(PipelineError::Validation(m));
        }
        Ok(
            ExtractionAttempts {
                chunk_id,
                chunk_size_bytes,
                attempt: 1,
                current_max_tokens: base_max_tokens(chunk_size_bytes),
                last_error: None,
            },
        )
    }

    /// The number of the current attempt.
    pub fn attempt(&self) -> (r: u32)
        ensures
            r == self.spec_attempt(),
    {
        self.attempt
    }

    /// The output-token budget for the current attempt.
    pub fn current_max_tokens(&self) -> (r: usize)
        ensures
            r == self.spec_max_tokens(),
    {
        self.current_max_tokens
    }

    /// Records a failure of the current attempt and decides: when attempts
    /// remain, move to the next one after the back-off, else give up with it.
    fn fail_and_maybe_retry(&mut self, error: PipelineError) -> (r: ExtractionStep)
        ensures
            final(self).wf(),
            final(self).spec_last_error() == Some(error@),
            final(self).spec_max_tokens() == old(self).spec_max_tokens(),
            final(self).spec_chunk_id() == old(self).spec_chunk_id(),
            final(self).spec_bytes() == old(self).spec_bytes(),
            old(self).spec_attempt() < MAX_RETRIES ==> (r matches ExtractionStep::Retry { delay_ms }
                && delay_ms == backoff_ms(old(self).spec_attempt()) && final(self).spec_attempt()
                == old(self).spec_attempt() + 1),
            old(self).spec_attempt() >= MAX_RETRIES ==> (r matches ExtractionStep::Fail(e) && e@
                == error@ && final(self).spec_attempt() == old(self).spec_attempt()),
    {
        proof {
            use_type_invariant(&*self);
        }
        if self.attempt < MAX_RETRIES {
            let delay_ms = backoff_delay(self.attempt);
            self.last_error = Some(error);
            self.attempt = self.attempt + 1;
            ExtractionStep::Retry { delay_ms }
        } else {
            let e = error.duplicate();
            self.last_error = Some(error);
            ExtractionStep::Fail(e)
        }
    }

    /// The extraction error a failed call is recorded as: the timeout
    /// diagnosis when the error reads as a timeout, else `LLM error: <error>`.
    pub open spec fn call_failure_message(&self, error_text: Seq<char>) -> Seq<char> {
        if is_timeout_text(error_text) {
            timeout_message(self.spec_chunk_id(), self.spec_bytes(), self.spec_attempt(), error_text)
        } else {
            "LLM error: "@ + error_text
        }
    }

    /// Decides what follows one LLM call for the chunk.
    ///
    /// - A failed call or an empty answer is recorded as an extraction error
    ///   and retried after the back-off while attempts remain (three in all);
    ///   on the last attempt that error is final.
    /// - A truncated answer is retried with the budget doubled (at most
    ///   32768 tokens) while attempts remain and the budget is below the
    ///   ceiling; otherwise the extraction fails as still truncated.
    /// - A parse failure that reads as truncation is retried the same way
    ///   with a doubled budget; other parse failures (or truncations that
    ///   cannot grow) are retried unchanged while attempts remain, and the
    ///   parse error is final on the last attempt.
    /// - A parsed answer ends the extraction with the attempt count and the
    ///   budget used.
    pub fn step(&mut self, event: ExtractionEvent) -> (r: ExtractionStep)
        ensures
            final(self).wf(),
            final(self).spec_chunk_id() == old(self).spec_chunk_id(),
            final(self).spec_bytes() == old(self).spec_bytes(),
            old(self).spec_max_tokens() <= final(self).spec_max_tokens(),
            old(self).spec_attempt() <= final(self).spec_attempt(),
            r is Retry ==> old(self).spec_attempt() < MAX_RETRIES && final(self).spec_attempt()
                == old(self).spec_attempt() + 1 && r->delay_ms == backoff_ms(
                old(self).spec_attempt(),
            ),
            !(r is Retry) ==> final(self).spec_attempt() == old(self).spec_attempt(),
            match event {
                ExtractionEvent::CallFailed { error_text } => {
                    let e = PipelineErrorView::ExtractionError(
                        old(self).call_failure_message(error_text@),
                    );
                    &&& final(self).spec_max_tokens() == old(self).spec_max_tokens()
                    &&& old(self).spec_attempt() < MAX_RETRIES ==> r is Retry
                        && final(self).spec_last_error() == Some(e)
                    &&& old(self).spec_attempt() >= MAX_RETRIES ==> (r matches ExtractionStep::Fail(
                        f,
                    ) && f@ == e)
                },
                ExtractionEvent::EmptyResponse { prompt_tokens, completion_tokens } => {
                    let e = PipelineErrorView::ExtractionError(
                        empty_message(
                            old(self).spec_chunk_id(),
                            old(self).spec_bytes(),
                            old(self).spec_attempt(),
                            prompt_tokens as nat,
                            completion_tokens as nat,
                        ),
                    );
                    &&& final(self).spec_max_tokens() == old(self).spec_max_tokens()
                    &&& old(self).spec_attempt() < MAX_RETRIES ==> r is Retry
                        && final(self).spec_last_error() == Some(e)
                    &&& old(self).spec_attempt() >= MAX_RETRIES ==> (r matches ExtractionStep::Fail(
                        f,
                    ) && f@ == e)
                },
                ExtractionEvent::Truncated { completion_tokens } => {
                    if old(self).spec_attempt() < MAX_RETRIES && old(self).spec_max_tokens()
                        < MAX_OUTPUT_TOKENS {
                        &&& r is Retry
                        &&& final(self).spec_max_tokens() == doubled_budget(
                            old(self).spec_max_tokens(),
                        )
                        &&& final(self).spec_last_error() == Some(
                            PipelineErrorView::ExtractionError(
                                truncated_retry_message(
                                    completion_tokens as nat,
                                    final(self).spec_max_tokens(),
                                    old(self).spec_attempt() + 1,
                                ),
                            ),
                        )
                    } else {
                        r matches ExtractionStep::Fail(f) && f@
                            == PipelineErrorView::ExtractionError(
                            still_truncated_message(old(self).spec_max_tokens()),
                        )
                    }
                },
                ExtractionEvent::Parsed => {
                    &&& final(self).spec_max_tokens() == old(self).spec_max_tokens()
                    &&& r matches ExtractionStep::Done { parse_attempts, max_tokens_used }
                    &&& parse_attempts == old(self).spec_attempt()
                    &&& max_tokens_used == old(self).spec_max_tokens()
                },
                ExtractionEvent::ParseFailed { error, error_text } => {
                    if is_truncation_text(error_text@) && old(self).spec_attempt() < MAX_RETRIES
                        && old(self).spec_max_tokens() < MAX_OUTPUT_TOKENS {
                        &&& r is Retry
                        &&& final(self).spec_max_tokens() == doubled_budget(
                            old(self).spec_max_tokens(),
                        )
                        &&& final(self).spec_last_error() == Some(error@)
                    } else {
                        &&& final(self).spec_max_tokens() == old(self).spec_max_tokens()
                        &&& old(self).spec_attempt() < MAX_RETRIES ==> r is Retry
                            && final(self).spec_last_error() == Some(error@)
                        &&& old(self).spec_attempt() >= MAX_RETRIES ==> (r matches ExtractionStep::Fail(
                            f,
                        ) && f@ == error@)
                    }
                },
            },
    {
        proof {
            use_type_invariant(&*self);
        }
        match event {
            ExtractionEvent::CallFailed { error_text } => {
                let lower = to_lowercase(error_text.as_str());
                let is_timeout = string_contains(&lower, "timeout") || string_contains(
                    &lower,
                    "timed out",
                );
                let mut m = String::new();
                if is_timeout {
                    let bytes = self.chunk_size_bytes;
                    let kb = (bytes / 1024) as u64;
                    push_str(&mut m, "LLM timeout after 120s. Chunk: ");
                    push_decimal(&mut m, kb);
                    push_str(&mut m, "KB (~");
                    push_decimal(&mut m, (bytes / 4) as u64);
                    push_str(&mut m, " tokens, max: ");
                    push_decimal(&mut m, MAX_CHUNK_TOKENS as u64);
                    push_str(
                        &mut m,
                        "). Document appears too large for current settings. Suggestions:\n1. BEST: Use adaptive chunking with chunk_size=",
                    );
                    push_decimal(&mut m, recommended_chunk_size_for_bytes(bytes) as u64);
                    push_str(&mut m, " (recommended for ");
                    push_decimal(&mut m, kb);
                    push_str(
                        &mut m,
                        "KB documents)\n2. Split document into smaller files (<50KB each)\n3. Switch to Ollama provider (300s timeout vs OpenAI 120s)\n4. Alternative: Increase LLM_TIMEOUT_SECS env variable (not recommended)\nChunk ID: ",
                    );
                    push_str(&mut m, self.chunk_id.as_str());
                    push_str(&mut m, " | Attempt: ");
                    push_decimal(&mut m, self.attempt as u64);
                    push_str(&mut m, "/");
                    push_decimal(&mut m, MAX_RETRIES as u64);
                    push_str(&mut m, " | Document size: ~");
                    push_decimal(&mut m, kb);
                    push_str(&mut m, "KB | Original error: ");
                    push_str(&mut m, error_text.as_str());
                    assert(m@ =~= timeout_message(
                        self.chunk_id@,
                        bytes as nat,
                        self.attempt as nat,
                        error_text@,
                    ));
                } else {
                    push_str(&mut m, "LLM error: ");
                    push_str(&mut m, error_text.as_str());
                }
                self.fail_and_maybe_retry(PipelineError::ExtractionError(m))
            },
            ExtractionEvent::EmptyResponse { prompt_tokens, completion_tokens } => {
                let bytes = self.chunk_size_bytes;
                let mut m = String::new();
                push_str(&mut m, "LLM returned EMPTY response");
                if completion_tokens > 0 {
                    push_str(&mut m, " (completion_tokens=");
                    push_decimal(&mut m, completion_tokens as u64);
                    push_str(&mut m, ", reasoning may have consumed all tokens)");
                }
                push_str(&mut m, ". Chunk: ");
                push_decimal(&mut m, (bytes / 1024) as u64);
                push_str(&mut m, "KB (~");
                push_decimal(&mut m, (bytes / 4) as u64);
                push_str(
                    &mut m,
                    " tokens). Possible causes:\n1. REASONING MODEL: gpt-5-nano/gpt-5-mini use all tokens for CoT \u{2014} switch to gpt-5.4-mini or gpt-5.4-nano (support reasoning_effort=none)\n2. LLM timeout (check Ollama logs: journalctl -u ollama -f)\n3. Model crashed or OOM (check: ollama ps)\n4. Context window exhausted (reduce chunk_size)\nChunk ID: ",
                );
                push_str(&mut m, self.chunk_id.as_str());
                push_str(&mut m, " | Attempt: ");
                push_decimal(&mut m, self.attempt as u64);
                push_str(&mut m, "/");
                push_decimal(&mut m, MAX_RETRIES as u64);
                push_str(&mut m, " | Prompt tokens: ");
                push_decimal(&mut m, prompt_tokens as u64);
                assert(m@ =~= empty_message(
                    self.chunk_id@,
                    bytes as nat,
                    self.attempt as nat,
                    prompt_tokens as nat,
                    completion_tokens as nat,
                ));
                self.fail_and_maybe_retry(PipelineError::ExtractionError(m))
            },
            ExtractionEvent::Truncated { completion_tokens } => {
                if self.attempt < MAX_RETRIES && self.current_max_tokens < MAX_OUTPUT_TOKENS {
                    let doubled = self.current_max_tokens * 2;
                    let new_max = if doubled < MAX_OUTPUT_TOKENS {
                        doubled
                    } else {
                        MAX_OUTPUT_TOKENS
                    };
                    let mut m = String::new();
                    push_str(&mut m, "JSON truncated at ");
                    push_decimal(&mut m, completion_tokens as u64);
                    push_str(&mut m, " tokens. Retrying with ");
                    push_decimal(&mut m, new_max as u64);
                    push_str(&mut m, " tokens (attempt ");
                    push_decimal(&mut m, (self.attempt + 1) as u64);
                    push_str(&mut m, "/");
                    push_decimal(&mut m, MAX_RETRIES as u64);
                    push_str(&mut m, ")");
                    assert(m@ =~= truncated_retry_message(
                        completion_tokens as nat,
                        new_max as nat,
                        (self.attempt + 1) as nat,
                    ));
                    let delay_ms = backoff_delay(self.attempt);
                    self.current_max_tokens = new_max;
                    self.last_error = Some(PipelineError::ExtractionError(m));
                    self.attempt = self.attempt + 1;
                    ExtractionStep::Retry { delay_ms }
                } else {
                    let mut m = String::new();
                    push_str(&mut m, "JSON still truncated after ");
                    push_decimal(&mut m, MAX_RETRIES as u64);
                    push_str(&mut m, " retries. Max tokens reached: ");
                    push_decimal(&mut m, self.current_max_tokens as u64);
                    push_str(
                        &mut m,
                        ". Document may be too large for entity extraction. Suggestion: Split document into smaller chunks or use a model with larger context window.",
                    );
                    assert(m@ =~= still_truncated_message(self.current_max_tokens as nat));
                    ExtractionStep::Fail(PipelineError::ExtractionError(m))
                }
            },
            ExtractionEvent::Parsed => {
                ExtractionStep::Done {
                    parse_attempts: self.attempt,
                    max_tokens_used: self.current_max_tokens,
                }
            },
            ExtractionEvent::ParseFailed { error, error_text } => {
                let lower = to_lowercase(error_text.as_str());
                let is_json_truncation = string_contains(&lower, "eof") || string_contains(
                    &lower,
                    "unexpected end",
                ) || string_contains(&lower, "unclosed");
                if is_json_truncation && self.attempt < MAX_RETRIES && self.current_max_tokens
                    < MAX_OUTPUT_TOKENS {
                    let doubled = self.current_max_tokens * 2;
                    let new_max = if doubled < MAX_OUTPUT_TOKENS {
                        doubled
                    } else {
                        MAX_OUTPUT_TOKENS
                    };
                    let delay_ms = backoff_delay(self.attempt);
                    self.current_max_tokens = new_max;
                    self.last_error = Some(error);
                    self.attempt = self.attempt + 1;
                    ExtractionStep::Retry { delay_ms }
                } else {
                    self.fail_and_maybe_retry(error)
                }
            },
        }
    }
}

} // verus!
