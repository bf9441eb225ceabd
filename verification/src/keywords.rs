//! Keyword extraction for queries: the extraction prompt, locating the JSON
//! object in a model's answer, repairing common JSON slips, and the
//! constructors of the LLM-backed and cached extractors.
use vstd::prelude::*;
use crate::error::QueryError;
use crate::text::{chars_of, find_from, find_from_exec, is_ws, push_char, push_str, string_from_range};

verus! {

/// The prompt text before the query.
pub const KEYWORD_PROMPT_HEAD: &'static str = r#"Extract high-level and low-level keywords from the following query, and classify the query intent.

## CRITICAL: Language Preservation
Output keywords in the **SAME LANGUAGE as the query**. If the query is Korean, output Korean keywords; do NOT translate to English. The knowledge graph entities are stored in the document's original language, so translated keywords will not match.
(예: 한국어 질의 "소유권이전 절차는?" → 키워드 "소유권이전", "절차" — NOT "ownership transfer", "procedure")

## Definitions

**High-level keywords**: Abstract concepts, themes, or topics that represent the broader context or domain of the query. These are used to find relevant relationships and global patterns in a knowledge graph.
Examples: "artificial intelligence", "climate change", "software architecture", "healthcare outcomes"

**Low-level keywords**: Specific entities, technical terms, proper nouns, or concrete concepts. These are used to find specific entities in a knowledge graph.
Examples: "GPT-4", "Sarah Chen", "PostgreSQL", "neural network", "Microsoft"

**Query Intent**:
- factual: Questions asking for facts about a specific thing ("What is X?", "Who is Y?")
- relational: Questions about connections between things ("How does X relate to Y?")
- exploratory: Broad questions seeking overview or understanding ("Tell me about X")
- comparative: Questions comparing multiple things ("Compare X and Y")
- procedural: Questions about processes or steps ("How to do X?")

## Query
""#;

/// The prompt text after the query.
pub const KEYWORD_PROMPT_TAIL: &'static str = r#""

## Output Format
Respond ONLY with valid JSON:
{
  "high_level_keywords": ["concept1", "concept2", ...],
  "low_level_keywords": ["entity1", "term1", ...],
  "query_intent": "factual|relational|exploratory|comparative|procedural"
}

## Examples

Query: "How does machine learning improve healthcare outcomes?"
{
  "high_level_keywords": ["machine learning", "healthcare", "improvement", "outcomes"],
  "low_level_keywords": ["ML algorithms", "medical diagnosis", "patient data", "clinical trials"],
  "query_intent": "relational"
}

Query: "What is the relationship between OpenAI and Microsoft?"
{
  "high_level_keywords": ["business relationship", "partnership", "technology collaboration"],
  "low_level_keywords": ["OpenAI", "Microsoft", "GPT", "Azure", "investment"],
  "query_intent": "relational"
}

Query: "Who is Sarah Chen and what is her role in the research project?"
{
  "high_level_keywords": ["research", "team roles", "project leadership"],
  "low_level_keywords": ["Sarah Chen", "researcher", "project"],
  "query_intent": "factual"
}

Query: "Compare Python and Rust for systems programming"
{
  "high_level_keywords": ["programming languages", "systems programming", "language comparison"],
  "low_level_keywords": ["Python", "Rust", "performance", "memory safety", "type system"],
  "query_intent": "comparative"
}

Query: "소유권이전 업무 프로세스는 어떻게 되나요?"
{
  "high_level_keywords": ["소유권이전", "업무 프로세스", "절차"],
  "low_level_keywords": ["위탁자", "수분양자", "분양대금", "등기위임장", "기안"],
  "query_intent": "procedural"
}

Now extract keywords from the query above. Respond with JSON only:"#;

} // verus!

verus! {

/// The keyword-extraction prompt for a query.
pub open spec fn keyword_prompt(query: Seq<char>) -> Seq<char> {
    KEYWORD_PROMPT_HEAD@ + query + KEYWORD_PROMPT_TAIL@
}

/// `s` without leading whitespace.
pub open spec fn trim_start(s: Seq<char>) -> Seq<char>
    decreases s.len(),
{
    if s.len() > 0 && is_ws(s[0]) {
        trim_start(s.drop_first())
    } else {
        s
    }
}

/// `s` without trailing whitespace.
pub open spec fn trim_end(s: Seq<char>) -> Seq<char>
    decreases s.len(),
{
    if s.len() > 0 && is_ws(s.last()) {
        trim_end(s.drop_last())
    } else {
        s
    }
}

/// `s` without leading and trailing whitespace (`str::trim`).
pub open spec fn trim(s: Seq<char>) -> Seq<char> {
    trim_end(trim_start(s))
}

/// The last position at or below `i` where `pat` occurs in `s`.
pub open spec fn rfind_at_most(s: Seq<char>, pat: Seq<char>, i: int) -> Option<int>
    decreases i + 1,
{
    if i < 0 {
        None
    } else if crate::text::matches_at(s, pat, i) {
        Some(i)
    } else {
        rfind_at_most(s, pat, i - 1)
    }
}

/// The last position where `pat` occurs in `s` (`str::rfind`).
pub open spec fn rfind(s: Seq<char>, pat: Seq<char>) -> Option<int> {
    rfind_at_most(s, pat, s.len() - pat.len())
}

/// Scanning `t` from `i` with brace depth `d`: the first `}` that brings the
/// depth back to zero.
pub open spec fn scan_close(t: Seq<char>, i: int, d: int) -> Option<int>
    decreases t.len() - i,
{
    if i < 0 || i >= t.len() {
        None
    } else {
        let d2 = if t[i] == '{' {
            d + 1
        } else if t[i] == '}' {
            d - 1
        } else {
            d
        };
        if t[i] == '}' && d2 == 0 {
            Some(i)
        } else {
            scan_close(t, i + 1, d2)
        }
    }
}

/// For an answer starting with `{`: the end of its balanced object.
pub open spec fn balanced_object_end(t: Seq<char>) -> Option<int> {
    if t.len() > 0 && t[0] == '{' {
        scan_close(t, 0, 0)
    } else {
        None
    }
}

/// In a fenced block starting at `start`: where the fence closes, relative
/// to `start` (the first "```\n" after it, else the last "```").
pub open spec fn fence_end(t: Seq<char>, start: int) -> Option<int> {
    let rest = t.subrange(start, t.len() as int);
    match find_from(rest, "```\n"@, 0) {
        Some(e) => Some(e),
        None => rfind(rest, "```"@),
    }
}

/// The JSON text located in a model answer, or the error message: the
/// balanced object when the trimmed answer starts with one; else the
/// trimmed contents of a "```json" block; else the text from the first `{`
/// to the last `}`. The answer is reported as holding no JSON when none of
/// these is found, or when the markers found are out of order (a closing
/// fence that ends before the opening one, a last `}` more than one
/// position before the first `{`).
pub open spec fn located_json(response: Seq<char>) -> Result<Seq<char>, Seq<char>> {
    let t = trim(response);
    let not_found = Err("Could not find JSON in response: "@ + t);
    match balanced_object_end(t) {
        Some(i) => Ok(t.take(i + 1)),
        None => {
            let braces = match (find_from(t, "{"@, 0), rfind(t, "}"@)) {
                (Some(s), Some(e)) => if s <= e + 1 {
                    Ok(t.subrange(s, e + 1))
                } else {
                    not_found
                },
                _ => not_found,
            };
            match find_from(t, "```json"@, 0) {
                Some(st) => match fence_end(t, st) {
                    Some(e) => if e >= 7 {
                        Ok(trim(t.subrange(st + 7, st + e)))
                    } else {
                        not_found
                    },
                    None => braces,
                },
                None => braces,
            }
        },
    }
}

} // verus!

verus! {

/// The bounds of `v[from..to]` without its leading and trailing whitespace.
fn trim_range(v: &Vec<char>, from: usize, to: usize) -> (r: (usize, usize))
    requires
        from <= to <= v@.len(),
    ensures
        from <= r.0 <= r.1 <= to,
        v@.subrange(r.0 as int, r.1 as int) == trim(v@.subrange(from as int, to as int)),
{
    let mut lo: usize = from;
    while lo < to && crate::text::is_whitespace_char(v[lo])
        invariant
            from <= lo <= to <= v@.len(),
            trim_start(v@.subrange(from as int, to as int)) == trim_start(
                v@.subrange(lo as int, to as int),
            ),
        decreases to - lo,
    {
        assert(v@.subrange(lo as int, to as int).drop_first() =~= v@.subrange(
            lo + 1,
            to as int,
        ));
        lo = lo + 1;
    }
    assert(trim_start(v@.subrange(lo as int, to as int)) == v@.subrange(lo as int, to as int));
    let mut hi: usize = to;
    while hi > lo && crate::text::is_whitespace_char(v[hi - 1])
        invariant
            from <= lo <= hi <= to <= v@.len(),
            trim_end(v@.subrange(lo as int, to as int)) == trim_end(
                v@.subrange(lo as int, hi as int),
            ),
        decreases hi,
    {
        assert(v@.subrange(lo as int, hi as int).drop_last() =~= v@.subrange(
            lo as int,
            hi - 1,
        ));
        hi = hi - 1;
    }
    (lo, hi)
}

/// The trimmed characters of `s`, as a vector.
fn trimmed_chars(s: &str) -> (r: Vec<char>)
    ensures
        r@ == trim(s@),
{
    let v = chars_of(s);
    let (lo, hi) = trim_range(&v, 0, v.len());
    assert(v@.subrange(0, v@.len() as int) =~= v@);
    let mut out: Vec<char> = Vec::new();
    let mut i: usize = lo;
    while i < hi
        invariant
            lo <= i <= hi <= v@.len(),
            out@ == v@.subrange(lo as int, i as int),
        decreases hi - i,
    {
        out.push(v[i]);
        assert(v@.subrange(lo as int, i + 1) =~= v@.subrange(lo as int, i as int).push(
            v@[i as int],
        ));
        i = i + 1;
    }
    out
}

/// The last occurrence of `pat` in `v`.
fn rfind_exec(v: &Vec<char>, pat: &Vec<char>) -> (r: Option<usize>)
    ensures
        r matches Some(i) ==> rfind(v@, pat@) == Some(i as int),
        r is None ==> rfind(v@, pat@) is None,
{
    let n: usize = v.len();
    let m: usize = pat.len();
    if m > n {
        return None;
    }
    let mut i: usize = n - m;
    loop
        invariant
            n == v@.len(),
            m == pat@.len(),
            m <= n,
            i <= n - m,
            rfind(v@, pat@) == rfind_at_most(v@, pat@, i as int),
        decreases i,
    {
        if crate::text::matches_at_exec(v, pat, i) {
            return Some(i);
        }
        if i == 0 {
            return None;
        }
        i = i - 1;
    }
}

/// The end of the balanced object at the start of `t`, if any.
fn balanced_object_end_exec(t: &Vec<char>) -> (r: Option<usize>)
    ensures
        r matches Some(i) ==> balanced_object_end(t@) == Some(i as int) && i < t@.len(),
        r is None ==> balanced_object_end(t@) is None,
{
    if t.len() == 0 || t[0] != '{' {
        return None;
    }
    let mut depth: i128 = 0;
    let mut i: usize = 0;
    while i < t.len()
        invariant
            t@.len() > 0 && t@[0] == '{',
            i <= t@.len(),
            -(i as int) <= depth <= i,
            scan_close(t@, 0, 0) == scan_close(t@, i as int, depth as int),
        decreases t@.len() - i,
    {
        let c = t[i];
        if c == '{' {
            depth = depth + 1;
        } else if c == '}' {
            depth = depth - 1;
            if depth == 0 {
                return Some(i);
            }
        }
        i = i + 1;
    }
    None
}

fn pattern(s: &str) -> (r: Vec<char>)
    ensures
        r@ == s@,
{
    chars_of(s)
}

/// The error quoting the trimmed answer `t` that holds no usable JSON.
fn not_found_error(t: &Vec<char>) -> (r: QueryError)
    ensures
        r@ == crate::error::QueryErrorView::Internal("Could not find JSON in response: "@ + t@),
{
    let mut m = String::new();
    push_str(&mut m, "Could not find JSON in response: ");
    let ts = string_from_range(t, 0, t.len());
    assert(t@.subrange(0, t@.len() as int) =~= t@);
    push_str(&mut m, ts.as_str());
    QueryError::Internal(m)
}

impl<P> LLMKeywordExtractor<P> {
    /// Locates the JSON object in a model answer: the balanced object when
    /// the trimmed answer starts with `{`; else the trimmed contents of a
    /// "```json" block; else the text from the first `{` to the last `}`;
    /// else (or when those markers are out of order) an error quoting the
    /// trimmed answer.
    pub fn extract_json(&self, response: &str) -> (r: Result<String, QueryError>)
        ensures
            match located_json(response@) {
                Ok(j) => r matches Ok(s) && s@ == j,
                Err(m) => r matches Err(e) && e@ == crate::error::QueryErrorView::Internal(m),
            },
    {
        let t = trimmed_chars(response);
        let _len: usize = t.len();
        if let Some(i) = balanced_object_end_exec(&t) {
            assert(t@.subrange(0, i + 1) =~= t@.take(i + 1));
            return Ok(string_from_range(&t, 0, i + 1));
        }
        let open = pattern("{");
        let close_brace = pattern("}");
        let first = find_from_exec(&t, &open, 0);
        let last = rfind_exec(&t, &close_brace);
        let fence_open = pattern("```json");
        if let Some(st) = find_from_exec(&t, &fence_open, 0) {
            proof {
                crate::text::lemma_find_from(t@, "```json"@, 0);
            }
            let mut rest: Vec<char> = Vec::new();
            let mut k: usize = st;
            while k < t.len()
                invariant
                    st <= k <= t@.len(),
                    rest@ == t@.subrange(st as int, k as int),
                decreases t@.len() - k,
            {
                rest.push(t[k]);
                assert(t@.subrange(st as int, k + 1) =~= t@.subrange(st as int, k as int).push(
                    t@[k as int],
                ));
                k = k + 1;
            }
            let close_nl = pattern("```\n");
            let close = pattern("```");
            let end = match find_from_exec(&rest, &close_nl, 0) {
                Some(e) => Some(e),
                None => rfind_exec(&rest, &close),
            };
            if let Some(e) = end {
                proof {
                    crate::text::lemma_find_from(rest@, "```\n"@, 0);
                    lemma_rfind(rest@, "```"@);
                }
                if e < 7 {
                    return Err(not_found_error(&t));
                }
                let (lo, hi) = trim_range(&t, st + 7, st + e);
                return Ok(string_from_range(&t, lo, hi));
            }
            assert(fence_end(t@, st as int) is None);
        }
        if let Some(s) = first {
            if let Some(e) = last {
                proof {
                    crate::text::lemma_find_from(t@, "{"@, 0);
                    lemma_rfind(t@, "}"@);
                    reveal_strlit("}");
                }
                if s <= e || s - e == 1 {
                    return Ok(string_from_range(&t, s, e + 1));
                }
            }
        }
        Err(not_found_error(&t))
    }
}

proof fn lemma_rfind_at_most(s: Seq<char>, pat: Seq<char>, i: int)
    ensures
        rfind_at_most(s, pat, i) matches Some(j) ==> 0 <= j <= i && crate::text::matches_at(
            s,
            pat,
            j,
        ),
        rfind_at_most(s, pat, i) matches Some(j) ==> forall|k: int|
            j < k <= i ==> !crate::text::matches_at(s, pat, k),
        rfind_at_most(s, pat, i) is None ==> forall|k: int|
            k <= i ==> !crate::text::matches_at(s, pat, k),
    decreases i + 1,
{
    if i >= 0 && !crate::text::matches_at(s, pat, i) {
        lemma_rfind_at_most(s, pat, i - 1);
    }
}

proof fn lemma_rfind(s: Seq<char>, pat: Seq<char>)
    ensures
        rfind(s, pat) matches Some(j) ==> 0 <= j && j + pat.len() <= s.len(),
        rfind(s, pat) matches Some(j) ==> crate::text::matches_at(s, pat, j) && forall|k: int|
            j < k ==> !crate::text::matches_at(s, pat, k),
        rfind(s, pat) is None ==> forall|k: int| !crate::text::matches_at(s, pat, k),
{
    lemma_rfind_at_most(s, pat, s.len() - pat.len());
}

/// A one-character pattern occurs at `k` exactly when that character is there.
proof fn lemma_single_char_match(t: Seq<char>, p: Seq<char>, k: int)
    requires
        p.len() == 1,
    ensures
        crate::text::matches_at(t, p, k) <==> (0 <= k < t.len() && t[k] == p[0]),
{
    if 0 <= k < t.len() {
        if t[k] == p[0] {
            assert(t.subrange(k, k + 1) =~= p);
        } else if t.subrange(k, k + 1) == p {
            assert(t.subrange(k, k + 1)[0] == t[k]);
        }
    }
}

/// When the trimmed answer neither starts with a balanced object nor holds a
/// "```json" fence, the JSON located is the text from its first `{` through
/// its last `}`: no `{` comes before the slice and no `}` after it. Such a
/// slice is found whenever some `{` comes before some `}`.
pub proof fn fallback_json_spans_first_to_last_brace(response: Seq<char>)
    requires
        balanced_object_end(trim(response)) is None,
        forall|i: int| !crate::text::matches_at(trim(response), "```json"@, i),
    ensures
        located_json(response) matches Ok(j) ==> exists|s: int, e: int|
            #![trigger trim(response)[s], trim(response)[e]]
            {
                &&& 0 <= s < trim(response).len()
                &&& 0 <= e < trim(response).len()
                &&& s <= e + 1
                &&& j == trim(response).subrange(s, e + 1)
                &&& trim(response)[s] == '{'
                &&& trim(response)[e] == '}'
                &&& forall|k: int| 0 <= k < s ==> trim(response)[k] != '{'
                &&& forall|k: int| e < k < trim(response).len() ==> trim(response)[k] != '}'
            },
        (exists|a: int, b: int|
            #![trigger trim(response)[a], trim(response)[b]]
            0 <= a < b < trim(response).len() && trim(response)[a] == '{' && trim(response)[b]
                == '}') ==> located_json(response) is Ok,
{
    let t = trim(response);
    reveal_strlit("{");
    reveal_strlit("}");
    crate::text::lemma_find_from(t, "```json"@, 0);
    crate::text::lemma_find_from(t, "{"@, 0);
    lemma_rfind(t, "}"@);
    assert(find_from(t, "```json"@, 0) is None);
    assert forall|k: int| #![trigger t[k]] 0 <= k < t.len() implies (crate::text::matches_at(
        t,
        "{"@,
        k,
    ) <==> t[k] == '{') && (crate::text::matches_at(t, "}"@, k) <==> t[k] == '}') by {
        lemma_single_char_match(t, "{"@, k);
        lemma_single_char_match(t, "}"@, k);
    }
    if exists|a: int, b: int|
        #![trigger t[a], t[b]]
        0 <= a < b < t.len() && t[a] == '{' && t[b] == '}' {
        let (a, b) = choose|a: int, b: int|
            #![trigger t[a], t[b]]
            0 <= a < b < t.len() && t[a] == '{' && t[b] == '}';
        assert(crate::text::matches_at(t, "{"@, a));
        assert(crate::text::matches_at(t, "}"@, b));
    }
    if let (Some(s), Some(e)) = (find_from(t, "{"@, 0), rfind(t, "}"@)) {
        assert(crate::text::matches_at(t, "{"@, s));
        assert(crate::text::matches_at(t, "}"@, e));
        assert(t[s] == '{');
        assert(t[e] == '}');
        assert forall|k: int| 0 <= k < s implies t[k] != '{' by {
            assert(!crate::text::matches_at(t, "{"@, k));
        }
        assert forall|k: int| e < k < t.len() implies t[k] != '}' by {
            assert(!crate::text::matches_at(t, "}"@, k));
        }
    }
}

} // verus!

verus! {

/// `s` with every `'` replaced by `"`.
pub open spec fn single_to_double_quotes(s: Seq<char>) -> Seq<char> {
    s.map_values(|c: char| if c == '\'' { '"' } else { c })
}

/// The result of `Regex::new(pattern)` followed by `replace_all(haystack,
/// replacement)`: `None` when the pattern does not compile, else the text
/// with every leftmost-first non-overlapping match replaced.
pub uninterp spec fn regex_replace_all_result(
    pattern: Seq<char>,
    haystack: Seq<char>,
    replacement: Seq<char>,
) -> Option<Seq<char>>;

/// `regex::Regex::new(pattern)` then `Regex::replace_all`: the result is
/// named by `regex_replace_all_result` over the three arguments; what the
/// regex engine computes is not spelled out.
#[verifier::external_body]
fn regex_replace_all(pattern: &str, haystack: &str, replacement: &str) -> (r: Option<String>)
    ensures
        match r {
            Some(s) => regex_replace_all_result(pattern@, haystack@, replacement@) == Some(s@),
            None => regex_replace_all_result(pattern@, haystack@, replacement@) is None,
        },
{
    match regex::Regex::new(pattern) {
        Ok(re) => Some(re.replace_all(haystack, replacement).into_owned()),
        Err(_) => None,
    }
}

/// One regex repair step: the replaced text, or the text unchanged when the
/// pattern does not compile.
pub open spec fn repaired(pattern: Seq<char>, s: Seq<char>, replacement: Seq<char>) -> Seq<char> {
    match regex_replace_all_result(pattern, s, replacement) {
        Some(t) => t,
        None => s,
    }
}

/// The repaired JSON text: single quotes become double quotes, then commas
/// before `}` and before `]` (with whitespace between) are removed.
pub open spec fn fixed_json(json: Seq<char>) -> Seq<char> {
    let a = single_to_double_quotes(json);
    let b = repaired(",\\s*\\}"@, a, "}"@);
    repaired(",\\s*\\]"@, b, "]"@)
}

/// Replaces single quotes with double quotes.
fn replace_single_quotes(json: &str) -> (r: String)
    ensures
        r@ == single_to_double_quotes(json@),
{
    let chars = chars_of(json);
    let mut out = String::new();
    let mut i: usize = 0;
    while i < chars.len()
        invariant
            chars@ == json@,
            i <= chars@.len(),
            out@ == single_to_double_quotes(chars@.take(i as int)),
        decreases chars@.len() - i,
    {
        let c = chars[i];
        if c == '\'' {
            push_char(&mut out, '"');
        } else {
            push_char(&mut out, c);
        }
        assert(single_to_double_quotes(chars@.take(i + 1)) =~= single_to_double_quotes(
            chars@.take(i as int),
        ).push(if c == '\'' { '"' } else { c }));
        i = i + 1;
    }
    assert(chars@.take(chars@.len() as int) =~= chars@);
    out
}

impl<P> LLMKeywordExtractor<P> {
    /// Repairs common JSON slips in a model answer: single quotes become
    /// double quotes and trailing commas before `}` or `]` are dropped. Never
    /// fails.
    pub fn try_fix_json(&self, json: &str) -> (r: Result<String, QueryError>)
        ensures
            r matches Ok(s) && s@ == fixed_json(json@),
    {
        let fixed = replace_single_quotes(json);
        let fixed = match regex_replace_all(",\\s*\\}", fixed.as_str(), "}") {
            Some(t) => t,
            None => fixed,
        };
        let fixed = match regex_replace_all(",\\s*\\]", fixed.as_str(), "]") {
            Some(t) => t,
            None => fixed,
        };
        Ok(fixed)
    }
}

/// The intent assumed when the answer names none.
pub fn default_intent() -> (r: String)
    ensures
        r@ == "exploratory"@,
{
    "exploratory".to_owned()
}

/// Whether a provider name is `mock`, ignoring ASCII case.
pub open spec fn is_mock_name(name: Seq<char>) -> bool {
    &&& name.len() == 4
    &&& (name[0] == 'm' || name[0] == 'M')
    &&& (name[1] == 'o' || name[1] == 'O')
    &&& (name[2] == 'c' || name[2] == 'C')
    &&& (name[3] == 'k' || name[3] == 'K')
}

/// Whether a provider is the mock provider, whose keywords come from the
/// rule-based extractor instead of an LLM call.
pub fn is_mock_provider(name: &str) -> (r: bool)
    ensures
        r == is_mock_name(name@),
{
    let c = chars_of(name);
    if c.len() != 4 {
        return false;
    }
    let ok0 = c[0] == 'm' || c[0] == 'M';
    let ok1 = c[1] == 'o' || c[1] == 'O';
    let ok2 = c[2] == 'c' || c[2] == 'C';
    let ok3 = c[3] == 'k' || c[3] == 'K';
    ok0 && ok1 && ok2 && ok3
}

/// The error when the answer's JSON does not parse even after repair.
pub open spec fn keyword_parse_failure_message(parse_error: Seq<char>, json: Seq<char>) -> Seq<
    char,
> {
    "Failed to parse keyword JSON after fix attempt: "@ + parse_error + ". Response: "@ + json
}

/// The error reported when the located JSON does not parse even after
/// repair; `parse_error` is the first parse error's text.
pub fn keyword_parse_failure(parse_error: &str, json: &str) -> (r: QueryError)
    ensures
        r@ == crate::error::QueryErrorView::Internal(
            keyword_parse_failure_message(parse_error@, json@),
        ),
{
    let mut m = String::new();
    push_str(&mut m, "Failed to parse keyword JSON after fix attempt: ");
    push_str(&mut m, parse_error);
    push_str(&mut m, ". Response: ");
    push_str(&mut m, json);
    QueryError::Internal(m)
}

/// What parsing a located keyword answer gives: the first parse when it
/// succeeded; else the parse of the repaired text (see `try_fix_json`)
/// when one was made and succeeded; else the error that quotes the first
/// parse error and the located JSON.
pub fn keyword_parse_outcome<R>(json: &str, first: Result<R, String>, repaired: Option<
    Result<R, String>,
>) -> (r: Result<R, QueryError>)
    ensures
        match first {
            Ok(p) => (r matches Ok(v) && v == p),
            Err(e) => match repaired {
                Some(Ok(p)) => (r matches Ok(v) && v == p),
                _ => (r matches Err(q) && q@ == crate::error::QueryErrorView::Internal(
                    keyword_parse_failure_message(e@, json@),
                )),
            },
        },
{
    match first {
        Ok(p) => Ok(p),
        Err(e) => match repaired {
            Some(Ok(p)) => Ok(p),
            _ => Err(keyword_parse_failure(e.as_str(), json)),
        },
    }
}

/// An LLM-backed keyword extractor over a provider handle `P`.
pub struct LLMKeywordExtractor<P> {
    llm_provider: P,
}

impl<P> LLMKeywordExtractor<P> {
    /// An extractor using `llm_provider`.
    pub fn new(llm_provider: P) -> (r: LLMKeywordExtractor<P>)
        ensures
            r.spec_provider() == llm_provider,
    {
        LLMKeywordExtractor { llm_provider }
    }

    /// The provider.
    pub closed spec fn spec_provider(&self) -> P {
        self.llm_provider
    }

    /// The provider.
    pub fn llm_provider(&self) -> (r: &P)
        ensures
            *r == self.spec_provider(),
    {
        &self.llm_provider
    }

    /// The keyword-extraction prompt: the instructions, the query in
    /// quotes, the output format and examples.
    pub fn build_prompt(&self, query: &str) -> (r: String)
        ensures
            r@ == keyword_prompt(query@),
    {
        let mut s = String::new();
        push_str(&mut s, KEYWORD_PROMPT_HEAD);
        push_str(&mut s, query);
        push_str(&mut s, KEYWORD_PROMPT_TAIL);
        s
    }
}

/// The time-to-live of cached keywords by default: 24 hours, in seconds.
pub const DEFAULT_KEYWORD_TTL_SECS: u64 = 86400;

/// `std::time::Duration` for a whole number of seconds.
pub uninterp spec fn seconds(secs: u64) -> std::time::Duration;

/// `Duration::from_secs`: the duration of `secs` whole seconds, named.
#[verifier::external_body]
fn duration_from_secs(secs: u64) -> (r: std::time::Duration)
    ensures
        r == seconds(secs),
{
    std::time::Duration::from_secs(secs)
}

/// A keyword extractor that caches the results of an inner extractor.
pub struct CachedKeywordExtractor<E, C> {
    inner: E,
    cache: C,
    ttl: std::time::Duration,
}

impl<E, C> CachedKeywordExtractor<E, C> {
    /// A cached extractor over `inner`, storing in `cache` for `ttl`.
    pub fn new(inner: E, cache: C, ttl: std::time::Duration) -> (r: CachedKeywordExtractor<E, C>)
        ensures
            r.spec_inner() == inner,
            r.spec_cache() == cache,
            r.spec_ttl() == ttl,
    {
        CachedKeywordExtractor { inner, cache, ttl }
    }

    /// A cached extractor with the default time-to-live of 24 hours.
    pub fn with_default_ttl(inner: E, cache: C) -> (r: CachedKeywordExtractor<E, C>)
        ensures
            r.spec_inner() == inner,
            r.spec_cache() == cache,
            r.spec_ttl() == seconds(DEFAULT_KEYWORD_TTL_SECS),
    {
        Self::new(inner, cache, duration_from_secs(24 * 60 * 60))
    }

    pub closed spec fn spec_inner(&self) -> E {
        self.inner
    }

    pub closed spec fn spec_cache(&self) -> C {
        self.cache
    }

    pub closed spec fn spec_ttl(&self) -> std::time::Duration {
        self.ttl
    }

    /// The inner extractor.
    pub fn inner(&self) -> (r: &E)
        ensures
            *r == self.spec_inner(),
    {
        &self.inner
    }

    /// The cache.
    pub fn cache(&self) -> (r: &C)
        ensures
            *r == self.spec_cache(),
    {
        &self.cache
    }

    /// The time-to-live of cached entries.
    pub fn ttl(&self) -> (r: std::time::Duration)
        ensures
            r == self.spec_ttl(),
    {
        self.ttl
    }
}

} // verus!
