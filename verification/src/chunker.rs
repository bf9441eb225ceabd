//! Chunking configuration, chunk results, the chunker and its strategies
//! (token-based, character-based, passthrough on U+001E, and the adaptive
//! strategy that keeps modal regions atomic).
use vstd::prelude::*;
use vstd::utf8::encode_utf8;
use crate::modal::{Segment, SegmentView, segment_views};
use crate::text::{
    chars_of, decimal, is_blank, is_blank_range, push_decimal, push_str, str_is_blank,
    string_from_range,
};

verus! {

/// Default chunk size in tokens.
pub const DEFAULT_CHUNK_SIZE: usize = 800;

/// Default overlap between consecutive chunks, in tokens.
pub const DEFAULT_CHUNK_OVERLAP: usize = 100;

/// The ASCII RECORD SEPARATOR (U+001E) that joins pre-chunked payloads.
pub const RECORD_SEPARATOR: char = '\u{1e}';

/// Chunking parameters.
#[derive(Debug, Clone)]
pub struct ChunkerConfig {
    /// Target chunk size in tokens.
    pub chunk_size: usize,
    /// Overlap between consecutive chunks in tokens.
    pub chunk_overlap: usize,
    /// Character (or string) to split on, when splitting by character.
    pub split_by_character: Option<String>,
    /// Split only on `split_by_character`, never by size.
    pub split_by_character_only: bool,
}

impl ChunkerConfig {
    /// The default configuration: 800-token chunks with a 100-token overlap,
    /// no character splitting.
    pub open spec fn is_default(&self) -> bool {
        &&& self.chunk_size == DEFAULT_CHUNK_SIZE
        &&& self.chunk_overlap == DEFAULT_CHUNK_OVERLAP
        &&& self.split_by_character is None
        &&& !self.split_by_character_only
    }

    /// Clones the configuration field by field.
    pub fn copy(&self) -> (r: ChunkerConfig)
        ensures
            r == *self,
    {
        ChunkerConfig {
            chunk_size: self.chunk_size,
            chunk_overlap: self.chunk_overlap,
            split_by_character: match &self.split_by_character {
                Some(c) => Some(c.clone()),
                None => None,
            },
            split_by_character_only: self.split_by_character_only,
        }
    }
}

impl Default for ChunkerConfig {
    fn default() -> (r: ChunkerConfig)
        ensures
            r.is_default(),
    {
        ChunkerConfig {
            chunk_size: DEFAULT_CHUNK_SIZE,
            chunk_overlap: DEFAULT_CHUNK_OVERLAP,
            split_by_character: None,
            split_by_character_only: false,
        }
    }
}

/// One chunk produced by a strategy, before placement in the document.
#[derive(Debug, Clone)]
pub struct ChunkResult {
    /// The chunk text.
    pub content: String,
    /// Its token count.
    pub tokens: usize,
    /// Its position among the document's chunks.
    pub chunk_order_index: usize,
}

/// The token estimate of a text: one token per four bytes of UTF-8.
pub open spec fn token_estimate(t: Seq<char>) -> nat {
    encode_utf8(t).len() / 4
}

/// Estimates the token count of a text (one token per four bytes).
pub fn estimate_tokens(text: &str) -> (r: usize)
    ensures
        r == token_estimate(text@),
{
    let b = text.as_bytes();
    b.len() / 4
}

/// `r` holds exactly the chunks `p` (text and tokens), numbered `0, 1, 2, ...`.
pub open spec fn results_are(r: Seq<ChunkResult>, p: Seq<(Seq<char>, nat)>) -> bool {
    &&& r.len() == p.len()
    &&& forall|i: int|
        0 <= i < r.len() ==> {
            &&& (#[trigger] r[i]).content@ == p[i].0
            &&& r[i].tokens == p[i].1
            &&& r[i].chunk_order_index == i
        }
}

/// A chunking strategy, known by its name.
pub trait ChunkingStrategy {
    /// The strategy's name.
    spec fn spec_name(&self) -> Seq<char>;

    /// The strategy's name.
    fn name(&self) -> (r: &str)
        ensures
            r@ == self.spec_name(),
    ;
}

/// Fixed-size token chunking with overlap (the default strategy).
#[derive(Debug, Clone)]
pub struct TokenBasedChunking;

impl ChunkingStrategy for TokenBasedChunking {
    open spec fn spec_name(&self) -> Seq<char> {
        "token_based"@
    }

    fn name(&self) -> (r: &str) {
        "token_based"
    }
}

/// Chunking on a separator string.
#[derive(Debug, Clone)]
pub struct CharacterBasedChunking {
    /// The separator chunks are split on.
    pub separator: String,
}

impl CharacterBasedChunking {
    /// Splits on newlines.
    pub fn by_newline() -> (r: CharacterBasedChunking)
        ensures
            r.separator@ == seq!['\n'],
    {
        let mut s = String::new();
        push_str(&mut s, "\n");
        proof {
            reveal_strlit("\n");
        }
        CharacterBasedChunking { separator: s }
    }
}

impl ChunkingStrategy for CharacterBasedChunking {
    open spec fn spec_name(&self) -> Seq<char> {
        "character_based"@
    }

    fn name(&self) -> (r: &str) {
        "character_based"
    }
}

/// Splits pre-chunked payloads on U+001E; no re-chunking.
#[derive(Debug, Clone)]
pub struct PassthroughStrategy;

impl ChunkingStrategy for PassthroughStrategy {
    open spec fn spec_name(&self) -> Seq<char> {
        "passthrough"@
    }

    fn name(&self) -> (r: &str) {
        "passthrough"
    }
}

/// The pieces `str::split(RECORD_SEPARATOR)` yields (always at least one).
pub open spec fn split_pieces(s: Seq<char>) -> Seq<Seq<char>>
    decreases s.len(),
{
    if s.len() == 0 {
        seq![seq![]]
    } else {
        let prev = split_pieces(s.drop_last());
        if s.last() == RECORD_SEPARATOR {
            prev.push(seq![])
        } else {
            prev.update(prev.len() - 1, prev.last().push(s.last()))
        }
    }
}

proof fn lemma_split_pieces_nonempty(s: Seq<char>)
    ensures
        split_pieces(s).len() >= 1,
    decreases s.len(),
{
    if s.len() > 0 {
        lemma_split_pieces_nonempty(s.drop_last());
    }
}

/// The non-empty ones among `pieces`, in order.
pub open spec fn nonempty_pieces(pieces: Seq<Seq<char>>) -> Seq<Seq<char>>
    decreases pieces.len(),
{
    if pieces.len() == 0 {
        seq![]
    } else if pieces.last().len() == 0 {
        nonempty_pieces(pieces.drop_last())
    } else {
        nonempty_pieces(pieces.drop_last()).push(pieces.last())
    }
}

/// The chunks of a passthrough payload: its non-empty U+001E-separated
/// fragments with their token estimates.
pub open spec fn passthrough_chunks(s: Seq<char>) -> Seq<(Seq<char>, nat)> {
    nonempty_pieces(split_pieces(s)).map_values(|f: Seq<char>| (f, token_estimate(f)))
}

proof fn lemma_nonempty_push(pieces: Seq<Seq<char>>, p: Seq<char>)
    ensures
        nonempty_pieces(pieces.push(p)) == if p.len() == 0 {
            nonempty_pieces(pieces)
        } else {
            nonempty_pieces(pieces).push(p)
        },
{
    assert(pieces.push(p).drop_last() =~= pieces);
}

/// The pieces written one after another.
pub open spec fn concat(pieces: Seq<Seq<char>>) -> Seq<char>
    decreases pieces.len(),
{
    if pieces.len() == 0 {
        seq![]
    } else {
        concat(pieces.drop_last()) + pieces.last()
    }
}

/// `s` without its record separators.
pub open spec fn without_separators(s: Seq<char>) -> Seq<char> {
    s.filter(|c: char| c != RECORD_SEPARATOR)
}

/// The texts of a list of chunks.
pub open spec fn chunk_texts(chunks: Seq<(Seq<char>, nat)>) -> Seq<Seq<char>> {
    chunks.map_values(|c: (Seq<char>, nat)| c.0)
}

proof fn lemma_concat_split_pieces(s: Seq<char>)
    ensures
        concat(split_pieces(s)) == without_separators(s),
        forall|i: int|
            0 <= i < split_pieces(s).len() ==> !(#[trigger] split_pieces(s)[i]).contains(
                RECORD_SEPARATOR,
            ),
    decreases s.len(),
{
    reveal(Seq::filter);
    let pred = |c: char| c != RECORD_SEPARATOR;
    if s.len() == 0 {
        let q: Seq<Seq<char>> = seq![seq![]];
        assert(q.drop_last() =~= Seq::<Seq<char>>::empty());
        assert(concat(Seq::<Seq<char>>::empty()) == Seq::<char>::empty());
        assert(concat(q) =~= Seq::<char>::empty() + q.last());
    } else {
        let prev = split_pieces(s.drop_last());
        lemma_concat_split_pieces(s.drop_last());
        lemma_split_pieces_nonempty(s.drop_last());
        assert(s.filter(pred) == if pred(s.last()) {
            s.drop_last().filter(pred).push(s.last())
        } else {
            s.drop_last().filter(pred)
        });
        if s.last() == RECORD_SEPARATOR {
            let q = prev.push(seq![]);
            assert(q.drop_last() =~= prev);
            assert(concat(q) =~= concat(prev));
            assert forall|i: int| 0 <= i < q.len() implies !(#[trigger] q[i]).contains(
                RECORD_SEPARATOR,
            ) by {
                if i < prev.len() {
                    assert(q[i] == prev[i]);
                }
            }
        } else {
            let q = prev.update(prev.len() - 1, prev.last().push(s.last()));
            assert(q.drop_last() =~= prev.drop_last());
            assert(concat(prev) == concat(prev.drop_last()) + prev.last());
            assert(concat(q) =~= concat(prev).push(s.last()));
            assert forall|i: int| 0 <= i < q.len() implies !(#[trigger] q[i]).contains(
                RECORD_SEPARATOR,
            ) by {
                if i < prev.len() - 1 {
                    assert(q[i] == prev[i]);
                } else {
                    let l = prev.last().push(s.last());
                    assert(q[i] == l);
                    assert(!prev[prev.len() - 1].contains(RECORD_SEPARATOR));
                    if l.contains(RECORD_SEPARATOR) {
                        let j = choose|j: int| 0 <= j < l.len() && l[j] == RECORD_SEPARATOR;
                        if j < l.len() - 1 {
                            assert(prev.last()[j] == RECORD_SEPARATOR);
                        }
                    }
                }
            }
        }
    }
}

proof fn lemma_concat_nonempty(p: Seq<Seq<char>>)
    ensures
        concat(nonempty_pieces(p)) == concat(p),
        forall|i: int|
            0 <= i < nonempty_pieces(p).len() ==> (#[trigger] nonempty_pieces(p)[i]).len() > 0
                && exists|j: int| 0 <= j < p.len() && p[j] == nonempty_pieces(p)[i],
    decreases p.len(),
{
    if p.len() > 0 {
        lemma_concat_nonempty(p.drop_last());
        let n = nonempty_pieces(p.drop_last());
        if p.last().len() == 0 {
            assert(concat(p) =~= concat(p.drop_last()));
            assert forall|i: int| 0 <= i < nonempty_pieces(p).len() implies (
            #[trigger] nonempty_pieces(p)[i]).len() > 0 && exists|j: int|
                0 <= j < p.len() && p[j] == nonempty_pieces(p)[i] by {
                let j = choose|j: int|
                    0 <= j < p.drop_last().len() && p.drop_last()[j] == n[i];
                assert(p[j] == n[i]);
            }
        } else {
            let m = n.push(p.last());
            assert(m.drop_last() =~= n);
            assert forall|i: int| 0 <= i < m.len() implies (#[trigger] m[i]).len() > 0
                && exists|j: int| 0 <= j < p.len() && p[j] == m[i] by {
                if i < n.len() {
                    assert(m[i] == n[i]);
                    let j = choose|j: int|
                        0 <= j < p.drop_last().len() && p.drop_last()[j] == n[i];
                    assert(p[j] == m[i]);
                } else {
                    assert(p[p.len() - 1] == m[i]);
                }
            }
        }
    }
}

/// Passthrough chunking loses nothing and adds nothing: the chunks, written
/// one after another, are the payload without its separators; no chunk is
/// empty and none holds a separator.
pub proof fn passthrough_keeps_content(s: Seq<char>)
    ensures
        concat(chunk_texts(passthrough_chunks(s))) == without_separators(s),
        forall|i: int|
            0 <= i < passthrough_chunks(s).len() ==> (#[trigger] passthrough_chunks(s)[i]).0.len()
                > 0 && !passthrough_chunks(s)[i].0.contains(RECORD_SEPARATOR),
{
    let p = split_pieces(s);
    lemma_concat_split_pieces(s);
    lemma_concat_nonempty(p);
    assert(chunk_texts(passthrough_chunks(s)) =~= nonempty_pieces(p));
    assert forall|i: int| 0 <= i < passthrough_chunks(s).len() implies (
    #[trigger] passthrough_chunks(s)[i]).0.len() > 0 && !passthrough_chunks(s)[i].0.contains(
        RECORD_SEPARATOR,
    ) by {
        assert(passthrough_chunks(s)[i].0 == nonempty_pieces(p)[i]);
        let j = choose|j: int| 0 <= j < p.len() && p[j] == nonempty_pieces(p)[i];
        assert(!p[j].contains(RECORD_SEPARATOR));
    }
}

impl PassthroughStrategy {
    /// Splits `content` on U+001E; each non-empty fragment becomes one chunk,
    /// numbered in document order. Never fails.
    pub fn chunk(&self, content: &str, _config: &ChunkerConfig) -> (r: Result<
        Vec<ChunkResult>,
        crate::error::PipelineError,
    >)
        ensures
            r matches Ok(v) && results_are(v@, passthrough_chunks(content@)),
    {
        let chars = chars_of(content);
        let n: usize = chars.len();
        let mut results: Vec<ChunkResult> = Vec::new();
        let mut start: usize = 0;
        let mut i: usize = 0;
        proof {
            assert(chars@.take(0) =~= seq![]);
            assert(split_pieces(seq![]) =~= seq![seq![]]);
        }
        while i < n
            invariant
                n == chars@.len(),
                chars@ == content@,
                start <= i <= n,
                ({
                    let sp = split_pieces(chars@.take(i as int));
                    &&& sp.len() >= 1
                    &&& sp.last() == chars@.subrange(start as int, i as int)
                    &&& results_are(
                        results@,
                        nonempty_pieces(sp.drop_last()).map_values(
                            |f: Seq<char>| (f, token_estimate(f)),
                        ),
                    )
                }),
            decreases n - i,
        {
            let ghost sp = split_pieces(chars@.take(i as int));
            assert(chars@.take(i + 1).drop_last() =~= chars@.take(i as int));
            if chars[i] == RECORD_SEPARATOR {
                if start < i {
                    let frag = string_from_range(&chars, start, i);
                    let tokens = estimate_tokens(frag.as_str());
                    let order: usize = results.len();
                    results.push(ChunkResult { content: frag, tokens, chunk_order_index: order });
                }
                proof {
                    let sp2 = split_pieces(chars@.take(i + 1));
                    assert(sp2 == sp.push(seq![]));
                    assert(sp2.drop_last() =~= sp);
                    assert(sp =~= sp.drop_last().push(sp.last()));
                    lemma_nonempty_push(sp.drop_last(), sp.last());
                    assert(chars@.subrange((i + 1) as int, (i + 1) as int) =~= seq![]);
                }
                start = i + 1;
            } else {
                proof {
                    let sp2 = split_pieces(chars@.take(i + 1));
                    assert(chars@.take(i + 1).last() == chars@[i as int]);
                    assert(sp2 == sp.update(sp.len() - 1, sp.last().push(chars@[i as int])));
                    assert(sp2.drop_last() =~= sp.drop_last());
                    assert(chars@.subrange(start as int, i + 1) =~= chars@.subrange(
                        start as int,
                        i as int,
                    ).push(chars@[i as int]));
                }
            }
            i = i + 1;
        }
        let ghost sp = split_pieces(chars@.take(n as int));
        assert(chars@.take(n as int) =~= chars@);
        if start < n {
            let frag = string_from_range(&chars, start, n);
            let tokens = estimate_tokens(frag.as_str());
            let order: usize = results.len();
            results.push(ChunkResult { content: frag, tokens, chunk_order_index: order });
        }
        proof {
            assert(sp =~= sp.drop_last().push(sp.last()));
            lemma_nonempty_push(sp.drop_last(), sp.last());
        }
        Ok(results)
    }
}

/// Default base URL of the adaptive chunking service.
pub const DEFAULT_ADAPTIVE_CHUNK_URL: &'static str = "http://localhost:18060";

/// `s` without its trailing `/` characters (`trim_end_matches('/')`).
pub open spec fn trim_trailing_slashes(s: Seq<char>) -> Seq<char>
    decreases s.len(),
{
    if s.len() > 0 && s.last() == '/' {
        trim_trailing_slashes(s.drop_last())
    } else {
        s
    }
}

/// Chunking that keeps modal regions atomic and sends text gaps to the
/// adaptive chunking service at `base_url`.
#[derive(Debug, Clone)]
pub struct AdaptiveChunkStrategy {
    base_url: String,
}

impl ChunkingStrategy for AdaptiveChunkStrategy {
    open spec fn spec_name(&self) -> Seq<char> {
        "adaptive_chunk"@
    }

    fn name(&self) -> (r: &str) {
        "adaptive_chunk"
    }
}

/// The number of text segments among `segs`.
pub open spec fn text_count(segs: Seq<SegmentView>) -> nat
    decreases segs.len(),
{
    if segs.len() == 0 {
        0
    } else {
        text_count(segs.drop_last()) + if segs.last() is Text {
            1nat
        } else {
            0nat
        }
    }
}

/// The service chunks of one text gap that survive: the non-blank ones.
pub open spec fn kept_gap_chunks(g: Seq<(Seq<char>, usize)>) -> Seq<(Seq<char>, nat)>
    decreases g.len(),
{
    if g.len() == 0 {
        seq![]
    } else if is_blank(g.last().0) {
        kept_gap_chunks(g.drop_last())
    } else {
        kept_gap_chunks(g.drop_last()).push((g.last().0, g.last().1 as nat))
    }
}

/// The adaptive strategy's chunks: each modal region whole (with its token
/// estimate), each text gap replaced by the non-blank chunks the service
/// returned for it (`gaps[k]` for the `k`-th text segment), in order.
pub open spec fn adaptive_pieces(
    segs: Seq<SegmentView>,
    gaps: Seq<Seq<(Seq<char>, usize)>>,
) -> Seq<(Seq<char>, nat)>
    decreases segs.len(),
{
    if segs.len() == 0 {
        seq![]
    } else {
        match segs.last() {
            SegmentView::Modal(r) => adaptive_pieces(segs.drop_last(), gaps).push(
                (r, token_estimate(r)),
            ),
            SegmentView::Text(_) => adaptive_pieces(segs.drop_last(), gaps.drop_last())
                + kept_gap_chunks(gaps.last()),
        }
    }
}

/// The view of a service response: each chunk's text and token count.
pub open spec fn gap_views(g: Seq<(String, usize)>) -> Seq<(Seq<char>, usize)> {
    g.map_values(|c: (String, usize)| (c.0@, c.1))
}

impl AdaptiveChunkStrategy {
    /// A strategy targeting `base_url`, trailing slashes trimmed.
    pub fn new(base_url: String) -> (r: AdaptiveChunkStrategy)
        ensures
            r.spec_base_url() == trim_trailing_slashes(base_url@),
    {
        let chars = chars_of(base_url.as_str());
        let mut end: usize = chars.len();
        assert(chars@.take(chars@.len() as int) =~= chars@);
        while end > 0 && chars[end - 1] == '/'
            invariant
                end <= chars@.len(),
                trim_trailing_slashes(base_url@) == trim_trailing_slashes(
                    chars@.take(end as int),
                ),
                chars@ == base_url@,
            decreases end,
        {
            assert(chars@.take(end as int).drop_last() =~= chars@.take(end - 1));
            end = end - 1;
        }
        assert(chars@.take(0) =~= seq![]);
        assert(chars@.subrange(0, end as int) =~= chars@.take(end as int));
        AdaptiveChunkStrategy { base_url: string_from_range(&chars, 0, end) }
    }

    /// The service base URL.
    pub closed spec fn spec_base_url(&self) -> Seq<char> {
        self.base_url@
    }

    /// The service base URL.
    pub fn base_url(&self) -> (r: &str)
        ensures
            r@ == self.spec_base_url(),
    {
        self.base_url.as_str()
    }

    /// The strategy for the configured service URL (the value of
    /// `ADAPTIVE_CHUNK_URL`, absent when unset): the value when it is not
    /// blank, else the default `http://localhost:18060`.
    pub fn from_env(value: Option<String>) -> (r: AdaptiveChunkStrategy)
        ensures
            r.spec_base_url() == trim_trailing_slashes(
                match value {
                    Some(v) => if is_blank(v@) {
                        DEFAULT_ADAPTIVE_CHUNK_URL@
                    } else {
                        v@
                    },
                    None => DEFAULT_ADAPTIVE_CHUNK_URL@,
                },
            ),
    {
        let url = match value {
            Some(v) => if str_is_blank(v.as_str()) {
                DEFAULT_ADAPTIVE_CHUNK_URL.to_owned()
            } else {
                v
            },
            None => DEFAULT_ADAPTIVE_CHUNK_URL.to_owned(),
        };
        AdaptiveChunkStrategy::new(url)
    }

    /// The service endpoint: `{base_url}/chunk`.
    pub fn chunk_endpoint(&self) -> (r: String)
        ensures
            r@ == self.spec_base_url() + "/chunk"@,
    {
        let mut s = self.base_url.clone();
        push_str(&mut s, "/chunk");
        s
    }

    /// The token count of one service chunk: the service's own count when
    /// positive, else the estimate.
    pub fn service_chunk_tokens(chunk_text: &str, chunk_len: usize) -> (r: usize)
        ensures
            r == if chunk_len > 0 {
                chunk_len as nat
            } else {
                token_estimate(chunk_text@)
            },
    {
        if chunk_len > 0 {
            chunk_len
        } else {
            estimate_tokens(chunk_text)
        }
    }

    /// Interleaves the chunks in document order: each modal segment becomes
    /// one chunk, each text segment is replaced by the non-blank chunks the
    /// service returned for it (`gap_chunks[k]` for the `k`-th text segment);
    /// chunks are numbered `0, 1, 2, ...`.
    pub fn assemble(segments: &Vec<Segment>, gap_chunks: &Vec<Vec<(String, usize)>>) -> (r: Vec<
        ChunkResult,
    >)
        requires
            gap_chunks@.len() == text_count(segment_views(segments@)),
        ensures
            results_are(
                r@,
                adaptive_pieces(
                    segment_views(segments@),
                    gap_chunks@.map_values(|g: Vec<(String, usize)>| gap_views(g@)),
                ),
            ),
    {
        let ghost segs = segment_views(segments@);
        let ghost gaps = gap_chunks@.map_values(|g: Vec<(String, usize)>| gap_views(g@));
        let mut results: Vec<ChunkResult> = Vec::new();
        let gn: usize = gap_chunks.len();
        let mut g: usize = 0;
        let mut k: usize = 0;
        assert(segs.take(0) =~= seq![]);
        assert(gaps.take(0) =~= seq![]);
        while k < segments.len()
            invariant
                segs == segment_views(segments@),
                gaps == gap_chunks@.map_values(|g: Vec<(String, usize)>| gap_views(g@)),
                gn == gap_chunks@.len(),
                gap_chunks@.len() == text_count(segs),
                k <= segments@.len(),
                g == text_count(segs.take(k as int)),
                g <= gap_chunks@.len(),
                results_are(results@, adaptive_pieces(segs.take(k as int), gaps.take(g as int))),
            decreases segments@.len() - k,
        {
            assert(segs.take(k + 1).drop_last() =~= segs.take(k as int));
            assert(segs.take(k + 1).last() == segs[k as int]);
            proof {
                lemma_text_count_prefix(segs, k as int);
            }
            match &segments[k] {
                Segment::Modal(region) => {
                    let tokens = estimate_tokens(region.as_str());
                    let order: usize = results.len();
                    results.push(
                        ChunkResult { content: region.clone(), tokens, chunk_order_index: order },
                    );
                },
                Segment::Text(_) => {
                    let gap = &gap_chunks[g];
                    let ghost before = results@;
                    let ghost gv = gaps[g as int];
                    let mut j: usize = 0;
                    assert(gv.take(0) =~= seq![]);
                    while j < gap.len()
                        invariant
                            segs == segment_views(segments@),
                            gaps == gap_chunks@.map_values(|g: Vec<(String, usize)>| gap_views(g@)),
                            k < segments@.len(),
                            gn == gap_chunks@.len(),
                            g < gap_chunks@.len(),
                            gap == gap_chunks@[g as int],
                            gv == gaps[g as int],
                            gv == gap_views(gap@),
                            j <= gap@.len(),
                            results_are(
                                results@,
                                adaptive_pieces(segs.take(k as int), gaps.take(g as int))
                                    + kept_gap_chunks(gv.take(j as int)),
                            ),
                        decreases gap@.len() - j,
                    {
                        assert(gv.take(j + 1).drop_last() =~= gv.take(j as int));
                        assert(gv.take(j + 1).last() == gv[j as int]);
                        let text = gap[j].0.as_str();
                        let chars = chars_of(text);
                        if !is_blank_range(&chars, 0, chars.len()) {
                            assert(chars@.subrange(0, chars@.len() as int) =~= chars@);
                            let order: usize = results.len();
                            results.push(
                                ChunkResult {
                                    content: gap[j].0.clone(),
                                    tokens: gap[j].1,
                                    chunk_order_index: order,
                                },
                            );
                            assert(adaptive_pieces(segs.take(k as int), gaps.take(g as int))
                                + kept_gap_chunks(gv.take(j + 1)) =~= (adaptive_pieces(
                                segs.take(k as int),
                                gaps.take(g as int),
                            ) + kept_gap_chunks(gv.take(j as int))).push(
                                (gv[j as int].0, gv[j as int].1 as nat),
                            ));
                        } else {
                            assert(chars@.subrange(0, chars@.len() as int) =~= chars@);
                        }
                        j = j + 1;
                    }
                    assert(gv.take(gap@.len() as int) =~= gv);
                    assert(gaps.take(g + 1).drop_last() =~= gaps.take(g as int));
                    assert(gaps.take(g + 1).last() == gv);
                    g = g + 1;
                },
            }
            k = k + 1;
        }
        assert(segs.take(segments@.len() as int) =~= segs);
        assert(gaps.take(g as int) =~= gaps);
        results
    }
}

proof fn lemma_text_count_prefix(segs: Seq<SegmentView>, k: int)
    requires
        0 <= k < segs.len(),
    ensures
        text_count(segs.take(k + 1)) == text_count(segs.take(k)) + if segs[k] is Text {
            1nat
        } else {
            0nat
        },
        text_count(segs.take(k)) <= text_count(segs.take(k + 1)),
        text_count(segs.take(k + 1)) <= text_count(segs),
{
    assert(segs.take(k + 1).drop_last() =~= segs.take(k));
    lemma_text_count_mono(segs, k + 1);
}

proof fn lemma_text_count_mono(segs: Seq<SegmentView>, k: int)
    requires
        0 <= k <= segs.len(),
    ensures
        text_count(segs.take(k)) <= text_count(segs),
    decreases segs.len() - k,
{
    if k < segs.len() {
        lemma_text_count_mono(segs, k + 1);
        assert(segs.take(k + 1).drop_last() =~= segs.take(k));
    } else {
        assert(segs.take(k) =~= segs);
    }
}

/// The service chunks kept for one text gap are exactly its non-blank chunks,
/// in the order the service returned them, each with the token count the
/// service gave it: no chunk with text is lost, none is added or reordered.
pub proof fn gap_keeps_every_nonblank_chunk(g: Seq<(Seq<char>, usize)>)
    ensures
        kept_gap_chunks(g) == g.filter(|c: (Seq<char>, usize)| !is_blank(c.0)).map_values(
            |c: (Seq<char>, usize)| (c.0, c.1 as nat),
        ),
    decreases g.len(),
{
    reveal(Seq::filter);
    let pred = |c: (Seq<char>, usize)| !is_blank(c.0);
    let f = |c: (Seq<char>, usize)| (c.0, c.1 as nat);
    if g.len() > 0 {
        gap_keeps_every_nonblank_chunk(g.drop_last());
        let sub = g.drop_last().filter(pred);
        if pred(g.last()) {
            assert(g.filter(pred) == sub.push(g.last()));
            assert(sub.push(g.last()).map_values(f) =~= sub.map_values(f).push(f(g.last())));
        } else {
            assert(g.filter(pred) == sub);
        }
    } else {
        assert(g.filter(pred) =~= g);
        assert(g.map_values(f) =~= seq![]);
    }
}

/// A lone modal region becomes one chunk, the region itself with its token
/// estimate; a lone text gap becomes exactly the non-blank chunks the service
/// returned for it, in order.
pub proof fn single_segment_pieces(s: SegmentView, g: Seq<(Seq<char>, usize)>)
    ensures
        s matches SegmentView::Modal(r) ==> adaptive_pieces(seq![s], seq![]) == seq![
            (r, token_estimate(r)),
        ],
        s is Text ==> adaptive_pieces(seq![s], seq![g]) == g.filter(
            |c: (Seq<char>, usize)| !is_blank(c.0),
        ).map_values(|c: (Seq<char>, usize)| (c.0, c.1 as nat)),
{
    gap_keeps_every_nonblank_chunk(g);
    assert(seq![s].drop_last() =~= Seq::<SegmentView>::empty());
    assert(seq![g].drop_last() =~= Seq::<Seq<(Seq<char>, usize)>>::empty());
    assert(seq![s].last() == s);
    assert(seq![g].last() == g);
    assert(adaptive_pieces(Seq::<SegmentView>::empty(), seq![]) == Seq::<
        (Seq<char>, nat),
    >::empty());
    assert(adaptive_pieces(Seq::<SegmentView>::empty(), Seq::empty()) == Seq::<
        (Seq<char>, nat),
    >::empty());
    match s {
        SegmentView::Modal(r) => {
            assert(seq![(r, token_estimate(r))] =~= Seq::<(Seq<char>, nat)>::empty().push(
                (r, token_estimate(r)),
            ));
        },
        SegmentView::Text(_) => {
            assert(adaptive_pieces(seq![s], seq![g]) == adaptive_pieces(
                Seq::<SegmentView>::empty(),
                Seq::empty(),
            ) + kept_gap_chunks(g));
            assert(Seq::<(Seq<char>, nat)>::empty() + kept_gap_chunks(g) =~= kept_gap_chunks(g));
        },
    }
}

/// Assembly works piece by piece: the chunks of two consecutive runs of
/// segments, each with its own service responses, are the chunks of the
/// first run followed by those of the second.
pub proof fn pieces_of_concatenation(
    s1: Seq<SegmentView>,
    s2: Seq<SegmentView>,
    g1: Seq<Seq<(Seq<char>, usize)>>,
    g2: Seq<Seq<(Seq<char>, usize)>>,
)
    requires
        g1.len() == text_count(s1),
        g2.len() == text_count(s2),
    ensures
        adaptive_pieces(s1 + s2, g1 + g2) == adaptive_pieces(s1, g1) + adaptive_pieces(s2, g2),
    decreases s2.len(),
{
    if s2.len() == 0 {
        assert(g2 =~= seq![]);
        assert(s1 + s2 =~= s1);
        assert(g1 + g2 =~= g1);
        assert(adaptive_pieces(s1, g1) + seq![] =~= adaptive_pieces(s1, g1));
    } else {
        let s2p = s2.drop_last();
        assert((s1 + s2).drop_last() =~= s1 + s2p);
        assert((s1 + s2).last() == s2.last());
        match s2.last() {
            SegmentView::Modal(r) => {
                assert(text_count(s2p) == text_count(s2));
                pieces_of_concatenation(s1, s2p, g1, g2);
                assert((adaptive_pieces(s1, g1) + adaptive_pieces(s2p, g2)).push(
                    (r, token_estimate(r)),
                ) =~= adaptive_pieces(s1, g1) + adaptive_pieces(s2p, g2).push(
                    (r, token_estimate(r)),
                ));
            },
            SegmentView::Text(_) => {
                let g2p = g2.drop_last();
                assert((g1 + g2).drop_last() =~= g1 + g2p);
                assert((g1 + g2).last() == g2.last());
                pieces_of_concatenation(s1, s2p, g1, g2p);
                assert(adaptive_pieces(s1, g1) + adaptive_pieces(s2p, g2p) + kept_gap_chunks(
                    g2.last(),
                ) =~= adaptive_pieces(s1, g1) + (adaptive_pieces(s2p, g2p) + kept_gap_chunks(
                    g2.last(),
                )));
            },
        }
    }
}

/// Splits documents into chunks with a strategy.
pub struct Chunker<S: ChunkingStrategy> {
    config: ChunkerConfig,
    strategy: S,
}

impl Chunker<TokenBasedChunking> {
    /// A chunker with the given configuration and the token-based strategy.
    pub fn new(config: ChunkerConfig) -> (r: Chunker<TokenBasedChunking>)
        ensures
            r.spec_config() == config,
            r.spec_strategy() == TokenBasedChunking,
    {
        Chunker { config, strategy: TokenBasedChunking }
    }

    /// A chunker with the default configuration and the token-based strategy.
    pub fn default_chunker() -> (r: Chunker<TokenBasedChunking>)
        ensures
            r.spec_config().is_default(),
            r.spec_strategy() == TokenBasedChunking,
    {
        Chunker::new(ChunkerConfig::default())
    }
}

impl Chunker<CharacterBasedChunking> {
    /// A chunker that splits by character only: the default configuration
    /// with `split_by_character` set and `split_by_character_only` on, and
    /// the newline-based character strategy.
    pub fn character_chunker(split_character: String) -> (r: Chunker<CharacterBasedChunking>)
        ensures
            r.spec_config().chunk_size == DEFAULT_CHUNK_SIZE,
            r.spec_config().chunk_overlap == DEFAULT_CHUNK_OVERLAP,
            r.spec_config().split_by_character == Some(split_character),
            r.spec_config().split_by_character_only,
            r.spec_strategy().separator@ == seq!['\n'],
    {
        let base = ChunkerConfig::default();
        let config = ChunkerConfig {
            split_by_character: Some(split_character),
            split_by_character_only: true,
            ..base
        };
        Chunker { config, strategy: CharacterBasedChunking::by_newline() }
    }
}

impl<S: ChunkingStrategy> Chunker<S> {
    /// A chunker with a custom strategy.
    pub fn with_strategy(config: ChunkerConfig, strategy: S) -> (r: Chunker<S>)
        ensures
            r.spec_config() == config,
            r.spec_strategy() == strategy,
    {
        Chunker { config, strategy }
    }

    /// The configuration.
    pub closed spec fn spec_config(&self) -> ChunkerConfig {
        self.config
    }

    /// The strategy.
    pub closed spec fn spec_strategy(&self) -> S {
        self.strategy
    }

    /// The chunker configuration.
    pub fn config(&self) -> (r: &ChunkerConfig)
        ensures
            *r == self.spec_config(),
    {
        &self.config
    }

    /// The strategy.
    pub fn strategy(&self) -> (r: &S)
        ensures
            *r == self.spec_strategy(),
    {
        &self.strategy
    }

    /// The strategy's name.
    pub fn strategy_name(&self) -> (r: &str)
        ensures
            r@ == self.spec_strategy().spec_name(),
    {
        self.strategy.name()
    }
}

/// A chunk placed in its document: its id, text, position and byte range.
#[derive(Debug, Clone)]
pub struct PlacedChunk {
    /// `<document id>-chunk-<position>`.
    pub id: String,
    /// The chunk text.
    pub content: String,
    /// Its position among the document's chunks.
    pub index: usize,
    /// Where it starts: the byte length of the chunks before it.
    pub start_offset: usize,
    /// Where it ends: its start plus its own byte length.
    pub end_offset: usize,
}

/// The byte length of the first `n` chunks' texts together.
pub open spec fn bytes_before(r: Seq<ChunkResult>, n: int) -> nat
    decreases n,
{
    if n <= 0 || n > r.len() {
        0
    } else {
        bytes_before(r, n - 1) + encode_utf8(r[n - 1].content@).len()
    }
}

/// The id of a document's chunk at a position.
pub open spec fn chunk_id(document_id: Seq<char>, index: nat) -> Seq<char> {
    document_id + "-chunk-"@ + decimal(index)
}

proof fn lemma_bytes_before_mono(r: Seq<ChunkResult>, i: int, n: int)
    requires
        0 <= i <= n <= r.len(),
    ensures
        bytes_before(r, i) <= bytes_before(r, n),
    decreases n - i,
{
    if i < n {
        lemma_bytes_before_mono(r, i, n - 1);
    }
}

impl<S: ChunkingStrategy> Chunker<S> {
    /// Places a strategy's chunks in the document `document_id`: each gets
    /// the id `<document id>-chunk-<position>` and the byte range that
    /// follows the chunks before it.
    pub fn place_chunks(results: &Vec<ChunkResult>, document_id: &str) -> (r: Vec<PlacedChunk>)
        requires
            bytes_before(results@, results@.len() as int) <= usize::MAX,
        ensures
            r@.len() == results@.len(),
            forall|i: int|
                0 <= i < r@.len() ==> {
                    &&& (#[trigger] r@[i]).id@ == chunk_id(
                        document_id@,
                        results@[i].chunk_order_index as nat,
                    )
                    &&& r@[i].content@ == results@[i].content@
                    &&& r@[i].index == results@[i].chunk_order_index
                    &&& r@[i].start_offset == bytes_before(results@, i)
                    &&& r@[i].end_offset == bytes_before(results@, i + 1)
                },
    {
        let mut out: Vec<PlacedChunk> = Vec::new();
        let mut offset: usize = 0;
        let mut i: usize = 0;
        while i < results.len()
            invariant
                i <= results@.len(),
                out@.len() == i,
                offset == bytes_before(results@, i as int),
                bytes_before(results@, results@.len() as int) <= usize::MAX,
                forall|j: int|
                    0 <= j < i ==> {
                        &&& (#[trigger] out@[j]).id@ == chunk_id(
                            document_id@,
                            results@[j].chunk_order_index as nat,
                        )
                        &&& out@[j].content@ == results@[j].content@
                        &&& out@[j].index == results@[j].chunk_order_index
                        &&& out@[j].start_offset == bytes_before(results@, j)
                        &&& out@[j].end_offset == bytes_before(results@, j + 1)
                    },
            decreases results@.len() - i,
        {
            let c = &results[i];
            proof {
                lemma_bytes_before_mono(results@, i + 1, results@.len() as int);
            }
            let len = c.content.as_str().len();
            let end = offset + len;
            let mut id = String::new();
            push_str(&mut id, document_id);
            push_str(&mut id, "-chunk-");
            push_decimal(&mut id, c.chunk_order_index as u64);
            out.push(
                PlacedChunk {
                    id,
                    content: c.content.clone(),
                    index: c.chunk_order_index,
                    start_offset: offset,
                    end_offset: end,
                },
            );
            offset = end;
            i = i + 1;
        }
        out
    }
}

impl Default for Chunker<TokenBasedChunking> {
    fn default() -> (r: Chunker<TokenBasedChunking>)
        ensures
            r.spec_config().is_default(),
            r.spec_strategy() == TokenBasedChunking,
    {
        Chunker::default_chunker()
    }
}

} // verus!
