//! Splitting a document into modal regions `〈MODAL …〉…〈/MODAL〉` and the
//! plain-text gaps between them (the pure core of the adaptive chunking
//! strategy).
use vstd::prelude::*;
use crate::text::{
    chars_of, find_from, find_from_exec, is_blank, is_blank_range, lemma_find_from, string_from_range,
};

verus! {

/// Opening angle bracket of a modal marker (U+3008).
pub const MODAL_ANGLE_OPEN: char = '\u{3008}';

/// Closing angle bracket of a modal marker (U+3009).
pub const MODAL_ANGLE_CLOSE: char = '\u{3009}';

/// An ordered slice of the document: either a modal region or a plain-text gap.
#[derive(Debug, Clone, PartialEq, Eq)]
pub enum Segment {
    /// A `〈MODAL …〉…〈/MODAL〉` region, including its markers.
    Modal(String),
    /// Plain text between modal regions.
    Text(String),
}

/// The mathematical value of a [`Segment`].
pub enum SegmentView {
    Modal(Seq<char>),
    Text(Seq<char>),
}

impl View for Segment {
    type V = SegmentView;

    open spec fn view(&self) -> SegmentView {
        match self {
            Segment::Modal(s) => SegmentView::Modal(s@),
            Segment::Text(s) => SegmentView::Text(s@),
        }
    }
}

/// The views of a sequence of segments.
pub open spec fn segment_views(v: Seq<Segment>) -> Seq<SegmentView> {
    v.map_values(|x: Segment| x@)
}

/// `〈MODAL`: the start of an opening marker.
pub open spec fn open_prefix() -> Seq<char> {
    seq!['\u{3008}', 'M', 'O', 'D', 'A', 'L']
}

/// `〈/MODAL〉`: the complete closing marker.
pub open spec fn close_marker() -> Seq<char> {
    seq!['\u{3008}', '/', 'M', 'O', 'D', 'A', 'L', '\u{3009}']
}

/// `〉`: the end of an opening marker.
pub open spec fn angle_close() -> Seq<char> {
    seq!['\u{3009}']
}

/// A text gap contributes one `Text` segment unless it is blank.
pub open spec fn text_piece(t: Seq<char>) -> Seq<SegmentView> {
    if is_blank(t) {
        seq![]
    } else {
        seq![SegmentView::Text(t)]
    }
}

/// The segments of `s[cursor..]`: the first complete modal region at or after
/// `cursor` (an opening `〈MODAL`, the next `〉`, then the next `〈/MODAL〉`) is
/// emitted whole, preceded by the non-blank text before it; when no complete
/// region remains, the rest is one text piece.
pub open spec fn segments_from(s: Seq<char>, cursor: int) -> Seq<SegmentView>
    decreases s.len() - cursor,
{
    if cursor < 0 || cursor >= s.len() {
        seq![]
    } else {
        let tail = text_piece(s.subrange(cursor, s.len() as int));
        match find_from(s, open_prefix(), cursor) {
            None => tail,
            Some(o) => match find_from(s, angle_close(), o + 6) {
                None => tail,
                Some(a) => match find_from(s, close_marker(), a + 1) {
                    None => tail,
                    Some(c) => {
                        proof {
                            lemma_find_from(s, open_prefix(), cursor);
                            lemma_find_from(s, angle_close(), o + 6);
                            lemma_find_from(s, close_marker(), a + 1);
                        }
                        let gap = if o > cursor {
                            text_piece(s.subrange(cursor, o))
                        } else {
                            seq![]
                        };
                        gap + seq![SegmentView::Modal(s.subrange(o, c + 8))] + segments_from(
                            s,
                            c + 8,
                        )
                    },
                },
            },
        }
    }
}

/// The text a segment holds, markers included.
pub open spec fn segment_text(v: SegmentView) -> Seq<char> {
    match v {
        SegmentView::Modal(t) => t,
        SegmentView::Text(t) => t,
    }
}

/// The segments' texts written one after another.
pub open spec fn joined_segments(v: Seq<SegmentView>) -> Seq<char>
    decreases v.len(),
{
    if v.len() == 0 {
        seq![]
    } else {
        joined_segments(v.drop_last()) + segment_text(v.last())
    }
}

/// The characters of `s` that are not whitespace, in order.
pub open spec fn visible(s: Seq<char>) -> Seq<char> {
    s.filter(|c: char| !crate::text::is_ws(c))
}

/// A segment as the splitter emits it: a modal region from its opening
/// `〈MODAL` to its closing `〈/MODAL〉`, or text that is not blank.
pub open spec fn well_formed_segment(v: SegmentView) -> bool {
    match v {
        SegmentView::Modal(t) => t.len() >= 14 && t.take(6) == open_prefix() && t.skip(
            t.len() - 8,
        ) == close_marker(),
        SegmentView::Text(t) => !is_blank(t),
    }
}

proof fn lemma_joined_add(a: Seq<SegmentView>, b: Seq<SegmentView>)
    ensures
        joined_segments(a + b) == joined_segments(a) + joined_segments(b),
    decreases b.len(),
{
    if b.len() == 0 {
        assert(a + b =~= a);
        assert(joined_segments(a) + joined_segments(b) =~= joined_segments(a));
    } else {
        lemma_joined_add(a, b.drop_last());
        assert((a + b).drop_last() =~= a + b.drop_last());
        assert((a + b).last() == b.last());
    }
}

proof fn lemma_joined_single(x: SegmentView)
    ensures
        joined_segments(seq![x]) == segment_text(x),
{
    let v = seq![x];
    assert(v.drop_last() =~= Seq::<SegmentView>::empty());
    assert(joined_segments(Seq::<SegmentView>::empty()) == Seq::<char>::empty());
    assert(joined_segments(v) =~= segment_text(x));
}

proof fn lemma_visible_add(a: Seq<char>, b: Seq<char>)
    ensures
        visible(a + b) == visible(a) + visible(b),
{
    Seq::filter_distributes_over_add(a, b, |c: char| !crate::text::is_ws(c));
}

proof fn lemma_visible_blank(t: Seq<char>)
    requires
        is_blank(t),
    ensures
        visible(t) == Seq::<char>::empty(),
    decreases t.len(),
{
    reveal(Seq::filter);
    if t.len() > 0 {
        assert(is_blank(t.drop_last()));
        lemma_visible_blank(t.drop_last());
        assert(crate::text::is_ws(t[t.len() - 1]));
    }
}

proof fn lemma_text_piece(t: Seq<char>)
    ensures
        visible(joined_segments(text_piece(t))) == visible(t),
        forall|i: int|
            0 <= i < text_piece(t).len() ==> well_formed_segment(#[trigger] text_piece(t)[i]),
{
    if is_blank(t) {
        lemma_visible_blank(t);
        reveal(Seq::filter);
    } else {
        lemma_joined_single(SegmentView::Text(t));
    }
}

proof fn lemma_segments_from(s: Seq<char>, cursor: int)
    requires
        0 <= cursor <= s.len(),
    ensures
        visible(joined_segments(segments_from(s, cursor))) == visible(
            s.subrange(cursor, s.len() as int),
        ),
        forall|i: int|
            0 <= i < segments_from(s, cursor).len() ==> well_formed_segment(
                #[trigger] segments_from(s, cursor)[i],
            ),
    decreases s.len() - cursor,
{
    reveal(Seq::filter);
    if cursor >= s.len() {
        assert(s.subrange(cursor, s.len() as int) =~= Seq::<char>::empty());
    } else {
        let rest = s.subrange(cursor, s.len() as int);
        lemma_text_piece(rest);
        lemma_find_from(s, open_prefix(), cursor);
        match find_from(s, open_prefix(), cursor) {
            None => {},
            Some(o) => {
                lemma_find_from(s, angle_close(), o + 6);
                match find_from(s, angle_close(), o + 6) {
                    None => {},
                    Some(a) => {
                        lemma_find_from(s, close_marker(), a + 1);
                        match find_from(s, close_marker(), a + 1) {
                            None => {},
                            Some(c) => {
                                let gap = if o > cursor {
                                    text_piece(s.subrange(cursor, o))
                                } else {
                                    seq![]
                                };
                                let m = s.subrange(o, c + 8);
                                let region = seq![SegmentView::Modal(m)];
                                let tail = segments_from(s, c + 8);
                                lemma_segments_from(s, c + 8);
                                assert(segments_from(s, cursor) == gap + region + tail);
                                lemma_joined_add(gap, region);
                                lemma_joined_add(gap + region, tail);
                                lemma_joined_single(SegmentView::Modal(m));
                                let g = s.subrange(cursor, o);
                                let t = s.subrange(c + 8, s.len() as int);
                                assert(rest =~= g + m + t);
                                lemma_visible_add(g + m, t);
                                lemma_visible_add(g, m);
                                if o > cursor {
                                    lemma_text_piece(g);
                                } else {
                                    assert(g =~= Seq::<char>::empty());
                                    assert(joined_segments(gap) =~= Seq::<char>::empty());
                                    assert(visible(g) =~= Seq::<char>::empty());
                                }
                                assert(m.take(6) =~= s.subrange(o, o + 6));
                                assert(m.skip(m.len() - 8) =~= s.subrange(c, c + 8));
                                assert(well_formed_segment(SegmentView::Modal(m)));
                                let all = gap + region + tail;
                                assert forall|i: int| 0 <= i < all.len() implies well_formed_segment(
                                    #[trigger] all[i],
                                ) by {
                                    if i < gap.len() {
                                        assert(all[i] == gap[i]);
                                        if o > cursor {
                                            lemma_text_piece(g);
                                        }
                                    } else if i == gap.len() {
                                        assert(all[i] == region[0]);
                                    } else {
                                        assert(all[i] == tail[i - gap.len() - 1]);
                                    }
                                }
                            },
                        }
                    },
                }
            },
        }
    }
}

/// Splitting never swallows or invents document content: the segments,
/// written one after another, hold every non-whitespace character of the
/// document in order (only blank gaps are dropped).
pub proof fn split_keeps_visible_text(s: Seq<char>)
    ensures
        visible(joined_segments(segments_from(s, 0))) == visible(s),
{
    lemma_segments_from(s, 0);
    assert(s.subrange(0, s.len() as int) =~= s);
}

/// Every segment the splitter emits is well formed: a modal region runs
/// from its opening `〈MODAL` to its closing `〈/MODAL〉`, markers included,
/// and a text segment is never blank.
pub proof fn split_segments_well_formed(s: Seq<char>)
    ensures
        forall|i: int|
            0 <= i < segments_from(s, 0).len() ==> well_formed_segment(
                #[trigger] segments_from(s, 0)[i],
            ),
{
    if s.len() > 0 {
        lemma_segments_from(s, 0);
    }
}

fn open_prefix_chars() -> (r: Vec<char>)
    ensures
        r@ == open_prefix(),
{
    let r = vec!['\u{3008}', 'M', 'O', 'D', 'A', 'L'];
    assert(r@ =~= open_prefix());
    r
}

fn close_marker_chars() -> (r: Vec<char>)
    ensures
        r@ == close_marker(),
{
    let r = vec!['\u{3008}', '/', 'M', 'O', 'D', 'A', 'L', '\u{3009}'];
    assert(r@ =~= close_marker());
    r
}

fn angle_close_chars() -> (r: Vec<char>)
    ensures
        r@ == angle_close(),
{
    let r = vec!['\u{3009}'];
    assert(r@ =~= angle_close());
    r
}

/// Pushes `v[from..to]` as a text segment unless it is blank.
fn push_text(segments: &mut Vec<Segment>, v: &Vec<char>, from: usize, to: usize)
    requires
        from <= to <= v@.len(),
    ensures
        segment_views(final(segments)@) == segment_views(old(segments)@) + text_piece(
            v@.subrange(from as int, to as int),
        ),
{
    if !is_blank_range(v, from, to) {
        let t = string_from_range(v, from, to);
        segments.push(Segment::Text(t));
        assert(segment_views(final(segments)@) =~= segment_views(old(segments)@) + text_piece(
            v@.subrange(from as int, to as int),
        ));
    } else {
        assert(segment_views(final(segments)@) =~= segment_views(old(segments)@) + text_piece(
            v@.subrange(from as int, to as int),
        ));
    }
}

/// Split `content` into ordered (modal | text) segments.
///
/// An open marker is `〈MODAL` up to the next `〉`; the region ends at the
/// first following `〈/MODAL〉` and is emitted whole, markers included. Text
/// between regions is emitted unless blank. An open marker without its `〉`
/// or without a closing `〈/MODAL〉` leaves the rest of the document as text.
pub fn split_segments(content: &str) -> (r: Vec<Segment>)
    ensures
        segment_views(r@) == segments_from(content@, 0),
{
    let v = chars_of(content);
    let open = open_prefix_chars();
    let close = close_marker_chars();
    let angle = angle_close_chars();
    let n: usize = v.len();
    let mut segments: Vec<Segment> = Vec::new();
    let mut cursor: usize = 0;
    assert(segment_views(segments@) =~= seq![]);
    loop
        invariant
            n == v@.len(),
            v@ == content@,
            open@ == open_prefix(),
            close@ == close_marker(),
            angle@ == angle_close(),
            cursor <= n,
            segments_from(v@, 0) == segment_views(segments@) + segments_from(v@, cursor as int),
        ensures
            cursor <= n,
            segments_from(v@, 0) == segment_views(segments@) + segments_from(v@, cursor as int),
            segments_from(v@, cursor as int) == (if cursor < n {
                text_piece(v@.subrange(cursor as int, n as int))
            } else {
                seq![]
            }),
        decreases n - cursor,
    {
        if cursor >= n {
            break ;
        }
        proof {
            lemma_find_from(v@, open_prefix(), cursor as int);
        }
        let open_abs = match find_from_exec(&v, &open, cursor) {
            Some(i) => i,
            None => break ,
        };
        proof {
            lemma_find_from(v@, angle_close(), open_abs + 6);
        }
        let after_prefix: usize = open_abs + 6;
        let angle_at = match find_from_exec(&v, &angle, after_prefix) {
            Some(i) => i,
            None => break ,
        };
        let open_marker_end: usize = angle_at + 1;
        proof {
            lemma_find_from(v@, close_marker(), open_marker_end as int);
        }
        let close_at = match find_from_exec(&v, &close, open_marker_end) {
            Some(i) => i,
            None => break ,
        };
        let region_end: usize = close_at + 8;
        let ghost before = segment_views(segments@);
        if open_abs > cursor {
            push_text(&mut segments, &v, cursor, open_abs);
        } else {
            assert(segment_views(segments@) =~= before + seq![]);
        }
        let region = string_from_range(&v, open_abs, region_end);
        let ghost mid = segment_views(segments@);
        segments.push(Segment::Modal(region));
        assert(segment_views(segments@) =~= mid + seq![
            SegmentView::Modal(v@.subrange(open_abs as int, region_end as int)),
        ]);
        let ghost old_cursor = cursor;
        cursor = region_end;
        assert(segments_from(v@, old_cursor as int) =~= (if open_abs > old_cursor {
            text_piece(v@.subrange(old_cursor as int, open_abs as int))
        } else {
            seq![]
        }) + seq![SegmentView::Modal(v@.subrange(open_abs as int, region_end as int))]
            + segments_from(v@, cursor as int));
    }
    if cursor < n {
        let ghost before = segment_views(segments@);
        push_text(&mut segments, &v, cursor, n);
    } else {
        assert(segment_views(segments@) =~= segment_views(segments@) + seq![]);
    }
    segments
}

} // verus!
