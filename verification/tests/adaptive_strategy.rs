use edgequake::chunker::{AdaptiveChunkStrategy, ChunkingStrategy};
use edgequake::modal::{split_segments, Segment, MODAL_ANGLE_CLOSE};

const MODAL_OPEN_PREFIX: &str = "\u{3008}MODAL";
const MODAL_CLOSE: &str = "\u{3008}/MODAL\u{3009}";

fn modal(id: &str, ty: &str, desc: &str, payload: &str) -> String {
    format!(
        "{MODAL_OPEN_PREFIX} id=\"{id}\" type=\"{ty}\"{close}{desc}\n{payload}{close_marker}",
        close = MODAL_ANGLE_CLOSE,
        close_marker = MODAL_CLOSE,
    )
}

#[test]
fn plain_text_only_is_single_text_segment() {
    let segs = split_segments("just some plain prose with no modals");
    assert_eq!(
        segs,
        vec![Segment::Text(
            "just some plain prose with no modals".to_string()
        )]
    );
}

#[test]
fn empty_or_whitespace_yields_no_segments() {
    assert!(split_segments("").is_empty());
    assert!(split_segments("   \n\t  ").is_empty());
}

#[test]
fn single_modal_region_is_atomic_and_includes_markers() {
    let region = modal("T1", "table", "A sales table", "<table>...</table>");
    let segs = split_segments(&region);
    assert_eq!(segs, vec![Segment::Modal(region)]);
}

#[test]
fn interleaves_text_and_modal_in_document_order() {
    let m1 = modal("T1", "table", "desc1", "payload1");
    let m2 = modal("E1", "equation", "desc2", "E=mc^2");
    let content = format!("intro text {m1} middle text {m2} tail text");

    let segs = split_segments(&content);
    assert_eq!(
        segs,
        vec![
            Segment::Text("intro text ".to_string()),
            Segment::Modal(m1.clone()),
            Segment::Text(" middle text ".to_string()),
            Segment::Modal(m2.clone()),
            Segment::Text(" tail text".to_string()),
        ]
    );
}

#[test]
fn modal_with_no_surrounding_text() {
    let m1 = modal("I1", "image", "a chart", "img:/path.png");
    let m2 = modal("T2", "table", "rows", "<table/>");
    let content = format!("{m1}{m2}");
    let segs = split_segments(&content);
    assert_eq!(segs, vec![Segment::Modal(m1), Segment::Modal(m2)]);
}

#[test]
fn payload_containing_angle_brackets_does_not_break_region() {
    let region = modal("T1", "table", "desc", "<tr><td>1 &lt; 2</td></tr>");
    let content = format!("before {region} after");
    let segs = split_segments(&content);
    assert_eq!(
        segs,
        vec![
            Segment::Text("before ".to_string()),
            Segment::Modal(region),
            Segment::Text(" after".to_string()),
        ]
    );
}

#[test]
fn unterminated_open_marker_is_treated_as_text() {
    let content = format!(
        "text {MODAL_OPEN_PREFIX} id=\"X\" type=\"table\"{} body with no close",
        MODAL_ANGLE_CLOSE
    );
    let segs = split_segments(&content);
    assert_eq!(segs, vec![Segment::Text(content)]);
}

#[test]
fn open_prefix_without_closing_angle_is_text() {
    let content = format!("text {MODAL_OPEN_PREFIX} id=\"X\" no closing angle bracket here");
    let segs = split_segments(&content);
    assert_eq!(segs, vec![Segment::Text(content)]);
}

#[test]
fn from_env_defaults_when_unset() {
    let s = AdaptiveChunkStrategy::from_env(None);
    assert_eq!(s.base_url(), "http://localhost:18060");
    let blank = AdaptiveChunkStrategy::from_env(Some("  ".to_string()));
    assert_eq!(blank.base_url(), "http://localhost:18060");
}

#[test]
fn new_trims_trailing_slash() {
    let s = AdaptiveChunkStrategy::new("http://example.com:18060/".to_string());
    assert_eq!(s.base_url(), "http://example.com:18060");
}

#[test]
fn new_trims_every_trailing_slash() {
    let s = AdaptiveChunkStrategy::new("http://h:1///".to_string());
    assert_eq!(s.base_url(), "http://h:1");
    assert_eq!(s.chunk_endpoint(), "http://h:1/chunk");
    assert_eq!(s.name(), "adaptive_chunk");
}

#[test]
fn adjacent_regions_split_at_first_close_marker() {
    // A region ends at the first close marker; a stray close marker after it is text.
    let m = modal("A", "table", "d", "p");
    let content = format!("{m}{MODAL_CLOSE} x");
    let segs = split_segments(&content);
    assert_eq!(
        segs,
        vec![Segment::Modal(m), Segment::Text(format!("{MODAL_CLOSE} x"))]
    );
}

#[test]
fn assemble_interleaves_modal_and_service_chunks() {
    let m = modal("T1", "table", "d", "p");
    let content = format!("intro {m} tail");
    let segs = split_segments(&content);
    let gaps = vec![
        vec![("intro".to_string(), 2usize), ("   ".to_string(), 1usize)],
        vec![("tail".to_string(), 1usize)],
    ];
    let chunks = AdaptiveChunkStrategy::assemble(&segs, &gaps);
    let got: Vec<(String, usize, usize)> = chunks
        .into_iter()
        .map(|c| (c.content, c.tokens, c.chunk_order_index))
        .collect();
    assert_eq!(
        got,
        vec![
            ("intro".to_string(), 2, 0),
            (m.clone(), m.len() / 4, 1),
            ("tail".to_string(), 1, 2),
        ]
    );
}

#[test]
fn service_chunk_tokens_falls_back_to_estimate() {
    assert_eq!(AdaptiveChunkStrategy::service_chunk_tokens("abcdefgh", 0), 2);
    assert_eq!(AdaptiveChunkStrategy::service_chunk_tokens("abcdefgh", 7), 7);
}

fn visible(s: &str) -> String {
    s.chars().filter(|c| !c.is_whitespace()).collect()
}

#[test]
fn splitting_keeps_every_visible_character() {
    let m1 = modal("T1", "table", "desc1", "payload 1");
    let content = format!("  intro\n{m1}\n\t {MODAL_OPEN_PREFIX} dangling tail  ");
    let segs = split_segments(&content);
    let joined: String = segs
        .iter()
        .map(|s| match s {
            Segment::Modal(t) | Segment::Text(t) => t.as_str(),
        })
        .collect();
    assert_eq!(visible(&joined), visible(&content));
}

#[test]
fn emitted_segments_are_well_formed() {
    let m1 = modal("T1", "table", "d", "p");
    let m2 = modal("E1", "equation", "d", "q");
    let content = format!("a {m1}   {m2} b");
    for seg in split_segments(&content) {
        match seg {
            Segment::Modal(t) => {
                assert!(t.starts_with(MODAL_OPEN_PREFIX));
                assert!(t.ends_with(MODAL_CLOSE));
            }
            Segment::Text(t) => assert!(!t.trim().is_empty()),
        }
    }
}
