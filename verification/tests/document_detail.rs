use edgequake::document::{
    detail_access, document_access_allowed, document_exists, DetailRefusal, file_name_or_title, lineage_is_shown,
    not_found_message, pdf_extraction_method, select_document_content, status_or_completed,
    LineagePresence,
};

fn s(x: &str) -> Option<String> {
    Some(x.to_string())
}

#[test]
fn existence_and_not_found() {
    assert!(document_exists(true, 0));
    assert!(document_exists(false, 2));
    assert!(!document_exists(false, 0));
    assert_eq!(not_found_message("doc-1"), "Document doc-1 not found");
}

#[test]
fn access_refused_only_on_named_mismatch() {
    assert!(document_access_allowed(&None, &s("t1"), &None, &s("w1")));
    assert!(document_access_allowed(&s("t1"), &s("t1"), &s("w1"), &None));
    assert!(!document_access_allowed(&s("t1"), &s("t2"), &None, &None));
    assert!(!document_access_allowed(&s("t1"), &s("t1"), &s("w1"), &s("w2")));
}

#[test]
fn content_selection() {
    assert_eq!(select_document_content(s("c"), s("t"), false, None), s("c"));
    assert_eq!(select_document_content(None, s("t"), false, None), s("t"));
    assert_eq!(select_document_content(s(""), s("t"), true, s("# md")), s("# md"));
    assert_eq!(select_document_content(None, None, true, s("  \n")), None);
    assert_eq!(select_document_content(None, None, false, s("# md")), None);
}

#[test]
fn shown_fields() {
    assert_eq!(pdf_extraction_method(s("text"), "completed", true), s("text"));
    assert_eq!(pdf_extraction_method(None, "completed", true), s("vision"));
    assert_eq!(pdf_extraction_method(None, "processing", true), None);
    assert_eq!(file_name_or_title(None, &s("Title")), s("Title"));
    assert_eq!(file_name_or_title(s("a.pdf"), &s("Title")), s("a.pdf"));
    assert_eq!(status_or_completed(None), "completed");
    assert_eq!(status_or_completed(s("failed")), "failed");
}

#[test]
fn lineage_shown_when_any_tracked_field_present() {
    assert!(!lineage_is_shown(&LineagePresence::default()));
    let p = LineagePresence { cost_usd: true, ..LineagePresence::default() };
    assert!(lineage_is_shown(&p));
    let only_dims = LineagePresence { embedding_dimensions: true, ..LineagePresence::default() };
    assert!(lineage_is_shown(&only_dims));
    let only_vision = LineagePresence { pdf_vision_model: true, ..LineagePresence::default() };
    assert!(lineage_is_shown(&only_vision));
}

#[test]
fn detail_access_decisions() {
    assert_eq!(
        detail_access("doc-1", false, None, 0, &None, &None),
        Err(DetailRefusal::NotFound("Document doc-1 not found".to_string()))
    );
    assert_eq!(detail_access("doc-1", false, None, 3, &s("t1"), &None), Ok(()));
    let scope = Some((s("t1"), s("w1")));
    assert_eq!(detail_access("doc-1", true, scope.clone(), 0, &s("t1"), &s("w1")), Ok(()));
    assert_eq!(
        detail_access("doc-1", true, scope.clone(), 0, &s("t2"), &None),
        Err(DetailRefusal::Forbidden)
    );
    assert_eq!(
        detail_access("doc-1", true, scope, 2, &None, &s("w9")),
        Err(DetailRefusal::Forbidden)
    );
}
