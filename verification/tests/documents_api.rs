use edgequake::documents::{
    default_page, default_page_size, GetDocumentRequest, ListDocumentsRequest,
    UploadDocumentRequest,
};

#[test]
fn test_upload_request_validation() {
    let request = UploadDocumentRequest {
        content: "Test content".to_string(),
        title: Some("Test".to_string()),
        metadata: None,
        async_processing: false,
        track_id: None,
        enable_gleaning: true,
        max_gleaning: 1,
        use_llm_summarization: true,
    };

    assert!(!request.content.is_empty());
}

#[test]
fn test_default_page() {
    assert_eq!(default_page(), 1);
}

#[test]
fn test_default_page_size() {
    assert_eq!(default_page_size(), 20);
}

#[test]
fn upload_request_keeps_metadata_value() {
    let request = UploadDocumentRequest {
        content: "Hello world".to_string(),
        title: Some("Test Doc".to_string()),
        metadata: Some(serde_json::Value::String("value".to_string())),
        async_processing: true,
        track_id: Some("upload_1".to_string()),
        enable_gleaning: false,
        max_gleaning: 0,
        use_llm_summarization: false,
    };
    assert_eq!(
        request.metadata,
        Some(serde_json::Value::String("value".to_string()))
    );
    assert_eq!(request.title.as_deref(), Some("Test Doc"));
}

#[test]
fn list_request_defaults_are_first_page_of_twenty() {
    let request = ListDocumentsRequest {
        page: default_page(),
        page_size: default_page_size(),
    };
    assert_eq!(request.page, 1);
    assert_eq!(request.page_size, 20);
    let get = GetDocumentRequest {
        document_id: "doc-789".to_string(),
    };
    assert_eq!(get.document_id, "doc-789");
}
