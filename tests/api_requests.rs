use pp_client::{
    base_url, check_not_empty, check_status, document_create_request, document_ids, documents_url,
    download_plan, extension_by_mime_type, files_url, list_documents_url, recognitions_url,
    request_body, u64_to_decimal, upload_summary, ApiError, DocumentAttributes, Download,
    FileAttributes, Resource, ResourceArrayResponse, ResourceResponse, STATUS_CREATED, STATUS_OK,
};

fn file(url: &str, mime_type: &str, file_type: &str) -> Resource<FileAttributes> {
    Resource {
        type_: "files".to_string(),
        id: Some(url.to_string()),
        attributes: FileAttributes {
            url: url.to_string(),
            mime_type: mime_type.to_string(),
            file_type: file_type.to_string(),
        },
    }
}

fn document(id: Option<&str>, tenant: &str) -> Resource<DocumentAttributes> {
    Resource {
        type_: "documents".to_string(),
        id: id.map(|s| s.to_string()),
        attributes: DocumentAttributes {
            tenant_id: tenant.to_string(),
            status: "pending".to_string(),
            workflow_step: "classification".to_string(),
            workflow_status: "in_progress".to_string(),
            validation_required: false,
            not_for_training: true,
            created_at: "2024-01-01T00:00:00Z".to_string(),
            updated_at: "2024-01-01T00:00:00Z".to_string(),
            document_type_identifier: "invoice".to_string(),
        },
    }
}

#[test]
fn known_mime_types_get_their_extension() {
    assert_eq!(extension_by_mime_type("image/jpeg"), ".jpeg");
    assert_eq!(extension_by_mime_type("application/pdf"), ".pdf");
}

#[test]
fn other_mime_types_get_no_extension() {
    for m in ["image/png", "", "IMAGE/JPEG", "image/jpeg ", "application/pdfx", "text/plain"] {
        assert_eq!(extension_by_mime_type(m), "");
    }
}

#[test]
fn decimal_rendering() {
    assert_eq!(u64_to_decimal(0), "0");
    assert_eq!(u64_to_decimal(7), "7");
    assert_eq!(u64_to_decimal(10), "10");
    assert_eq!(u64_to_decimal(u64::MAX), "18446744073709551615");
}

#[test]
fn urls_of_each_endpoint() {
    let base = base_url("api.parashift.io");
    assert_eq!(base, "https://api.parashift.io");
    assert_eq!(
        files_url(&base, 42),
        "https://api.parashift.io/v2/files/?filter[record_id]=42&extra_fields[files]=url"
    );
    assert_eq!(recognitions_url(&base, 42), "https://api.parashift.io/v2/documents/42/recognitions");
    assert_eq!(documents_url(&base), "https://api.parashift.io/v2/documents/");
}

#[test]
fn list_url_joins_ids_with_commas() {
    let ids = vec!["1".to_string(), "22".to_string(), "333".to_string()];
    assert_eq!(list_documents_url("https://h", &ids), "https://h/v2/documents/?filter[id][eq]=1,22,333");
    assert_eq!(list_documents_url("https://h", &vec!["5".to_string()]), "https://h/v2/documents/?filter[id][eq]=5");
    assert_eq!(list_documents_url("https://h", &vec![]), "https://h/v2/documents/?filter[id][eq]=");
}

#[test]
fn plan_keeps_only_the_requested_type_in_order() {
    let listing = ResourceArrayResponse {
        data: vec![
            file("u0", "image/jpeg", "color_jpeg"),
            file("s0", "application/pdf", "input_file"),
            file("u1", "image/jpeg", "color_jpeg"),
            file("g0", "image/png", "gray_png"),
            file("u2", "image/png", "color_jpeg"),
        ],
    };
    let plan = download_plan(&listing, "color_jpeg", 9).unwrap();
    assert_eq!(
        plan,
        vec![
            Download { url: "u0".to_string(), file_name: "9-0.jpeg".to_string() },
            Download { url: "u1".to_string(), file_name: "9-1.jpeg".to_string() },
            Download { url: "u2".to_string(), file_name: "9-2".to_string() },
        ]
    );
    let sources = download_plan(&listing, "input_file", 9).unwrap();
    assert_eq!(sources, vec![Download { url: "s0".to_string(), file_name: "9-0.pdf".to_string() }]);
}

#[test]
fn plan_without_matching_files_is_empty() {
    let listing = ResourceArrayResponse { data: vec![file("s0", "application/pdf", "input_file")] };
    assert_eq!(download_plan(&listing, "color_jpeg", 3).unwrap(), vec![]);
}

#[test]
fn empty_listing_means_missing_document() {
    let listing: ResourceArrayResponse<FileAttributes> = ResourceArrayResponse { data: vec![] };
    let e = download_plan(&listing, "color_jpeg", 1234).unwrap_err();
    assert_eq!(e, ApiError::DocumentMissing { document_id: 1234 });
    assert!(e.message().contains("1234"));
    assert_eq!(e.message(), "Document 1234 does not exist.");
    assert_eq!(check_not_empty(0, 77), Err(ApiError::DocumentMissing { document_id: 77 }));
    assert_eq!(check_not_empty(1, 77), Ok(()));
}

#[test]
fn unexpected_status_is_an_error() {
    assert_eq!(check_status(200, STATUS_OK), Ok(()));
    assert_eq!(check_status(201, STATUS_CREATED), Ok(()));
    assert_eq!(check_status(201, STATUS_OK), Err(ApiError::UnexpectedStatus { status: 201 }));
    assert_eq!(check_status(200, STATUS_CREATED), Err(ApiError::UnexpectedStatus { status: 200 }));
    let e = check_status(404, STATUS_OK).unwrap_err();
    assert_eq!(e.message(), "Request failed with status code 404.");
}

#[test]
fn listed_document_ids_in_order() {
    let listing = ResourceArrayResponse { data: vec![document(Some("7"), "t"), document(Some("3"), "t")] };
    assert_eq!(document_ids(&listing).unwrap(), vec!["7".to_string(), "3".to_string()]);
}

#[test]
fn listed_document_without_id_is_an_error() {
    let listing = ResourceArrayResponse { data: vec![document(Some("7"), "t"), document(None, "t")] };
    assert_eq!(document_ids(&listing), Err(ApiError::MissingId));
}

#[test]
fn upload_summary_names_document_and_tenant() {
    let response = ResourceResponse { data: document(Some("55"), "acme") };
    assert_eq!(upload_summary(&response).unwrap(), "Upload document 55 to tenant acme.");
    let response = ResourceResponse { data: document(None, "acme") };
    assert_eq!(upload_summary(&response), Err(ApiError::MissingId));
}

#[test]
fn upload_request_encodes_content_in_base64() {
    let req = document_create_request("a.pdf".to_string(), &b"A".to_vec(), None);
    assert_eq!(req.data.type_, "documents");
    assert_eq!(req.data.id, None);
    assert_eq!(req.data.attributes.classification_scope, None);
    assert_eq!(req.data.attributes.files.len(), 1);
    assert_eq!(req.data.attributes.files[0].file_name, "a.pdf");
    assert_eq!(req.data.attributes.files[0].base64_file, "QQ==");
    let req = document_create_request("b".to_string(), &b"hello".to_vec(), None);
    assert_eq!(req.data.attributes.files[0].base64_file, "aGVsbG8=");
}

#[test]
fn upload_body_omits_id_and_writes_null_scope() {
    let req = document_create_request("a.pdf".to_string(), &b"A".to_vec(), None);
    assert_eq!(
        request_body(&req),
        "{\"data\":{\"type\":\"documents\",\"attributes\":{\"classification_scope\":null,\"files\":[{\"file_name\":\"a.pdf\",\"base64_file\":\"QQ==\"}]}}}"
    );
}

#[test]
fn upload_body_lists_scope_and_escapes_strings() {
    let scope = Some(vec!["invoice".to_string(), "receipt".to_string()]);
    let req = document_create_request("q\"x.pdf".to_string(), &vec![], scope);
    assert_eq!(
        request_body(&req),
        "{\"data\":{\"type\":\"documents\",\"attributes\":{\"classification_scope\":[\"invoice\",\"receipt\"],\"files\":[{\"file_name\":\"q\\\"x.pdf\",\"base64_file\":\"\"}]}}}"
    );
}

#[test]
fn body_of_request_with_id_carries_it() {
    let mut req = document_create_request("a".to_string(), &vec![], Some(vec![]));
    req.data.id = Some("9".to_string());
    assert_eq!(
        request_body(&req),
        "{\"data\":{\"type\":\"documents\",\"id\":\"9\",\"attributes\":{\"classification_scope\":[],\"files\":[{\"file_name\":\"a\",\"base64_file\":\"\"}]}}}"
    );
}

#[test]
fn upload_body_escapes_control_characters() {
    let req = document_create_request("a\nb\u{1}\\c\u{7f}é".to_string(), &vec![], None);
    assert_eq!(
        request_body(&req),
        "{\"data\":{\"type\":\"documents\",\"attributes\":{\"classification_scope\":null,\"files\":[{\"file_name\":\"a\\nb\\u0001\\\\c\u{7f}é\",\"base64_file\":\"\"}]}}}"
    );
}

#[test]
fn base64_length_is_four_per_started_group() {
    for (n, len) in [(0usize, 0usize), (1, 4), (2, 4), (3, 4), (4, 8), (7, 12)] {
        let req = document_create_request("f".to_string(), &vec![0xffu8; n], None);
        assert_eq!(req.data.attributes.files[0].base64_file.len(), len);
    }
}
