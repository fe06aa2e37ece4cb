//! A client library for a document-processing REST API: profile selection,
//! request construction and the decisions taken on each response.

pub mod api;
pub mod profile;
pub mod resource;
pub mod text;
pub mod upload;

pub use api::{
    base_url, check_not_empty, check_status, document_ids, documents_url, download_plan,
    extension_by_mime_type, files_url, list_documents_url, recognitions_url, upload_summary,
    ApiError, Download, STATUS_CREATED, STATUS_OK,
};
pub use profile::{get_default_profile, load_profile, profile_lines, Config, Profile, ProfileError};
pub use resource::{
    DocumentAttributes, DocumentCreateAttributes, DocumentFile, FileAttributes, Resource,
    ResourceArrayResponse, ResourceRequest, ResourceResponse,
};
pub use text::{str_eq, u64_to_decimal};
pub use upload::{document_create_request, request_body};
