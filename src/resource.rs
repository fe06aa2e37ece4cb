//! The resource envelopes of the API and the attribute sets they carry.

use vstd::prelude::*;

verus! {

/// One resource object: its kind, its id (absent on create requests) and
/// its attributes.
#[derive(Debug, PartialEq)]
pub struct Resource<A> {
    pub type_: String,
    pub id: Option<String>,
    pub attributes: A,
}

/// The body of a request that carries one resource.
#[derive(Debug, PartialEq)]
pub struct ResourceRequest<A> {
    pub data: Resource<A>,
}

/// The body of a response that carries one resource.
#[derive(Debug, PartialEq)]
pub struct ResourceResponse<A> {
    pub data: Resource<A>,
}

/// The body of a response that carries a list of resources.
#[derive(Debug, PartialEq)]
pub struct ResourceArrayResponse<A> {
    pub data: Vec<Resource<A>>,
}

/// A downloadable file attached to a document.
#[derive(Debug, PartialEq)]
pub struct FileAttributes {
    pub url: String,
    pub mime_type: String,
    pub file_type: String,
}

/// Document metadata as the server reports it.
#[derive(Debug, PartialEq)]
pub struct DocumentAttributes {
    pub tenant_id: String,
    pub status: String,
    pub workflow_step: String,
    pub workflow_status: String,
    pub validation_required: bool,
    pub not_for_training: bool,
    pub created_at: String,
    pub updated_at: String,
    pub document_type_identifier: String,
}

/// The attributes of a document upload.
#[derive(Debug, PartialEq)]
pub struct DocumentCreateAttributes {
    pub classification_scope: Option<Vec<String>>,
    pub files: Vec<DocumentFile>,
}

/// One uploaded file, its content encoded in base64.
#[derive(Debug, PartialEq)]
pub struct DocumentFile {
    pub file_name: String,
    pub base64_file: String,
}

} // verus!
