//! Requests to the document service and the decisions taken on its
//! responses.

use crate::resource::{DocumentAttributes, FileAttributes, Resource, ResourceArrayResponse, ResourceResponse};
use crate::text::{decimal, str_eq, u64_to_decimal};
use vstd::prelude::*;

verus! {

/// The status of a successful GET.
pub const STATUS_OK: u16 = 200;

/// The status of a successful POST that created a resource.
pub const STATUS_CREATED: u16 = 201;

/// Why an exchange with the service did not succeed.
#[derive(Debug, PartialEq)]
pub enum ApiError {
    /// The response carried another status than the one expected.
    UnexpectedStatus { status: u16 },
    /// The listing for the document was empty.
    DocumentMissing { document_id: u64 },
    /// A returned resource carried no id.
    MissingId,
}

impl ApiError {
    /// The diagnostic shown to the user.
    pub fn message(&self) -> (r: String)
        ensures
            r@ == match self {
                ApiError::UnexpectedStatus { status } => "Request failed with status code "@
                    + decimal(*status as nat) + "."@,
                ApiError::DocumentMissing { document_id } => "Document "@ + decimal(
                    *document_id as nat,
                ) + " does not exist."@,
                ApiError::MissingId => "Response holds a resource without id."@,
            },
    {
        match self {
            ApiError::UnexpectedStatus { status } => {
                let mut r = String::from_str("Request failed with status code ");
                let n = u64_to_decimal(*status as u64);
                r.append(n.as_str());
                r.append(".");
                r
            },
            ApiError::DocumentMissing { document_id } => {
                let mut r = String::from_str("Document ");
                let n = u64_to_decimal(*document_id);
                r.append(n.as_str());
                r.append(" does not exist.");
                r
            },
            ApiError::MissingId => String::from_str("Response holds a resource without id."),
        }
    }
}

/// The file extension that belongs to a MIME type.
pub open spec fn extension_of(mime_type: Seq<char>) -> Seq<char> {
    if mime_type == "image/jpeg"@ {
        ".jpeg"@
    } else if mime_type == "application/pdf"@ {
        ".pdf"@
    } else {
        ""@
    }
}

/// The file extension to give a download of the given MIME type.
pub fn extension_by_mime_type(mime_type: &str) -> (r: String)
    ensures
        r@ == extension_of(mime_type@),
{
    if str_eq(mime_type, "image/jpeg") {
        String::from_str(".jpeg")
    } else if str_eq(mime_type, "application/pdf") {
        String::from_str(".pdf")
    } else {
        String::from_str("")
    }
}

/// Checks a response status against the one the request expects.
pub fn check_status(status: u16, expected: u16) -> (r: Result<(), ApiError>)
    ensures
        status == expected ==> r is Ok,
        status != expected ==> r == Err::<(), ApiError>(ApiError::UnexpectedStatus { status }),
{
    if status == expected {
        Ok(())
    } else {
        Err(ApiError::UnexpectedStatus { status })
    }
}

/// An empty listing means that the document does not exist.
pub fn check_not_empty(len: usize, document_id: u64) -> (r: Result<(), ApiError>)
    ensures
        len > 0 ==> r is Ok,
        len == 0 ==> r == Err::<(), ApiError>(ApiError::DocumentMissing { document_id }),
{
    if len > 0 {
        Ok(())
    } else {
        Err(ApiError::DocumentMissing { document_id })
    }
}

/// The base URL of the service on `domain`.
pub fn base_url(domain: &str) -> (r: String)
    ensures
        r@ == "https://"@ + domain@,
{
    let mut r = String::from_str("https://");
    r.append(domain);
    r
}

/// The URL that lists the files of a document, with their download URLs.
pub open spec fn files_url_of(base: Seq<char>, document_id: nat) -> Seq<char> {
    base + "/v2/files/?filter[record_id]="@ + decimal(document_id) + "&extra_fields[files]=url"@
}

/// See [`files_url_of`].
pub fn files_url(base: &str, document_id: u64) -> (r: String)
    ensures
        r@ == files_url_of(base@, document_id as nat),
{
    let mut r = String::from_str(base);
    r.append("/v2/files/?filter[record_id]=");
    let n = u64_to_decimal(document_id);
    r.append(n.as_str());
    r.append("&extra_fields[files]=url");
    r
}

/// The URL of the OCR tokens of a document.
pub open spec fn recognitions_url_of(base: Seq<char>, document_id: nat) -> Seq<char> {
    base + "/v2/documents/"@ + decimal(document_id) + "/recognitions"@
}

/// See [`recognitions_url_of`].
pub fn recognitions_url(base: &str, document_id: u64) -> (r: String)
    ensures
        r@ == recognitions_url_of(base@, document_id as nat),
{
    let mut r = String::from_str(base);
    r.append("/v2/documents/");
    let n = u64_to_decimal(document_id);
    r.append(n.as_str());
    r.append("/recognitions");
    r
}

/// The URL to which a new document is posted.
pub fn documents_url(base: &str) -> (r: String)
    ensures
        r@ == base@ + "/v2/documents/"@,
{
    let mut r = String::from_str(base);
    r.append("/v2/documents/");
    r
}

/// The items of `s` separated by commas.
pub open spec fn comma_joined(s: Seq<Seq<char>>) -> Seq<char>
    decreases s.len(),
{
    if s.len() == 0 {
        Seq::empty()
    } else if s.len() == 1 {
        s[0]
    } else {
        comma_joined(s.drop_last()) + ","@ + s.last()
    }
}

/// The views of a list of strings.
pub open spec fn string_views(v: Seq<String>) -> Seq<Seq<char>> {
    v.map_values(|s: String| s@)
}

/// Appends the items of `items` to `out`, separated by commas.
fn append_comma_joined(out: &mut String, items: &Vec<String>)
    ensures
        final(out)@ == old(out)@ + comma_joined(string_views(items@)),
{
    let ghost start = out@;
    let mut i: usize = 0;
    while i < items.len()
        invariant
            i <= items@.len(),
            out@ == start + comma_joined(string_views(items@.subrange(0, i as int))),
        decreases items@.len() - i,
    {
        let ghost prev = string_views(items@.subrange(0, i as int));
        if i > 0 {
            out.append(",");
        }
        out.append(items[i].as_str());
        proof {
            let next = string_views(items@.subrange(0, i + 1));
            assert(next.drop_last() =~= prev);
            assert(next.last() == items@[i as int]@);
            if i == 0 {
                assert(prev =~= Seq::<Seq<char>>::empty());
                assert(comma_joined(prev) =~= Seq::<char>::empty());
            }
            assert(out@ =~= start + comma_joined(next));
        }
        i = i + 1;
    }
    assert(items@.subrange(0, items@.len() as int) =~= items@);
}

/// The URL that lists the documents with the given ids.
pub open spec fn list_documents_url_of(base: Seq<char>, ids: Seq<Seq<char>>) -> Seq<char> {
    base + "/v2/documents/?filter[id][eq]="@ + comma_joined(ids)
}

/// See [`list_documents_url_of`].
pub fn list_documents_url(base: &str, document_ids: &Vec<String>) -> (r: String)
    ensures
        r@ == list_documents_url_of(base@, string_views(document_ids@)),
{
    let mut r = String::from_str(base);
    r.append("/v2/documents/?filter[id][eq]=");
    append_comma_joined(&mut r, document_ids);
    r
}

/// One file to fetch: where it comes from and the local name it is saved as.
#[derive(Debug, PartialEq)]
pub struct Download {
    pub url: String,
    pub file_name: String,
}

/// The entries of a files listing whose file type is `file_type`, in
/// listing order.
pub open spec fn matching_files(
    s: Seq<Resource<FileAttributes>>,
    file_type: Seq<char>,
) -> Seq<Resource<FileAttributes>>
    decreases s.len(),
{
    if s.len() == 0 {
        Seq::empty()
    } else if s.last().attributes.file_type@ == file_type {
        matching_files(s.drop_last(), file_type).push(s.last())
    } else {
        matching_files(s.drop_last(), file_type)
    }
}

/// Every entry kept by [`matching_files`] has the requested file type, no
/// entry of the requested type is dropped, and it holds no more entries
/// than the listing.
pub proof fn lemma_matching_files(s: Seq<Resource<FileAttributes>>, file_type: Seq<char>)
    ensures
        matching_files(s, file_type).len() <= s.len(),
        forall|k: int|
            0 <= k < matching_files(s, file_type).len() ==> (#[trigger] matching_files(
                s,
                file_type,
            )[k]).attributes.file_type@ == file_type,
        forall|j: int|
            0 <= j < s.len() && (#[trigger] s[j]).attributes.file_type@ == file_type
                ==> matching_files(s, file_type).contains(s[j]),
    decreases s.len(),
{
    if s.len() > 0 {
        let t = s.drop_last();
        lemma_matching_files(t, file_type);
        let m = matching_files(t, file_type);
        assert forall|j: int|
            0 <= j < s.len() && (#[trigger] s[j]).attributes.file_type@ == file_type
                implies matching_files(s, file_type).contains(s[j]) by {
            if j < s.len() - 1 {
                assert(t[j] == s[j]);
                let i = choose|i: int| 0 <= i < m.len() && m[i] == t[j];
                if s.last().attributes.file_type@ == file_type {
                    assert(m.push(s.last())[i] == s[j]);
                }
            } else {
                assert(m.push(s.last())[m.len() as int] == s[j]);
            }
        }
    }
}

/// The local name of the `index`-th matching file of a document.
pub open spec fn download_name(document_id: nat, index: nat, mime_type: Seq<char>) -> Seq<char> {
    decimal(document_id) + "-"@ + decimal(index) + extension_of(mime_type)
}

/// What a files listing asks to download: one entry per file of the
/// requested type, numbered from zero in listing order. An empty listing
/// means that the document does not exist.
pub fn download_plan(
    listing: &ResourceArrayResponse<FileAttributes>,
    file_type: &str,
    document_id: u64,
) -> (r: Result<Vec<Download>, ApiError>)
    ensures
        listing.data@.len() == 0 ==> r == Err::<Vec<Download>, ApiError>(
            ApiError::DocumentMissing { document_id },
        ),
        listing.data@.len() > 0 ==> (r matches Ok(plan) && {
            let m = matching_files(listing.data@, file_type@);
            &&& plan@.len() == m.len()
            &&& forall|k: int|
                0 <= k < m.len() ==> {
                    &&& (#[trigger] plan@[k]).url@ == m[k].attributes.url@
                    &&& plan@[k].file_name@ == download_name(
                        document_id as nat,
                        k as nat,
                        m[k].attributes.mime_type@,
                    )
                }
        }),
{
    check_not_empty(listing.data.len(), document_id)?;
    let ghost all = listing.data@;
    let mut plan: Vec<Download> = Vec::new();
    let mut i: usize = 0;
    while i < listing.data.len()
        invariant
            all == listing.data@,
            i <= all.len(),
            plan@.len() == matching_files(all.subrange(0, i as int), file_type@).len(),
            forall|k: int|
                0 <= k < plan@.len() ==> {
                    let m = matching_files(all.subrange(0, i as int), file_type@);
                    &&& (#[trigger] plan@[k]).url@ == m[k].attributes.url@
                    &&& plan@[k].file_name@ == download_name(
                        document_id as nat,
                        k as nat,
                        m[k].attributes.mime_type@,
                    )
                },
        decreases all.len() - i,
    {
        let ghost before = matching_files(all.subrange(0, i as int), file_type@);
        proof {
            assert(all.subrange(0, i + 1).drop_last() =~= all.subrange(0, i as int));
            assert(all.subrange(0, i + 1).last() == all[i as int]);
        }
        let entry = &listing.data[i];
        if str_eq(entry.attributes.file_type.as_str(), file_type) {
            let index = plan.len();
            let mut name = u64_to_decimal(document_id);
            name.append("-");
            let n = u64_to_decimal(index as u64);
            name.append(n.as_str());
            let ext = extension_by_mime_type(entry.attributes.mime_type.as_str());
            name.append(ext.as_str());
            plan.push(Download { url: String::from_str(entry.attributes.url.as_str()), file_name: name });
            proof {
                let after = matching_files(all.subrange(0, i + 1), file_type@);
                assert(after == before.push(all[i as int]));
            }
        }
        i = i + 1;
    }
    assert(all.subrange(0, all.len() as int) =~= all);
    Ok(plan)
}

/// The ids of the listed documents, in order; a resource without id makes
/// the whole listing unusable.
pub fn document_ids(listing: &ResourceArrayResponse<DocumentAttributes>) -> (r: Result<
    Vec<String>,
    ApiError,
>)
    ensures
        (forall|k: int| 0 <= k < listing.data@.len() ==> (#[trigger] listing.data@[k]).id is Some)
            ==> (r matches Ok(ids) && ids@.len() == listing.data@.len() && forall|k: int|
            0 <= k < ids@.len() ==> (#[trigger] ids@[k])@ == listing.data@[k].id->0@),
        (exists|k: int| 0 <= k < listing.data@.len() && (#[trigger] listing.data@[k]).id is None)
            ==> r == Err::<Vec<String>, ApiError>(ApiError::MissingId),
{
    let mut ids: Vec<String> = Vec::new();
    let mut i: usize = 0;
    while i < listing.data.len()
        invariant
            i <= listing.data@.len(),
            ids@.len() == i,
            forall|k: int| 0 <= k < i ==> (#[trigger] listing.data@[k]).id is Some,
            forall|k: int| 0 <= k < i ==> (#[trigger] ids@[k])@ == listing.data@[k].id->0@,
        decreases listing.data@.len() - i,
    {
        match &listing.data[i].id {
            Some(id) => ids.push(String::from_str(id.as_str())),
            None => return Err(ApiError::MissingId),
        }
        i = i + 1;
    }
    Ok(ids)
}

/// The line that reports a finished upload.
pub fn upload_summary(response: &ResourceResponse<DocumentAttributes>) -> (r: Result<
    String,
    ApiError,
>)
    ensures
        response.data.id is None ==> r == Err::<String, ApiError>(ApiError::MissingId),
        response.data.id is Some ==> (r matches Ok(line) && line@ == "Upload document "@
            + response.data.id->0@ + " to tenant "@ + response.data.attributes.tenant_id@ + "."@),
{
    match &response.data.id {
        Some(id) => {
            let mut line = String::from_str("Upload document ");
            line.append(id.as_str());
            line.append(" to tenant ");
            line.append(response.data.attributes.tenant_id.as_str());
            line.append(".");
            Ok(line)
        },
        None => Err(ApiError::MissingId),
    }
}

} // verus!
