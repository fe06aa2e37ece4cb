//! The document upload request: its construction and its JSON body.

use crate::api::comma_joined;
use crate::text::digit_char;
use crate::resource::{DocumentCreateAttributes, DocumentFile, Resource, ResourceRequest};
use vstd::prelude::*;

verus! {

/// The padded standard-alphabet base64 encoding of `bytes`.
pub uninterp spec fn base64_standard(bytes: Seq<u8>) -> Seq<char>;

/// The lower-case hexadecimal digit for `d`, below sixteen.
pub open spec fn hex_digit(d: nat) -> char {
    if d < 10 {
        digit_char(d)
    } else if d == 10 {
        'a'
    } else if d == 11 {
        'b'
    } else if d == 12 {
        'c'
    } else if d == 13 {
        'd'
    } else if d == 14 {
        'e'
    } else {
        'f'
    }
}

/// How one character is written inside a JSON string: quote and backslash
/// are escaped, control characters take a short escape where JSON has one
/// and `\u00XX` otherwise, every other character stands as it is.
pub open spec fn json_char_escape(c: char) -> Seq<char> {
    let n = c as u32;
    if c == '"' {
        seq!['\\', '"']
    } else if c == '\\' {
        seq!['\\', '\\']
    } else if n == 0x08 {
        seq!['\\', 'b']
    } else if n == 0x09 {
        seq!['\\', 't']
    } else if n == 0x0A {
        seq!['\\', 'n']
    } else if n == 0x0C {
        seq!['\\', 'f']
    } else if n == 0x0D {
        seq!['\\', 'r']
    } else if n < 0x20 {
        seq!['\\', 'u', '0', '0', hex_digit(n as nat / 16), hex_digit(n as nat % 16)]
    } else {
        seq![c]
    }
}

/// The characters of `s`, each escaped for a JSON string.
pub open spec fn json_escaped(s: Seq<char>) -> Seq<char>
    decreases s.len(),
{
    if s.len() == 0 {
        Seq::empty()
    } else {
        json_escaped(s.drop_last()) + json_char_escape(s.last())
    }
}

/// The JSON string literal for `s`: its escaped characters between quotes.
pub open spec fn json_string_literal(s: Seq<char>) -> Seq<char> {
    seq!['"'] + json_escaped(s) + seq!['"']
}

/// Relies on base64's `general_purpose::STANDARD.encode`: the padded
/// standard-alphabet encoding, which depends on the bytes alone and holds
/// four characters for each started group of three bytes.
#[verifier::external_body]
fn encode_base64(bytes: &Vec<u8>) -> (r: String)
    ensures
        r@ == base64_standard(bytes@),
        r@.len() == 4 * ((bytes@.len() + 2) / 3),
{
    base64::Engine::encode(&base64::engine::general_purpose::STANDARD, bytes)
}

/// Relies on `serde_json::to_string` applied to a string slice: the quoted
/// string with its characters escaped by serde_json's escape table. It
/// writes into a `Vec<u8>`, which cannot fail.
#[verifier::external_body]
fn json_string(s: &str) -> (r: String)
    ensures
        r@ == json_string_literal(s@),
{
    serde_json::to_string(s).unwrap()
}

/// The request that uploads one file under `file_name`, its content encoded
/// in base64, limited to the given document types if any.
pub fn document_create_request(
    file_name: String,
    content: &Vec<u8>,
    classification_scope: Option<Vec<String>>,
) -> (r: ResourceRequest<DocumentCreateAttributes>)
    ensures
        r.data.type_@ == "documents"@,
        r.data.id is None,
        r.data.attributes.classification_scope == classification_scope,
        r.data.attributes.files@.len() == 1,
        r.data.attributes.files@[0].file_name == file_name,
        r.data.attributes.files@[0].base64_file@ == base64_standard(content@),
{
    let encoded = encode_base64(content);
    let mut files: Vec<DocumentFile> = Vec::new();
    files.push(DocumentFile { file_name, base64_file: encoded });
    ResourceRequest {
        data: Resource {
            type_: String::from_str("documents"),
            id: None,
            attributes: DocumentCreateAttributes { classification_scope, files },
        },
    }
}

/// The JSON literals of a list of strings.
pub open spec fn json_literals(v: Seq<String>) -> Seq<Seq<char>> {
    v.map_values(|s: String| json_string_literal(s@))
}

/// The JSON object for one uploaded file.
pub open spec fn file_json(f: DocumentFile) -> Seq<char> {
    "{\"file_name\":"@ + json_string_literal(f.file_name@) + ",\"base64_file\":"@
        + json_string_literal(f.base64_file@) + "}"@
}

/// The JSON objects for a list of uploaded files.
pub open spec fn files_json(v: Seq<DocumentFile>) -> Seq<Seq<char>> {
    v.map_values(|f: DocumentFile| file_json(f))
}

/// The JSON value of an optional list of document types.
pub open spec fn scope_json(scope: Option<Vec<String>>) -> Seq<char> {
    match scope {
        None => "null"@,
        Some(v) => "["@ + comma_joined(json_literals(v@)) + "]"@,
    }
}

/// The JSON object for the attributes of an upload.
pub open spec fn create_attributes_json(a: DocumentCreateAttributes) -> Seq<char> {
    "{\"classification_scope\":"@ + scope_json(a.classification_scope) + ",\"files\":["@
        + comma_joined(files_json(a.files@)) + "]}"@
}

/// The `"id"` member of a resource object; absent when it has no id.
pub open spec fn id_member(id: Option<String>) -> Seq<char> {
    match id {
        None => Seq::empty(),
        Some(s) => ",\"id\":"@ + json_string_literal(s@),
    }
}

/// The compact JSON text of an upload request.
pub open spec fn create_body(req: ResourceRequest<DocumentCreateAttributes>) -> Seq<char> {
    "{\"data\":{\"type\":"@ + json_string_literal(req.data.type_@) + id_member(req.data.id)
        + ",\"attributes\":"@ + create_attributes_json(req.data.attributes) + "}}"@
}

/// A request without id is encoded with no `"id"` member at all: the
/// resource type is followed directly by the attributes, and an absent list
/// of document types is written as `null`.
pub proof fn lemma_body_without_id(req: ResourceRequest<DocumentCreateAttributes>)
    requires
        req.data.id is None,
    ensures
        create_body(req) == "{\"data\":{\"type\":"@ + json_string_literal(req.data.type_@)
            + ",\"attributes\":"@ + create_attributes_json(req.data.attributes) + "}}"@,
        req.data.attributes.classification_scope is None ==> create_attributes_json(
            req.data.attributes,
        ) == "{\"classification_scope\":"@ + "null"@ + ",\"files\":["@ + comma_joined(
            files_json(req.data.attributes.files@),
        ) + "]}"@,
{
    assert(create_body(req) =~= "{\"data\":{\"type\":"@ + json_string_literal(req.data.type_@)
        + ",\"attributes\":"@ + create_attributes_json(req.data.attributes) + "}}"@);
}

fn append_json_string(out: &mut String, s: &str)
    ensures
        final(out)@ == old(out)@ + json_string_literal(s@),
{
    let t = json_string(s);
    out.append(t.as_str());
}

fn append_scope(out: &mut String, scope: &Option<Vec<String>>)
    ensures
        final(out)@ == old(out)@ + scope_json(*scope),
{
    match scope {
        None => {
            out.append("null");
        },
        Some(items) => {
            let ghost start = out@;
            out.append("[");
            let mut i: usize = 0;
            while i < items.len()
                invariant
                    i <= items@.len(),
                    out@ == start + "["@ + comma_joined(
                        json_literals(items@.subrange(0, i as int)),
                    ),
                decreases items@.len() - i,
            {
                let ghost prev = json_literals(items@.subrange(0, i as int));
                if i > 0 {
                    out.append(",");
                }
                append_json_string(out, items[i].as_str());
                proof {
                    let next = json_literals(items@.subrange(0, i + 1));
                    assert(next.drop_last() =~= prev);
                    if i == 0 {
                        assert(prev =~= Seq::<Seq<char>>::empty());
                    }
                    assert(out@ =~= start + "["@ + comma_joined(next));
                }
                i = i + 1;
            }
            assert(items@.subrange(0, items@.len() as int) =~= items@);
            out.append("]");
            assert(out@ =~= start + scope_json(*scope));
        },
    }
}

fn append_files(out: &mut String, files: &Vec<DocumentFile>)
    ensures
        final(out)@ == old(out)@ + comma_joined(files_json(files@)),
{
    let ghost start = out@;
    let mut i: usize = 0;
    while i < files.len()
        invariant
            i <= files@.len(),
            out@ == start + comma_joined(files_json(files@.subrange(0, i as int))),
        decreases files@.len() - i,
    {
        let ghost prev = files_json(files@.subrange(0, i as int));
        if i > 0 {
            out.append(",");
        }
        let ghost sep = out@;
        out.append("{\"file_name\":");
        append_json_string(out, files[i].file_name.as_str());
        out.append(",\"base64_file\":");
        append_json_string(out, files[i].base64_file.as_str());
        out.append("}");
        proof {
            let next = files_json(files@.subrange(0, i + 1));
            assert(next.drop_last() =~= prev);
            assert(out@ =~= sep + file_json(files@[i as int]));
            if i == 0 {
                assert(prev =~= Seq::<Seq<char>>::empty());
            }
            assert(out@ =~= start + comma_joined(next));
        }
        i = i + 1;
    }
    assert(files@.subrange(0, files@.len() as int) =~= files@);
}

/// The compact JSON text of an upload request.
pub fn request_body(req: &ResourceRequest<DocumentCreateAttributes>) -> (r: String)
    ensures
        r@ == create_body(*req),
{
    let mut out = String::from_str("{\"data\":{\"type\":");
    append_json_string(&mut out, req.data.type_.as_str());
    let ghost head = out@;
    match &req.data.id {
        Some(id) => {
            out.append(",\"id\":");
            append_json_string(&mut out, id.as_str());
        },
        None => {},
    }
    assert(out@ =~= head + id_member(req.data.id));
    out.append(",\"attributes\":");
    let ghost attrs_start = out@;
    out.append("{\"classification_scope\":");
    append_scope(&mut out, &req.data.attributes.classification_scope);
    out.append(",\"files\":[");
    append_files(&mut out, &req.data.attributes.files);
    out.append("]}");
    assert(out@ =~= attrs_start + create_attributes_json(req.data.attributes));
    out.append("}}");
    assert(out@ =~= create_body(*req));
    out
}

} // verus!
