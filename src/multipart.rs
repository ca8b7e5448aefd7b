//! Multipart uploads: creation, part numbering and the completion manifest.
use crate::client::{pairs_view, Method, Request, S3Client};
use crate::encoding::{decimal, push_decimal, xml_escape, xml_escaped};
use vstd::prelude::*;
use vstd::string::{StringExecFns, StringSliceAdditionalSpecFns};
use vstd::utf8::encode_utf8;

verus! {

/// A part the caller has uploaded, identified by the entity tag the store
/// returned for it.
#[derive(Clone, Debug)]
pub struct UploadPart {
    pub content_id: String,
}

/// One entry of the completion manifest.
#[derive(Clone, Debug)]
pub struct MultipartPart {
    pub e_tag: String,
    pub part_number: usize,
}

impl MultipartPart {
    pub open spec fn view_entry(&self) -> (Seq<char>, nat) {
        (self.e_tag@, self.part_number as nat)
    }
}

/// The manifest entries for `parts`: the entity tag of each part with its
/// 1-based position as part number.
pub open spec fn numbered_entries(parts: Seq<UploadPart>) -> Seq<(Seq<char>, nat)> {
    Seq::new(parts.len(), |i: int| (parts[i].content_id@, (i + 1) as nat))
}

pub open spec fn part_xml(entry: (Seq<char>, nat)) -> Seq<char> {
    "<Part><ETag>"@ + xml_escaped(entry.0) + "</ETag><PartNumber>"@ + decimal(entry.1)
        + "</PartNumber></Part>"@
}

pub open spec fn parts_xml(entries: Seq<(Seq<char>, nat)>) -> Seq<char>
    decreases entries.len(),
{
    if entries.len() == 0 {
        seq![]
    } else {
        parts_xml(entries.drop_last()) + part_xml(entries.last())
    }
}

/// The body of a completion request listing `entries` in order.
pub open spec fn manifest_xml(entries: Seq<(Seq<char>, nat)>) -> Seq<char> {
    "<CompleteMultipartUpload>"@ + parts_xml(entries) + "</CompleteMultipartUpload>"@
}

/// Numbers the parts by their position: the i-th part (from 0) becomes part
/// `i + 1`, whatever else identifies it.
pub fn completion_parts(parts: &Vec<UploadPart>) -> (r: Vec<MultipartPart>)
    requires
        parts@.len() < usize::MAX,
    ensures
        r@.map_values(|p: MultipartPart| p.view_entry()) == numbered_entries(parts@),
{
    let mut r: Vec<MultipartPart> = Vec::new();
    let mut i: usize = 0;
    while i < parts.len()
        invariant
            0 <= i <= parts@.len() < usize::MAX,
            r@.len() == i,
            forall|j: int| 0 <= j < i ==> (#[trigger] r@[j]).view_entry() == numbered_entries(parts@)[j],
        decreases parts@.len() - i,
    {
        let e_tag = parts[i].content_id.clone();
        r.push(MultipartPart { e_tag, part_number: i + 1 });
        i = i + 1;
    }
    assert(r@.map_values(|p: MultipartPart| p.view_entry()) =~= numbered_entries(parts@));
    r
}

/// Serialises the manifest: `<CompleteMultipartUpload>` holding one `<Part>`
/// with `<ETag>` and `<PartNumber>` per entry, in order, entity tags escaped.
pub fn manifest(parts: &Vec<MultipartPart>) -> (r: String)
    ensures
        r@ == manifest_xml(parts@.map_values(|p: MultipartPart| p.view_entry())),
{
    let ghost entries = parts@.map_values(|p: MultipartPart| p.view_entry());
    let mut out = String::from_str("<CompleteMultipartUpload>");
    let mut i: usize = 0;
    while i < parts.len()
        invariant
            0 <= i <= parts@.len(),
            entries == parts@.map_values(|p: MultipartPart| p.view_entry()),
            out@ == "<CompleteMultipartUpload>"@ + parts_xml(entries.subrange(0, i as int)),
        decreases parts@.len() - i,
    {
        let part = &parts[i];
        out.append("<Part><ETag>");
        let escaped = xml_escape(part.e_tag.as_str());
        out.append(escaped.as_str());
        out.append("</ETag><PartNumber>");
        push_decimal(&mut out, part.part_number);
        out.append("</PartNumber></Part>");
        proof {
            let sub = entries.subrange(0, i + 1);
            assert(sub.drop_last() =~= entries.subrange(0, i as int));
            assert(sub.last() == part.view_entry());
        }
        i = i + 1;
        assert(out@ =~= "<CompleteMultipartUpload>"@ + parts_xml(entries.subrange(0, i as int)));
    }
    assert(entries.subrange(0, i as int) =~= entries);
    out.append("</CompleteMultipartUpload>");
    out
}

impl S3Client {
    /// The request that starts a multipart upload: a POST to the object's URL
    /// with the `?uploads=` marker.
    pub fn create_multipart(&self, location: &str) -> (r: Request)
        ensures
            r.method == Method::Post,
            r.url@ == self.spec_config().spec_path_url(location@) + "?uploads="@,
            r.query_view() == Seq::<(Seq<char>, Seq<char>)>::empty(),
            r.headers_view() == Seq::<(Seq<char>, Seq<char>)>::empty(),
            r.body.is_none(),
            r.payload_sha256.is_none(),
    {
        let mut url = self.config().path_url(location);
        url.append("?uploads=");
        let r = Request {
            method: Method::Post,
            url,
            query: Vec::new(),
            headers: Vec::new(),
            body: None,
            payload_sha256: None,
        };
        assert(r.query_view() =~= Seq::<(Seq<char>, Seq<char>)>::empty());
        assert(r.headers_view() =~= Seq::<(Seq<char>, Seq<char>)>::empty());
        r
    }

    /// The request that completes a multipart upload: a POST to the object's
    /// URL with `uploadId` in the query and the manifest of `parts`, numbered
    /// by position, as body.
    pub fn complete_multipart(&self, location: &str, upload_id: &str, parts: &Vec<UploadPart>) -> (r:
        Request)
        requires
            parts@.len() < usize::MAX,
        ensures
            r.method == Method::Post,
            r.url@ == self.spec_config().spec_path_url(location@),
            r.query_view() == seq![("uploadId"@, upload_id@)],
            r.headers_view() == Seq::<(Seq<char>, Seq<char>)>::empty(),
            r.body matches Some(b) && b@ == encode_utf8(manifest_xml(numbered_entries(parts@))),
            r.payload_sha256.is_none(),
    {
        let numbered = completion_parts(parts);
        let body = manifest(&numbered);
        let bytes = vstd::slice::slice_to_vec(body.as_str().as_bytes());
        let url = self.config().path_url(location);
        let mut query: Vec<(String, String)> = Vec::new();
        query.push((String::from_str("uploadId"), String::from_str(upload_id)));
        let r = Request {
            method: Method::Post,
            url,
            query,
            headers: Vec::new(),
            body: Some(bytes),
            payload_sha256: None,
        };
        assert(r.query_view() =~= seq![("uploadId"@, upload_id@)]);
        assert(r.headers_view() =~= Seq::<(Seq<char>, Seq<char>)>::empty());
        r
    }
}

/// Where a multipart upload stands: completion is only possible once the
/// store has handed out an upload id, and a completed upload is not reused.
#[derive(Clone, Debug)]
pub enum MultipartSession {
    Uninitiated,
    Created(String),
    Completed,
}

impl MultipartSession {
    /// Records the upload id of a successful create; refused unless nothing
    /// was created yet.
    pub fn created(&mut self, upload_id: String) -> (ok: bool)
        ensures
            ok == (*old(self) is Uninitiated),
            ok ==> *final(self) == MultipartSession::Created(upload_id),
            !ok ==> *final(self) == *old(self),
    {
        match self {
            MultipartSession::Uninitiated => {
                *self = MultipartSession::Created(upload_id);
                true
            },
            _ => false,
        }
    }

    /// The completion request for the created upload, or `None` when no
    /// upload is open.
    pub fn completion_request(&self, client: &S3Client, location: &str, parts: &Vec<UploadPart>) -> (r:
        Option<Request>)
        requires
            parts@.len() < usize::MAX,
        ensures
            r.is_some() == (*self is Created),
            r matches Some(req) ==> self matches MultipartSession::Created(id) && {
                &&& req.method == Method::Post
                &&& req.url@ == client.spec_config().spec_path_url(location@)
                &&& req.query_view() == seq![("uploadId"@, id@)]
                &&& req.body matches Some(b) && b@ == encode_utf8(
                    manifest_xml(numbered_entries(parts@)),
                )
            },
    {
        match self {
            MultipartSession::Created(id) => Some(client.complete_multipart(location, id.as_str(), parts)),
            _ => None,
        }
    }

    /// Marks a successful completion; a failed one leaves the session open
    /// for another try, so this is only called on success.
    pub fn completed(&mut self) -> (ok: bool)
        ensures
            ok == (*old(self) is Created),
            ok ==> *final(self) is Completed,
            !ok ==> *final(self) == *old(self),
    {
        match self {
            MultipartSession::Created(_) => {
                *self = MultipartSession::Completed;
                true
            },
            _ => false,
        }
    }
}

/// Completion numbers parts strictly by their position in the list handed
/// over: entry `i` carries the entity tag of part `i` and the number `i + 1`,
/// and the manifest lists exactly one entry per part.
pub proof fn lemma_parts_numbered_by_position(parts: Seq<UploadPart>)
    ensures
        numbered_entries(parts).len() == parts.len(),
        forall|i: int|
            0 <= i < parts.len() ==> #[trigger] numbered_entries(parts)[i] == (
                parts[i].content_id@,
                (i + 1) as nat,
            ),
{
}

} // verus!
