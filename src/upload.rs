//! The upload pipeline's own logic: what is checked before any network
//! call, the multipart body sent, progress accounting, and the result
//! reported. Reading the file and the transfer itself are the caller's.

use vstd::prelude::*;
use vstd::string::*;
use vstd::utf8::encode_utf8;
use crate::file_type::{GoogleFileType, family_of_path, detect_file_type, extension, extension_of, spec_google_mime_type, spec_display_name};
use crate::encoding::{json_quote, json_string_of};

verus! {

/// Where uploads go, with the fields asked back.
pub const UPLOAD_URL: &'static str = "https://www.googleapis.com/upload/drive/v3/files?uploadType=multipart&fields=id,name,webViewLink,mimeType";

/// The fixed multipart boundary.
pub const BOUNDARY: &'static str = "gopener_boundary_12345";

pub const OCTET_STREAM: &'static str = "application/octet-stream";

pub const FILE_MISSING: &'static str = "File does not exist";

pub const UNSUPPORTED_FILE_TYPE: &'static str = "Unsupported file type";

/// What a finished upload reports.
#[derive(Debug, Clone)]
pub struct UploadResult {
    pub file_id: String,
    pub name: String,
    pub web_view_link: String,
    pub file_type: String,
}

/// A reading of the progress slot.
#[derive(Debug, Clone, Copy, PartialEq, Eq, Structural)]
pub struct UploadProgress {
    pub bytes_uploaded: u64,
    pub total_bytes: u64,
}

/// The progress of the one upload tracked at a time. The count of bytes
/// uploaded never exceeds the total.
pub struct ProgressTracker {
    uploaded: u64,
    total: u64,
}

impl ProgressTracker {
    #[verifier::type_invariant]
    spec fn inv(&self) -> bool {
        self.uploaded <= self.total
    }

    pub closed spec fn uploaded(&self) -> u64 {
        self.uploaded
    }

    pub closed spec fn total(&self) -> u64 {
        self.total
    }

    /// A tracker with nothing to report.
    pub fn new() -> (r: ProgressTracker)
        ensures
            r.uploaded() == 0,
            r.total() == 0,
    {
        ProgressTracker { uploaded: 0, total: 0 }
    }

    /// Start tracking an upload of `total` bytes, none of them sent.
    pub fn begin(&mut self, total: u64)
        ensures
            final(self).uploaded() == 0,
            final(self).total() == total,
    {
        *self = ProgressTracker { uploaded: 0, total };
    }

    /// Mark the tracked upload as finished: all of its bytes count as sent.
    pub fn complete(&mut self)
        ensures
            final(self).total() == old(self).total(),
            final(self).uploaded() == final(self).total(),
    {
        let total = self.total;
        *self = ProgressTracker { uploaded: total, total };
    }

    /// The current reading; `bytes_uploaded` never exceeds `total_bytes`.
    pub fn report(&self) -> (r: UploadProgress)
        ensures
            r == reading_of(*self),
            r.bytes_uploaded <= r.total_bytes,
    {
        proof {
            use_type_invariant(self);
        }
        UploadProgress { bytes_uploaded: self.uploaded, total_bytes: self.total }
    }
}

/// What a tracker reports.
pub open spec fn reading_of(t: ProgressTracker) -> UploadProgress {
    UploadProgress { bytes_uploaded: t.uploaded(), total_bytes: t.total() }
}

/// The share of the upload sent, in percent: `uploaded / total * 100`, and
/// 0 when the total is 0.
pub open spec fn percentage_of(p: UploadProgress) -> int {
    if p.total_bytes == 0 {
        0
    } else {
        p.bytes_uploaded * 100 / p.total_bytes as int
    }
}

/// Once an upload is completed, the reading counts every byte as sent:
/// for a non-empty file that is 100 percent.
pub proof fn lemma_completed_reading_is_whole(t: ProgressTracker)
    requires
        t.uploaded() == t.total(),
    ensures
        reading_of(t).bytes_uploaded == reading_of(t).total_bytes,
        reading_of(t).total_bytes > 0 ==> percentage_of(reading_of(t)) == 100,
{
    let n = t.total() as int;
    if n > 0 {
        assert(n * 100 / n == 100) by (nonlinear_arith)
            requires
                n > 0,
        ;
    }
}

/// The family of the file to upload, or the error that ends the upload
/// before any network call.
pub fn upload_family(path: &str) -> (r: Result<GoogleFileType, String>)
    ensures
        match family_of_path(path@) {
            Some(t) => r == Ok::<GoogleFileType, String>(t),
            None => r matches Err(e) && e@ == UNSUPPORTED_FILE_TYPE@,
        },
{
    match detect_file_type(path) {
        Some(t) => Ok(t),
        None => Err(String::from_str(UNSUPPORTED_FILE_TYPE)),
    }
}

/// What `mime_guess` gives for an extension (without its dot).
pub uninterp spec fn mime_of_extension(ext: Seq<char>) -> Seq<char>;

/// Relies on `mime_guess::from_ext(..).first_or_octet_stream()`: the first
/// MIME type known for the extension, `application/octet-stream` when none
/// is known or the extension is empty.
#[verifier::external_body]
fn guess_mime(ext: &str) -> (r: String)
    ensures
        r@ == mime_of_extension(ext@),
        ext@.len() == 0 ==> r@ == OCTET_STREAM@,
{
    mime_guess::from_ext(ext).first_or_octet_stream().to_string()
}

pub open spec fn source_mime_of(path: Seq<char>) -> Seq<char> {
    match extension_of(path) {
        Some(ext) => mime_of_extension(ext),
        None => OCTET_STREAM@,
    }
}

/// The MIME type of the file at `path`, guessed from its extension.
pub fn get_mime_type(path: &str) -> (r: String)
    ensures
        r@ == source_mime_of(path@),
{
    match extension(path) {
        Some(ext) => guess_mime(ext),
        None => String::from_str(OCTET_STREAM),
    }
}

/// Compact JSON of a file's metadata: `mimeType`, `name` and, for a target
/// folder, `parents`, keys in sorted order.
pub open spec fn metadata_json_of(name: Seq<char>, mime: Seq<char>, folder: Option<Seq<char>>) -> Seq<char> {
    "{\"mimeType\":"@ + json_string_of(mime) + ",\"name\":"@ + json_string_of(name) + match folder {
        Some(f) => ",\"parents\":["@ + json_string_of(f) + "]"@,
        None => Seq::<char>::empty(),
    } + "}"@
}

/// The metadata JSON of a file or folder to create.
pub fn metadata_json(name: &str, mime: &str, folder_id: Option<&str>) -> (r: String)
    ensures
        r@ == metadata_json_of(name@, mime@, match folder_id {
            Some(f) => Some(f@),
            None => None,
        }),
{
    let mut json = String::from_str("{\"mimeType\":");
    json.append(json_quote(mime).as_str());
    json.append(",\"name\":");
    json.append(json_quote(name).as_str());
    let ghost before = json@;
    match folder_id {
        Some(f) => {
            json.append(",\"parents\":[");
            json.append(json_quote(f).as_str());
            json.append("]");
        },
        None => {
            assert(before + Seq::<char>::empty() =~= before);
        },
    }
    json.append("}");
    json
}

/// The metadata JSON of an upload: its name, the conversion target of its
/// family, and the target folder if any.
pub fn upload_metadata(name: &str, family: GoogleFileType, folder_id: Option<&str>) -> (r: String)
    ensures
        r@ == metadata_json_of(name@, spec_google_mime_type(family), match folder_id {
            Some(f) => Some(f@),
            None => None,
        }),
{
    metadata_json(name, family.google_mime_type(), folder_id)
}

/// The text of a multipart body before the file's bytes.
pub open spec fn multipart_head_of(metadata: Seq<char>, file_mime: Seq<char>) -> Seq<char> {
    "--"@ + BOUNDARY@ + "\r\n"@ + "Content-Type: application/json; charset=UTF-8\r\n\r\n"@ + metadata
        + "\r\n"@ + "--"@ + BOUNDARY@ + "\r\n"@ + "Content-Type: "@ + file_mime + "\r\n\r\n"@
}

/// The text of a multipart body after the file's bytes.
pub open spec fn multipart_tail_of() -> Seq<char> {
    "\r\n"@ + "--"@ + BOUNDARY@ + "--"@
}

/// The multipart/related body: a JSON metadata part, then the file's bytes.
pub open spec fn multipart_body_of(metadata: Seq<char>, file_mime: Seq<char>, contents: Seq<u8>) -> Seq<u8> {
    encode_utf8(multipart_head_of(metadata, file_mime)) + contents + encode_utf8(multipart_tail_of())
}

fn push_bytes(out: &mut Vec<u8>, bytes: &[u8])
    ensures
        final(out)@ == old(out)@ + bytes@,
{
    let ghost start = out@;
    let mut i: usize = 0;
    while i < bytes.len()
        invariant
            i <= bytes@.len(),
            out@ == start + bytes@.subrange(0, i as int),
        decreases bytes@.len() - i,
    {
        out.push(bytes[i]);
        assert(bytes@.subrange(0, i + 1) =~= bytes@.subrange(0, i as int).push(bytes@[i as int]));
        i = i + 1;
    }
    assert(bytes@.subrange(0, i as int) =~= bytes@);
}

/// Build the body of an upload request.
pub fn multipart_body(metadata: &str, file_mime: &str, contents: &[u8]) -> (r: Vec<u8>)
    ensures
        r@ == multipart_body_of(metadata@, file_mime@, contents@),
{
    let mut head = String::from_str("--");
    head.append(BOUNDARY);
    head.append("\r\n");
    head.append("Content-Type: application/json; charset=UTF-8\r\n\r\n");
    head.append(metadata);
    head.append("\r\n");
    head.append("--");
    head.append(BOUNDARY);
    head.append("\r\n");
    head.append("Content-Type: ");
    head.append(file_mime);
    head.append("\r\n\r\n");
    let mut tail = String::from_str("\r\n");
    tail.append("--");
    tail.append(BOUNDARY);
    tail.append("--");
    let mut body: Vec<u8> = Vec::new();
    push_bytes(&mut body, head.as_str().as_bytes());
    push_bytes(&mut body, contents);
    push_bytes(&mut body, tail.as_str().as_bytes());
    assert(Seq::<u8>::empty() + encode_utf8(head@) =~= encode_utf8(head@));
    body
}

/// The `Content-Type` header of an upload request.
pub fn multipart_content_type() -> (r: String)
    ensures
        r@ == "multipart/related; boundary="@ + BOUNDARY@,
{
    let mut t = String::from_str("multipart/related; boundary=");
    t.append(BOUNDARY);
    t
}

/// The `Authorization` header for a bearer token.
pub fn bearer_header(token: &str) -> (r: String)
    ensures
        r@ == "Bearer "@ + token@,
{
    let mut h = String::from_str("Bearer ");
    h.append(token);
    h
}

/// The result of a successful upload: the remote file's id, name and link,
/// with the label of the family it was converted into.
pub fn upload_result(file_id: String, name: String, web_view_link: String, family: GoogleFileType) -> (r: UploadResult)
    ensures
        r.file_id == file_id,
        r.name == name,
        r.web_view_link == web_view_link,
        r.file_type@ == spec_display_name(family),
{
    UploadResult { file_id, name, web_view_link, file_type: String::from_str(family.display_name()) }
}

} // verus!
