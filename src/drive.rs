//! Requests against the remote file store's API other than uploads:
//! folder listing and creation, and links to converted files.

use vstd::prelude::*;
use vstd::string::*;
use crate::text::same_text;
use crate::encoding::{url_encode, url_encoded};
use crate::upload::{metadata_json, metadata_json_of};

verus! {

/// The base of the file store's API.
pub const DRIVE_API_BASE: &'static str = "https://www.googleapis.com/drive/v3";

pub const FOLDER_MIME: &'static str = "application/vnd.google-apps.folder";

/// A folder of the remote store.
#[derive(Debug, Clone)]
pub struct DriveFolder {
    pub id: String,
    pub name: String,
    pub mime_type: String,
}

pub open spec fn file_url_of(file_id: Seq<char>, file_type: Seq<char>) -> Seq<char> {
    if file_type == "application/vnd.google-apps.document"@ {
        "https://docs.google.com/document/d/"@ + file_id + "/edit"@
    } else if file_type == "application/vnd.google-apps.spreadsheet"@ {
        "https://docs.google.com/spreadsheets/d/"@ + file_id + "/edit"@
    } else if file_type == "application/vnd.google-apps.presentation"@ {
        "https://docs.google.com/presentation/d/"@ + file_id + "/edit"@
    } else {
        "https://drive.google.com/file/d/"@ + file_id + "/view"@
    }
}

fn wrap(prefix: &str, middle: &str, suffix: &str) -> (r: String)
    ensures
        r@ == prefix@ + middle@ + suffix@,
{
    let mut s = String::from_str(prefix);
    s.append(middle);
    s.append(suffix);
    s
}

/// The web link of a file: an editor link for a converted document, a
/// viewer link for anything else.
pub fn get_file_url(file_id: &str, file_type: &str) -> (r: String)
    ensures
        r@ == file_url_of(file_id@, file_type@),
{
    if same_text(file_type, "application/vnd.google-apps.document") {
        wrap("https://docs.google.com/document/d/", file_id, "/edit")
    } else if same_text(file_type, "application/vnd.google-apps.spreadsheet") {
        wrap("https://docs.google.com/spreadsheets/d/", file_id, "/edit")
    } else if same_text(file_type, "application/vnd.google-apps.presentation") {
        wrap("https://docs.google.com/presentation/d/", file_id, "/edit")
    } else {
        wrap("https://drive.google.com/file/d/", file_id, "/view")
    }
}

/// The search query for the folders directly under `parent`, or under the
/// root when there is none.
pub open spec fn folder_query_of(parent: Option<Seq<char>>) -> Seq<char> {
    "mimeType='application/vnd.google-apps.folder' and trashed=false and '"@ + match parent {
        Some(p) => p,
        None => "root"@,
    } + "' in parents"@
}

/// The search query for the folders directly under a parent.
pub fn folder_query(parent_id: Option<&str>) -> (r: String)
    ensures
        r@ == folder_query_of(match parent_id {
            Some(p) => Some(p@),
            None => None,
        }),
{
    let parent = match parent_id {
        Some(p) => p,
        None => "root",
    };
    wrap("mimeType='application/vnd.google-apps.folder' and trashed=false and '", parent, "' in parents")
}

/// The API path that lists the folders under a parent, by name.
pub fn list_folders_endpoint(parent_id: Option<&str>) -> (r: String)
    ensures
        r@ == "/files?q="@ + url_encoded(folder_query_of(match parent_id {
            Some(p) => Some(p@),
            None => None,
        })) + "&fields=files(id,name,mimeType)&orderBy=name&pageSize=100"@,
{
    let query = folder_query(parent_id);
    wrap("/files?q=", url_encode(query.as_str()).as_str(), "&fields=files(id,name,mimeType)&orderBy=name&pageSize=100")
}

/// The API path that creates a folder.
pub const CREATE_FOLDER_ENDPOINT: &'static str = "/files?fields=id,name,mimeType";

/// The JSON body that creates a folder named `name` under `parent_id`.
pub fn folder_metadata(name: &str, parent_id: Option<&str>) -> (r: String)
    ensures
        r@ == metadata_json_of(name@, FOLDER_MIME@, match parent_id {
            Some(p) => Some(p@),
            None => None,
        }),
{
    metadata_json(name, FOLDER_MIME, parent_id)
}

/// The full URL of an API path.
pub fn api_url(endpoint: &str) -> (r: String)
    ensures
        r@ == DRIVE_API_BASE@ + endpoint@,
{
    let mut url = String::from_str(DRIVE_API_BASE);
    url.append(endpoint);
    url
}

} // verus!
