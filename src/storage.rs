//! User settings and the recent-upload history kept with them.

use vstd::prelude::*;
use vstd::string::*;
use crate::text::same_text;

verus! {

/// How many uploads the history keeps.
pub const MAX_RECENT_FILES: usize = 10;

/// One past upload.
#[derive(Debug, Clone)]
pub struct RecentFile {
    pub id: String,
    pub name: String,
    pub path: String,
    pub google_url: String,
    pub file_type: String,
    pub uploaded_at: u64,
}

/// The user's settings.
#[derive(Debug, Clone)]
pub struct Settings {
    pub default_folder_id: Option<String>,
    pub default_folder_name: Option<String>,
    pub auto_open_after_upload: bool,
    pub auto_close_after_upload: bool,
    pub theme: String,
    pub recent_files: Vec<RecentFile>,
}

impl Settings {
    /// The settings of a first start: open after upload, keep the window,
    /// dark theme, no default folder and no history.
    pub fn new() -> (r: Settings)
        ensures
            r.default_folder_id is None,
            r.default_folder_name is None,
            r.auto_open_after_upload,
            !r.auto_close_after_upload,
            r.theme@ == "dark"@,
            r.recent_files@.len() == 0,
    {
        Settings {
            default_folder_id: None,
            default_folder_name: None,
            auto_open_after_upload: true,
            auto_close_after_upload: false,
            theme: String::from_str("dark"),
            recent_files: Vec::new(),
        }
    }
}

impl Default for Settings {
    /// Every field empty or off.
    fn default() -> (r: Settings)
        ensures
            r.default_folder_id is None,
            r.default_folder_name is None,
            !r.auto_open_after_upload,
            !r.auto_close_after_upload,
            r.theme@.len() == 0,
            r.recent_files@.len() == 0,
    {
        Settings {
            default_folder_id: None,
            default_folder_name: None,
            auto_open_after_upload: false,
            auto_close_after_upload: false,
            theme: String::new(),
            recent_files: Vec::new(),
        }
    }
}

/// `files` without the entries whose id is `id`, in order.
pub open spec fn without_id(files: Seq<RecentFile>, id: Seq<char>) -> Seq<RecentFile>
    decreases files.len(),
{
    if files.len() == 0 {
        files
    } else if files.last().id@ == id {
        without_id(files.drop_last(), id)
    } else {
        without_id(files.drop_last(), id).push(files.last())
    }
}

/// The history after recording `file`: it goes first, any earlier entry
/// with its id is dropped, and only the newest entries up to the limit stay.
pub open spec fn history_with(files: Seq<RecentFile>, file: RecentFile) -> Seq<RecentFile> {
    let all = seq![file] + without_id(files, file.id@);
    if all.len() > MAX_RECENT_FILES {
        all.subrange(0, MAX_RECENT_FILES as int)
    } else {
        all
    }
}

/// Record an upload in the history.
pub fn add_recent(files: Vec<RecentFile>, file: RecentFile) -> (r: Vec<RecentFile>)
    ensures
        r@ == history_with(files@, file),
{
    let ghost given = files@;
    let mut rest = files;
    let mut out: Vec<RecentFile> = Vec::new();
    let n = rest.len();
    let mut i: usize = 0;
    while rest.len() > 0
        invariant
            i + rest@.len() == given.len(),
            given.len() == n,
            rest@ == given.subrange(i as int, given.len() as int),
            out@ == without_id(given.subrange(0, i as int), file.id@),
        decreases rest@.len(),
    {
        let f = rest.remove(0);
        assert(given.subrange(0, i + 1).drop_last() =~= given.subrange(0, i as int));
        assert(given.subrange(0, i + 1).last() == f);
        if !same_text(f.id.as_str(), file.id.as_str()) {
            out.push(f);
        }
        i = i + 1;
        assert(rest@ =~= given.subrange(i as int, given.len() as int));
    }
    assert(given.subrange(0, i as int) =~= given);
    out.insert(0, file);
    assert(out@ =~= seq![file] + without_id(given, file.id@));
    out.truncate(MAX_RECENT_FILES);
    out
}

} // verus!
