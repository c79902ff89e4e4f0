//! File classification: a path's extension decides which document family
//! a file is converted into, with no look at its content.

use vstd::prelude::*;
use vstd::string::*;
use crate::text::{
    last_pos, lemma_last_pos_bounds, ascii_lower_code, matches_ignoring_case, find_last,
    eq_ignoring_case,
};

verus! {

/// The document families that the remote store converts uploads into.
#[derive(Debug, Clone, Copy, PartialEq, Eq, Structural)]
pub enum GoogleFileType {
    Document,
    Spreadsheet,
    Presentation,
}

pub open spec fn spec_google_mime_type(t: GoogleFileType) -> Seq<char> {
    match t {
        GoogleFileType::Document => "application/vnd.google-apps.document"@,
        GoogleFileType::Spreadsheet => "application/vnd.google-apps.spreadsheet"@,
        GoogleFileType::Presentation => "application/vnd.google-apps.presentation"@,
    }
}

pub open spec fn spec_display_name(t: GoogleFileType) -> Seq<char> {
    match t {
        GoogleFileType::Document => "Google Docs"@,
        GoogleFileType::Spreadsheet => "Google Sheets"@,
        GoogleFileType::Presentation => "Google Slides"@,
    }
}

pub open spec fn spec_icon(t: GoogleFileType) -> Seq<char> {
    match t {
        GoogleFileType::Document => "📄"@,
        GoogleFileType::Spreadsheet => "📊"@,
        GoogleFileType::Presentation => "📽️"@,
    }
}

impl GoogleFileType {
    /// The MIME type that asks the remote store to convert into this family.
    pub fn google_mime_type(&self) -> (r: &'static str)
        ensures
            r@ == spec_google_mime_type(*self),
    {
        match self {
            GoogleFileType::Document => "application/vnd.google-apps.document",
            GoogleFileType::Spreadsheet => "application/vnd.google-apps.spreadsheet",
            GoogleFileType::Presentation => "application/vnd.google-apps.presentation",
        }
    }

    /// The label shown to a person for this family.
    pub fn display_name(&self) -> (r: &'static str)
        ensures
            r@ == spec_display_name(*self),
    {
        match self {
            GoogleFileType::Document => "Google Docs",
            GoogleFileType::Spreadsheet => "Google Sheets",
            GoogleFileType::Presentation => "Google Slides",
        }
    }

    /// A pictogram for this family.
    pub fn icon(&self) -> (r: &'static str)
        ensures
            r@ == spec_icon(*self),
    {
        match self {
            GoogleFileType::Document => "📄",
            GoogleFileType::Spreadsheet => "📊",
            GoogleFileType::Presentation => "📽️",
        }
    }
}

/// The length of a path once trailing `/` and `/.` are dropped: they name
/// no further component.
pub open spec fn trimmed_len(path: Seq<char>) -> int
    decreases path.len(),
{
    if path.len() > 0 && path.last() == '/' {
        trimmed_len(path.drop_last())
    } else if path.len() >= 2 && path.last() == '.' && path[path.len() - 2] == '/' {
        trimmed_len(path.drop_last())
    } else {
        path.len() as int
    }
}

proof fn lemma_trimmed_len_bounds(path: Seq<char>)
    ensures
        0 <= trimmed_len(path) <= path.len(),
    decreases path.len(),
{
    if path.len() > 0 {
        lemma_trimmed_len_bounds(path.drop_last());
    }
}

/// The last component of a path: what follows the last `/` once trailing
/// `/` and `/.` are dropped, unless that is empty, `.` or `..`.
pub open spec fn file_name_of(path: Seq<char>) -> Option<Seq<char>> {
    let trimmed = path.subrange(0, trimmed_len(path));
    let name = trimmed.subrange(last_pos(trimmed, '/') + 1, trimmed.len() as int);
    if name.len() == 0 || name == seq!['.'] || name == seq!['.', '.'] {
        None
    } else {
        Some(name)
    }
}

/// The extension of a path: what follows the last `.` of its file name,
/// where that dot is not the name's first character.
pub open spec fn extension_of(path: Seq<char>) -> Option<Seq<char>> {
    match file_name_of(path) {
        None => None,
        Some(name) => {
            let d = last_pos(name, '.');
            if d <= 0 {
                None
            } else {
                Some(name.subrange(d + 1, name.len() as int))
            }
        },
    }
}

/// The fixed extension table, in its canonical lower-case spelling.
pub open spec fn document_extensions() -> Seq<Seq<char>> {
    seq!["doc"@, "docx"@, "odt"@, "rtf"@, "txt"@]
}

pub open spec fn spreadsheet_extensions() -> Seq<Seq<char>> {
    seq!["xls"@, "xlsx"@, "ods"@, "csv"@, "tsv"@]
}

pub open spec fn presentation_extensions() -> Seq<Seq<char>> {
    seq!["ppt"@, "pptx"@, "odp"@]
}

pub open spec fn supported_table() -> Seq<Seq<char>> {
    document_extensions() + spreadsheet_extensions() + presentation_extensions()
}

/// `ext` spells, up to ASCII case, one of the entries of `words`.
pub open spec fn in_word_list(ext: Seq<char>, words: Seq<Seq<char>>) -> bool {
    exists|i: int| 0 <= i < words.len() && matches_ignoring_case(ext, #[trigger] words[i])
}

/// The family that an extension selects, compared without regard to the
/// case of ASCII letters.
pub open spec fn family_of_extension(ext: Seq<char>) -> Option<GoogleFileType> {
    if in_word_list(ext, document_extensions()) {
        Some(GoogleFileType::Document)
    } else if in_word_list(ext, spreadsheet_extensions()) {
        Some(GoogleFileType::Spreadsheet)
    } else if in_word_list(ext, presentation_extensions()) {
        Some(GoogleFileType::Presentation)
    } else {
        None
    }
}

/// The family of the file at `path`.
pub open spec fn family_of_path(path: Seq<char>) -> Option<GoogleFileType> {
    match extension_of(path) {
        None => None,
        Some(ext) => family_of_extension(ext),
    }
}

/// Extensions that agree up to the case of ASCII letters select the same
/// family (so `DOCX` and `docx` agree).
pub proof fn lemma_family_ignores_case(a: Seq<char>, b: Seq<char>)
    requires
        a.len() == b.len(),
        forall|i: int| 0 <= i < a.len() ==> ascii_lower_code(#[trigger] a[i]) == ascii_lower_code(b[i]),
    ensures
        family_of_extension(a) == family_of_extension(b),
{
    assert forall|w: Seq<char>| matches_ignoring_case(a, w) == matches_ignoring_case(b, w) by {
        if matches_ignoring_case(a, w) {
            assert forall|i: int| 0 <= i < b.len() implies ascii_lower_code(#[trigger] b[i]) == w[i] as int by {
                assert(ascii_lower_code(a[i]) == w[i] as int);
            }
        }
        if matches_ignoring_case(b, w) {
            assert forall|i: int| 0 <= i < a.len() implies ascii_lower_code(#[trigger] a[i]) == w[i] as int by {
                assert(ascii_lower_code(b[i]) == w[i] as int);
            }
        }
    }
}

proof fn lemma_word_matches_itself(w: Seq<char>)
    requires
        forall|i: int| 0 <= i < w.len() ==> 97 <= #[trigger] (w[i] as int) <= 122,
    ensures
        matches_ignoring_case(w, w),
{
}

proof fn lemma_reveal_table()
    ensures
        document_extensions() == seq![seq!['d', 'o', 'c'], seq!['d', 'o', 'c', 'x'], seq!['o', 'd', 't'],
            seq!['r', 't', 'f'], seq!['t', 'x', 't']],
        spreadsheet_extensions() == seq![seq!['x', 'l', 's'], seq!['x', 'l', 's', 'x'], seq!['o', 'd', 's'],
            seq!['c', 's', 'v'], seq!['t', 's', 'v']],
        presentation_extensions() == seq![seq!['p', 'p', 't'], seq!['p', 'p', 't', 'x'], seq!['o', 'd', 'p']],
{
    reveal_strlit("doc");
    assert("doc"@ =~= seq!['d', 'o', 'c']);
    reveal_strlit("docx");
    assert("docx"@ =~= seq!['d', 'o', 'c', 'x']);
    reveal_strlit("odt");
    assert("odt"@ =~= seq!['o', 'd', 't']);
    reveal_strlit("rtf");
    assert("rtf"@ =~= seq!['r', 't', 'f']);
    reveal_strlit("txt");
    assert("txt"@ =~= seq!['t', 'x', 't']);
    reveal_strlit("xls");
    assert("xls"@ =~= seq!['x', 'l', 's']);
    reveal_strlit("xlsx");
    assert("xlsx"@ =~= seq!['x', 'l', 's', 'x']);
    reveal_strlit("ods");
    assert("ods"@ =~= seq!['o', 'd', 's']);
    reveal_strlit("csv");
    assert("csv"@ =~= seq!['c', 's', 'v']);
    reveal_strlit("tsv");
    assert("tsv"@ =~= seq!['t', 's', 'v']);
    reveal_strlit("ppt");
    assert("ppt"@ =~= seq!['p', 'p', 't']);
    reveal_strlit("pptx");
    assert("pptx"@ =~= seq!['p', 'p', 't', 'x']);
    reveal_strlit("odp");
    assert("odp"@ =~= seq!['o', 'd', 'p']);
    assert(document_extensions() =~= seq![seq!['d', 'o', 'c'], seq!['d', 'o', 'c', 'x'], seq!['o', 'd', 't'],
        seq!['r', 't', 'f'], seq!['t', 'x', 't']]);
    assert(spreadsheet_extensions() =~= seq![seq!['x', 'l', 's'], seq!['x', 'l', 's', 'x'], seq!['o', 'd', 's'],
        seq!['c', 's', 'v'], seq!['t', 's', 'v']]);
    assert(presentation_extensions() =~= seq![seq!['p', 'p', 't'], seq!['p', 'p', 't', 'x'], seq!['o', 'd', 'p']]);
}

/// `w`, a word of one list, matches no word of `other`, the words of each
/// list being told apart by one of their first three letters or by length.
proof fn lemma_outside_list(w: Seq<char>, other: Seq<Seq<char>>)
    requires
        w.len() >= 3,
        forall|i: int| 0 <= i < w.len() ==> 97 <= #[trigger] (w[i] as int) <= 122,
        forall|j: int| 0 <= j < other.len() ==> (#[trigger] other[j]).len() != w.len()
            || other[j][0] as int != w[0] as int || other[j][1] as int != w[1] as int
            || other[j][2] as int != w[2] as int,
    ensures
        !in_word_list(w, other),
{
    assert forall|j: int| 0 <= j < other.len() implies !matches_ignoring_case(w, #[trigger] other[j]) by {
        if other[j].len() == w.len() {
            if other[j][0] as int != w[0] as int {
                assert(ascii_lower_code(w[0]) != other[j][0] as int);
            } else if other[j][1] as int != w[1] as int {
                assert(ascii_lower_code(w[1]) != other[j][1] as int);
            } else {
                assert(ascii_lower_code(w[2]) != other[j][2] as int);
            }
        }
    }
}

/// Every document extension of the fixed table selects `Document`.
pub proof fn lemma_document_table()
    ensures
        forall|i: int| 0 <= i < document_extensions().len()
            ==> family_of_extension(#[trigger] document_extensions()[i]) == Some(GoogleFileType::Document),
{
    lemma_reveal_table();
    assert forall|i: int| 0 <= i < document_extensions().len()
        implies family_of_extension(#[trigger] document_extensions()[i]) == Some(GoogleFileType::Document) by {
        lemma_word_matches_itself(document_extensions()[i]);
    }
}

/// Every spreadsheet extension of the fixed table selects `Spreadsheet`.
pub proof fn lemma_spreadsheet_table()
    ensures
        forall|i: int| 0 <= i < spreadsheet_extensions().len()
            ==> family_of_extension(#[trigger] spreadsheet_extensions()[i]) == Some(GoogleFileType::Spreadsheet),
{
    lemma_reveal_table();
    assert forall|i: int| 0 <= i < spreadsheet_extensions().len()
        implies family_of_extension(#[trigger] spreadsheet_extensions()[i]) == Some(GoogleFileType::Spreadsheet) by {
        let w = spreadsheet_extensions()[i];
        lemma_word_matches_itself(w);
        lemma_outside_list(w, document_extensions());
    }
}

/// Every presentation extension of the fixed table selects `Presentation`.
pub proof fn lemma_presentation_table()
    ensures
        forall|i: int| 0 <= i < presentation_extensions().len()
            ==> family_of_extension(#[trigger] presentation_extensions()[i]) == Some(GoogleFileType::Presentation),
{
    lemma_reveal_table();
    assert forall|i: int| 0 <= i < presentation_extensions().len()
        implies family_of_extension(#[trigger] presentation_extensions()[i]) == Some(GoogleFileType::Presentation) by {
        let w = presentation_extensions()[i];
        lemma_word_matches_itself(w);
        lemma_outside_list(w, document_extensions());
        lemma_outside_list(w, spreadsheet_extensions());
    }
}

/// A path without an extension selects no family.
pub proof fn lemma_no_extension_no_family(path: Seq<char>)
    requires
        extension_of(path) is None,
    ensures
        family_of_path(path) is None,
{
}

/// Whether `ext` matches some entry of `words`, read in lower case.
fn in_list(ext: &str, words: &Vec<&str>, table: Ghost<Seq<Seq<char>>>) -> (r: bool)
    requires
        words@.len() == table@.len(),
        forall|i: int| 0 <= i < words@.len() ==> #[trigger] words@[i]@ == table@[i],
    ensures
        r == in_word_list(ext@, table@),
{
    let mut i: usize = 0;
    while i < words.len()
        invariant
            i <= words@.len(),
            words@.len() == table@.len(),
            forall|j: int| 0 <= j < words@.len() ==> #[trigger] words@[j]@ == table@[j],
            forall|j: int| 0 <= j < i ==> !matches_ignoring_case(ext@, #[trigger] words@[j]@),
        decreases words@.len() - i,
    {
        if eq_ignoring_case(ext, words[i]) {
            assert(matches_ignoring_case(ext@, table@[i as int]));
            return true;
        }
        i = i + 1;
    }
    assert forall|j: int| 0 <= j < table@.len() implies !matches_ignoring_case(ext@, #[trigger] table@[j]) by {
        assert(words@[j]@ == table@[j]);
    }
    false
}

fn document_words() -> (r: Vec<&'static str>)
    ensures
        r@.len() == document_extensions().len(),
        forall|i: int| 0 <= i < r@.len() ==> #[trigger] r@[i]@ == document_extensions()[i],
{
    vec!["doc", "docx", "odt", "rtf", "txt"]
}

fn spreadsheet_words() -> (r: Vec<&'static str>)
    ensures
        r@.len() == spreadsheet_extensions().len(),
        forall|i: int| 0 <= i < r@.len() ==> #[trigger] r@[i]@ == spreadsheet_extensions()[i],
{
    vec!["xls", "xlsx", "ods", "csv", "tsv"]
}

fn presentation_words() -> (r: Vec<&'static str>)
    ensures
        r@.len() == presentation_extensions().len(),
        forall|i: int| 0 <= i < r@.len() ==> #[trigger] r@[i]@ == presentation_extensions()[i],
{
    vec!["ppt", "pptx", "odp"]
}

/// The family that an extension (without its dot) selects.
pub fn family_for_extension(ext: &str) -> (r: Option<GoogleFileType>)
    ensures
        r == family_of_extension(ext@),
{
    let docs = document_words();
    let sheets = spreadsheet_words();
    let slides = presentation_words();
    if in_list(ext, &docs, Ghost(document_extensions())) {
        Some(GoogleFileType::Document)
    } else if in_list(ext, &sheets, Ghost(spreadsheet_extensions())) {
        Some(GoogleFileType::Spreadsheet)
    } else if in_list(ext, &slides, Ghost(presentation_extensions())) {
        Some(GoogleFileType::Presentation)
    } else {
        None
    }
}

/// The file name of `path`, as `file_name_of` describes it.
pub fn file_name(path: &str) -> (r: Option<&str>)
    ensures
        match r {
            Some(n) => file_name_of(path@) == Some(n@),
            None => file_name_of(path@) is None,
        },
{
    let n = path.unicode_len();
    let mut end: usize = n;
    assert(path@.subrange(0, n as int) =~= path@);
    while end > 0 && (path.get_char(end - 1) == '/' || (end >= 2 && path.get_char(end - 1) == '.'
        && path.get_char(end - 2) == '/'))
        invariant
            end <= n,
            n == path@.len(),
            trimmed_len(path@) == trimmed_len(path@.subrange(0, end as int)),
        decreases end,
    {
        assert(path@.subrange(0, end as int).drop_last() =~= path@.subrange(0, end - 1));
        end = end - 1;
    }
    proof {
        lemma_trimmed_len_bounds(path@.subrange(0, end as int));
    }
    let trimmed = path.substring_char(0, end);
    proof {
        lemma_last_pos_bounds(trimmed@, '/');
    }
    let start: usize = match find_last(trimmed, '/') {
        Some(i) => i + 1,
        None => 0,
    };
    let name = trimmed.substring_char(start, end);
    let len = name.unicode_len();
    if len == 0 {
        return None;
    }
    if len <= 2 && name.get_char(0) == '.' && (len == 1 || name.get_char(1) == '.') {
        if len == 1 {
            assert(name@ =~= seq!['.']);
        } else {
            assert(name@ =~= seq!['.', '.']);
        }
        return None;
    }
    assert(name@ != seq!['.'] && name@ != seq!['.', '.']) by {
        if name@ == seq!['.'] {
            assert(name@[0] == '.');
        }
        if name@ == seq!['.', '.'] {
            assert(name@[0] == '.' && name@[1] == '.');
        }
    }
    Some(name)
}

/// The extension of `path`, as `extension_of` describes it.
pub fn extension(path: &str) -> (r: Option<&str>)
    ensures
        match r {
            Some(e) => extension_of(path@) == Some(e@),
            None => extension_of(path@) is None,
        },
{
    match file_name(path) {
        None => None,
        Some(name) => {
            let len = name.unicode_len();
            match find_last(name, '.') {
                None => None,
                Some(d) => {
                    proof {
                        lemma_last_pos_bounds(name@, '.');
                    }
                    if d == 0 {
                        None
                    } else {
                        Some(name.substring_char(d + 1, len))
                    }
                },
            }
        },
    }
}

/// Detect the family of a file from its path, by its extension alone.
pub fn detect_file_type(path: &str) -> (r: Option<GoogleFileType>)
    ensures
        r == family_of_path(path@),
{
    match extension(path) {
        None => None,
        Some(ext) => family_for_extension(ext),
    }
}

/// Whether an extension (without its dot) is one of the supported ones.
pub fn is_supported_extension(extension: &str) -> (r: bool)
    ensures
        r == family_of_extension(extension@) is Some,
{
    family_for_extension(extension).is_some()
}

/// The supported extensions, in lower case.
pub fn supported_extensions() -> (r: Vec<&'static str>)
    ensures
        r@.len() == supported_table().len(),
        forall|i: int| 0 <= i < r@.len() ==> #[trigger] r@[i]@ == supported_table()[i],
{
    let mut all = document_words();
    let mut sheets = spreadsheet_words();
    let mut slides = presentation_words();
    all.append(&mut sheets);
    all.append(&mut slides);
    all
}

/// What is shown of a local file before it is uploaded.
#[derive(Debug, Clone)]
pub struct FileInfo {
    pub path: String,
    pub name: String,
    pub extension: String,
    pub size: u64,
    pub file_type: Option<String>,
    pub google_type: Option<String>,
}

pub open spec fn or_empty(v: Option<Seq<char>>) -> Seq<char> {
    match v {
        Some(s) => s,
        None => Seq::<char>::empty(),
    }
}

/// Describe the file at `path`, of `size` bytes: its name and extension
/// (empty when absent) and, for a supported extension, its family's label
/// and conversion MIME type.
pub fn file_info(path: &str, size: u64) -> (r: FileInfo)
    ensures
        r.path@ == path@,
        r.name@ == or_empty(file_name_of(path@)),
        r.extension@ == or_empty(extension_of(path@)),
        r.size == size,
        r.file_type.deep_view() == match family_of_path(path@) {
            Some(t) => Some(spec_display_name(t)),
            None => None,
        },
        r.google_type.deep_view() == match family_of_path(path@) {
            Some(t) => Some(spec_google_mime_type(t)),
            None => None,
        },
{
    let name = match file_name(path) {
        Some(n) => String::from_str(n),
        None => String::new(),
    };
    let ext = match extension(path) {
        Some(e) => String::from_str(e),
        None => String::new(),
    };
    let family = detect_file_type(path);
    let (file_type, google_type) = match family {
        Some(t) => (Some(String::from_str(t.display_name())), Some(String::from_str(t.google_mime_type()))),
        None => (None, None),
    };
    FileInfo { path: String::from_str(path), name, extension: ext, size, file_type, google_type }
}

} // verus!
