use gopener::file_type::{
    detect_file_type, file_info, is_supported_extension, supported_extensions, GoogleFileType,
};
use gopener::upload::get_mime_type;

#[test]
fn test_google_file_type_mime_types() {
    assert_eq!(
        GoogleFileType::Document.google_mime_type(),
        "application/vnd.google-apps.document"
    );
    assert_eq!(
        GoogleFileType::Spreadsheet.google_mime_type(),
        "application/vnd.google-apps.spreadsheet"
    );
    assert_eq!(
        GoogleFileType::Presentation.google_mime_type(),
        "application/vnd.google-apps.presentation"
    );
}

#[test]
fn test_google_file_type_display_names() {
    assert_eq!(GoogleFileType::Document.display_name(), "Google Docs");
    assert_eq!(GoogleFileType::Spreadsheet.display_name(), "Google Sheets");
    assert_eq!(GoogleFileType::Presentation.display_name(), "Google Slides");
}

#[test]
fn test_google_file_type_icons() {
    assert_eq!(GoogleFileType::Document.icon(), "📄");
    assert_eq!(GoogleFileType::Spreadsheet.icon(), "📊");
    assert_eq!(GoogleFileType::Presentation.icon(), "📽️");
}

#[test]
fn test_detect_document_types() {
    for ext in &["doc", "docx", "odt", "rtf", "txt"] {
        let filename = format!("test.{}", ext);
        assert_eq!(
            detect_file_type(&filename),
            Some(GoogleFileType::Document),
            "Failed for extension: {}",
            ext
        );
    }
}

#[test]
fn test_detect_spreadsheet_types() {
    for ext in &["xls", "xlsx", "ods", "csv", "tsv"] {
        let filename = format!("test.{}", ext);
        assert_eq!(
            detect_file_type(&filename),
            Some(GoogleFileType::Spreadsheet),
            "Failed for extension: {}",
            ext
        );
    }
}

#[test]
fn test_detect_presentation_types() {
    for ext in &["ppt", "pptx", "odp"] {
        let filename = format!("test.{}", ext);
        assert_eq!(
            detect_file_type(&filename),
            Some(GoogleFileType::Presentation),
            "Failed for extension: {}",
            ext
        );
    }
}

#[test]
fn test_detect_unsupported_types() {
    for ext in &["pdf", "jpg", "png", "zip", "exe", "mp4"] {
        let filename = format!("test.{}", ext);
        assert_eq!(
            detect_file_type(&filename),
            None,
            "Should be None for extension: {}",
            ext
        );
    }
}

#[test]
fn test_detect_no_extension() {
    assert_eq!(detect_file_type("README"), None);
}

#[test]
fn test_detect_with_path() {
    assert_eq!(
        detect_file_type("/home/user/documents/report.docx"),
        Some(GoogleFileType::Document)
    );
}

#[test]
fn test_get_mime_type() {
    assert_eq!(
        get_mime_type("test.docx"),
        "application/vnd.openxmlformats-officedocument.wordprocessingml.document"
    );
    assert_eq!(get_mime_type("test.txt"), "text/plain");
    assert_eq!(get_mime_type("test.csv"), "text/csv");
}

#[test]
fn test_get_mime_type_unknown() {
    assert_eq!(get_mime_type("test.unknownext"), "application/octet-stream");
}

#[test]
fn test_is_supported_extension() {
    assert!(is_supported_extension("doc"));
    assert!(is_supported_extension("docx"));
    assert!(is_supported_extension("xlsx"));
    assert!(is_supported_extension("pptx"));
    assert!(is_supported_extension("csv"));
    assert!(is_supported_extension("odp"));
}

#[test]
fn test_is_supported_extension_case_insensitive() {
    assert!(is_supported_extension("DOCX"));
    assert!(is_supported_extension("Xlsx"));
    assert!(is_supported_extension("PPT"));
}

#[test]
fn test_unsupported_extension() {
    assert!(!is_supported_extension("pdf"));
    assert!(!is_supported_extension("jpg"));
    assert!(!is_supported_extension("zip"));
    assert!(!is_supported_extension("exe"));
}

#[test]
fn test_supported_extensions_list() {
    let exts = supported_extensions();
    assert_eq!(exts.len(), 13);
    assert!(exts.contains(&"doc"));
    assert!(exts.contains(&"docx"));
    assert!(exts.contains(&"xlsx"));
    assert!(exts.contains(&"pptx"));
    assert!(exts.contains(&"csv"));
    assert!(exts.contains(&"odp"));
}

#[test]
fn detect_ignores_ascii_case() {
    assert_eq!(detect_file_type("a/b.DOCX"), detect_file_type("a/b.docx"));
    assert_eq!(detect_file_type("Sheet.CsV"), Some(GoogleFileType::Spreadsheet));
    assert_eq!(detect_file_type("deck.PPTX"), Some(GoogleFileType::Presentation));
}

#[test]
fn every_table_extension_has_one_family() {
    for ext in supported_extensions() {
        assert!(detect_file_type(&format!("x.{}", ext)).is_some());
        assert!(is_supported_extension(&ext.to_uppercase()));
    }
}

#[test]
fn detect_edge_paths() {
    assert_eq!(detect_file_type(".docx"), None);
    assert_eq!(detect_file_type("notes."), None);
    assert_eq!(detect_file_type("archive.tar.csv"), Some(GoogleFileType::Spreadsheet));
    assert_eq!(detect_file_type(""), None);
    assert_eq!(detect_file_type("a.docx.pdf"), None);
    assert_eq!(detect_file_type("dir/report.docx/"), Some(GoogleFileType::Document));
    assert_eq!(detect_file_type("foo.txt/."), Some(GoogleFileType::Document));
    assert_eq!(detect_file_type("foo.txt/.//"), Some(GoogleFileType::Document));
    assert_eq!(detect_file_type("foo.txt/.."), None);
    assert_eq!(detect_file_type("/"), None);
}

#[test]
fn file_name_ignores_trailing_separators() {
    assert_eq!(file_info("/usr/bin/", 0).name, "bin");
    assert_eq!(file_info("/", 0).name, "");
    assert_eq!(file_info("..", 0).name, "");
}

#[test]
fn mime_type_without_extension_is_octet_stream() {
    assert_eq!(get_mime_type("README"), "application/octet-stream");
}

#[test]
fn file_info_describes_path() {
    let info = file_info("/tmp/gopener_test_file.docx", 12);
    assert_eq!(info.name, "gopener_test_file.docx");
    assert_eq!(info.extension, "docx");
    assert_eq!(info.size, 12);
    assert_eq!(info.file_type, Some("Google Docs".to_string()));
    assert_eq!(
        info.google_type,
        Some("application/vnd.google-apps.document".to_string())
    );
    let other = file_info("notes", 0);
    assert_eq!(other.extension, "");
    assert_eq!(other.file_type, None);
}
