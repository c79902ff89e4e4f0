use gopener::file_type::{detect_file_type, GoogleFileType};
use gopener::upload::{
    bearer_header, multipart_body, multipart_content_type, upload_family, upload_metadata,
    upload_result, ProgressTracker, UploadProgress,
};

fn percentage(p: &UploadProgress) -> f64 {
    if p.total_bytes > 0 {
        (p.bytes_uploaded as f64 / p.total_bytes as f64) * 100.0
    } else {
        0.0
    }
}

#[test]
fn upload_happy_path() {
    let path = "/tmp/report.csv";
    let family = detect_file_type(path).unwrap();
    assert_eq!(family, GoogleFileType::Spreadsheet);
    let metadata = upload_metadata("report.csv", family, None);
    assert!(metadata.contains("\"mimeType\":\"application/vnd.google-apps.spreadsheet\""));
    let contents = b"0123456789";
    let body = multipart_body(&metadata, "text/csv", contents);
    assert!(body.windows(10).any(|w| w == contents));
    let result = upload_result(
        "f1".to_string(),
        "report.csv".to_string(),
        "https://x".to_string(),
        family,
    );
    assert_eq!(result.file_id, "f1");
    assert_eq!(result.name, "report.csv");
    assert_eq!(result.web_view_link, "https://x");
    assert_eq!(result.file_type, "Google Sheets");
}

#[test]
fn unsupported_file_stops_upload() {
    assert_eq!(upload_family("photo.jpg").unwrap_err(), "Unsupported file type");
    assert_eq!(upload_family("a.ODS").unwrap(), GoogleFileType::Spreadsheet);
}

#[test]
fn metadata_with_folder_and_escaping() {
    assert_eq!(
        upload_metadata("a\"b.docx", GoogleFileType::Document, Some("fold")),
        "{\"mimeType\":\"application/vnd.google-apps.document\",\"name\":\"a\\\"b.docx\",\"parents\":[\"fold\"]}"
    );
}

#[test]
fn multipart_body_layout() {
    let body = multipart_body("{}", "text/plain", b"hi");
    let expected = "--gopener_boundary_12345\r\nContent-Type: application/json; charset=UTF-8\r\n\r\n{}\r\n--gopener_boundary_12345\r\nContent-Type: text/plain\r\n\r\nhi\r\n--gopener_boundary_12345--";
    assert_eq!(body, expected.as_bytes());
    assert_eq!(multipart_content_type(), "multipart/related; boundary=gopener_boundary_12345");
    assert_eq!(bearer_header("tok"), "Bearer tok");
}

#[test]
fn progress_is_whole_after_completion() {
    let mut t = ProgressTracker::new();
    assert_eq!(percentage(&t.report()), 0.0);
    t.begin(10);
    let start = t.report();
    assert_eq!(start, UploadProgress { bytes_uploaded: 0, total_bytes: 10 });
    assert_eq!(percentage(&start), 0.0);
    t.complete();
    let done = t.report();
    assert_eq!(done.bytes_uploaded, done.total_bytes);
    assert_eq!(percentage(&done), 100.0);
}

#[test]
fn empty_file_progress_stays_zero() {
    let mut t = ProgressTracker::new();
    t.begin(0);
    t.complete();
    let done = t.report();
    assert_eq!(done.bytes_uploaded, 0);
    assert_eq!(percentage(&done), 0.0);
}
