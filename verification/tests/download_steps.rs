use downlowd::attempt::{
    check_cancelled, check_response_status, is_partial_content, range_not_satisfiable,
    resume_headers, should_skip, verify_unchanged,
};
use downlowd::error::Error;
use downlowd::file_info::{FileInfo, SidecarChange};
use downlowd::request::{request_step_name, was_redirected};
use downlowd::head::Head;
use downlowd::into_url::IntoUrlSealed;
use downlowd::paths::{add_extension, filename_from_path, Destination};
use downlowd::ProgressHandle;
use http::{HeaderMap, HeaderValue};

fn info(len: Option<u64>, lm: Option<&str>, etag: Option<&str>) -> FileInfo {
    FileInfo {
        content_length: len,
        last_modified: lm.map(str::to_string),
        etag: etag.map(str::to_string),
    }
}

fn handle(bytes: u64, file_info: FileInfo) -> ProgressHandle {
    ProgressHandle::new(
        url::Url::parse("http://example.com/dir/file.txt").unwrap(),
        None,
        Destination::new("out/my-file.txt".to_string()),
        file_info,
        bytes,
    )
}

#[test]
fn skipping_needs_equal_known_lengths() {
    assert!(should_skip(Some(11), Some(11)));
    assert!(!should_skip(Some(10), Some(11)));
    assert!(!should_skip(None, Some(11)));
    assert!(!should_skip(Some(11), None));
}

#[test]
fn response_statuses() {
    assert!(check_response_status(200).is_ok());
    assert!(check_response_status(206).is_ok());
    assert!(check_response_status(416).is_ok());
    assert!(matches!(
        check_response_status(404),
        Err(Error::UnexpectedStatus { status: 404 })
    ));
    assert!(matches!(
        check_response_status(302),
        Err(Error::UnexpectedStatus { status: 302 })
    ));
    assert!(is_partial_content(206));
    assert!(!is_partial_content(200));
    assert!(range_not_satisfiable(Some(11), 11).is_ok());
    assert!(matches!(
        range_not_satisfiable(Some(12), 11),
        Err(Error::FileChanged { description: "range not satisfiable" })
    ));
    assert!(range_not_satisfiable(None, 11).is_err());
}

#[test]
fn resume_headers_prefer_etag() {
    let p = handle(5, info(None, Some("yesterday"), Some("test-etag")));
    assert_eq!(
        resume_headers(&p),
        Some(("bytes=5-".to_string(), "test-etag".to_string()))
    );
    let p = handle(5, info(None, Some("yesterday"), None));
    assert_eq!(
        resume_headers(&p),
        Some(("bytes=5-".to_string(), "yesterday".to_string()))
    );
    assert_eq!(resume_headers(&handle(5, info(Some(9), None, None))), None);
    assert_eq!(resume_headers(&handle(0, info(None, None, Some("e")))), None);
}

#[test]
fn changed_files_are_detected() {
    let local = info(Some(11), Some("a"), Some("e1"));
    assert!(verify_unchanged(&local, &info(Some(11), Some("a"), Some("e1"))).is_ok());
    assert!(verify_unchanged(&local, &info(None, None, None)).is_ok());
    assert!(matches!(
        verify_unchanged(&local, &info(Some(11), Some("a"), Some("e2"))),
        Err(Error::FileChanged { description: "etag changed" })
    ));
    assert!(matches!(
        verify_unchanged(&local, &info(Some(11), Some("b"), Some("e1"))),
        Err(Error::FileChanged { description: "last modified changed" })
    ));
    assert!(matches!(
        verify_unchanged(&local, &info(Some(12), Some("a"), None)),
        Err(Error::FileChanged { description: "length changed" })
    ));
}

#[test]
fn remote_info_from_responses() {
    let mut h = HeaderMap::new();
    h.insert("content-length", HeaderValue::from_static("6"));
    h.insert("etag", HeaderValue::from_static("test-etag"));
    let full = FileInfo::from_response(200, &h, 5);
    assert_eq!(full.content_length, Some(6));
    assert_eq!(full.etag, Some("test-etag".to_string()));
    assert_eq!(full.last_modified, None);
    let partial = FileInfo::from_response(206, &h, 5);
    assert_eq!(partial.content_length, Some(11));
}

#[test]
fn progress_handle_reports_progress() {
    let mut p = handle(5, info(Some(11), None, Some("e")));
    assert_eq!(p.bytes(), 5);
    assert_eq!(p.is_complete(), Some(false));
    p.record_chunk(6);
    assert_eq!(p.delta(), 6);
    assert_eq!(p.bytes(), 11);
    assert_eq!(p.bytes_transferred, 6);
    assert_eq!(p.is_complete(), Some(true));
    assert_eq!(p.total_bytes(), Some(11));
    assert_eq!(p.etag(), Some("e"));
    assert_eq!(p.last_modified(), None);
    assert_eq!(p.destination(), "out/my-file.txt");
    assert_eq!(p.url().as_str(), "http://example.com/dir/file.txt");
    assert!(check_cancelled(&p).is_ok());
    p.cancel();
    assert!(matches!(check_cancelled(&p), Err(Error::Cancelled)));
    p.reset();
    assert_eq!(p.bytes(), 0);
    assert_eq!(p.total_bytes(), None);
    assert_eq!(p.is_complete(), None);
}

#[test]
fn part_and_sidecar_files() {
    assert_eq!(add_extension("file.tar", "part"), "file.tar.part");
    assert_eq!(add_extension("dir/file", "part"), "dir/file.part");
    let d = Destination::new("out/my-file.txt".to_string());
    assert_eq!(d.part_file, "out/my-file.txt.part");
    assert_eq!(d.sidecar_file, "out/my-file.txt.downloadinfo");
}

#[test]
fn file_names_from_url_paths() {
    assert_eq!(filename_from_path("/dir/file.txt"), Some("file.txt".to_string()));
    assert_eq!(filename_from_path("/dir/"), None);
    assert_eq!(filename_from_path("name"), Some("name".to_string()));
    assert_eq!(filename_from_path(""), None);
}

#[test]
fn head_information() {
    let url = url::Url::parse("http://example.com/dir/hello.txt").unwrap();
    let mut h = HeaderMap::new();
    h.insert("content-length", HeaderValue::from_static("11"));
    let head = Head::create_inner(200, &h, &url, None).unwrap();
    assert_eq!(head.get_remote_file_name(), "hello.txt");
    assert_eq!(head.get_remote_file_length(), Some(11));
    h.insert(
        "content-disposition",
        HeaderValue::from_static("attachment; filename=\"other.txt\""),
    );
    let head = Head::create_inner(200, &h, &url, None).unwrap();
    assert_eq!(head.get_remote_file_name(), "other.txt");
    assert!(matches!(
        Head::create_inner(404, &h, &url, None),
        Err(Error::UnexpectedStatus { status: 404 })
    ));
    let head = Head::default();
    assert_eq!(head.get_remote_file_name(), "file");
    assert_eq!(head.get_remote_file_length(), None);
}

#[test]
fn urls_are_parsed() {
    let u = "http://example.com/a".into_url().unwrap();
    assert_eq!(u.as_str(), "http://example.com/a");
    let u = String::from("https://example.com/b").into_url().unwrap();
    assert_eq!(u.path(), "/b");
    let uri: http::Uri = "http://example.com/c".parse().unwrap();
    assert_eq!(uri.into_url().unwrap().path(), "/c");
    let uri: http::Uri = "https://example.com/d?x=1".parse().unwrap();
    assert_eq!((&uri).into_url().unwrap().as_str(), "https://example.com/d?x=1");
    let relative: http::Uri = "/only/a/path".parse().unwrap();
    assert!(matches!(relative.into_url(), Err(Error::InvalidUrl { .. })));
    assert!(matches!(
        "not a url".into_url(),
        Err(Error::InvalidUrl { .. })
    ));
    let parsed = url::Url::parse("http://example.com/d").unwrap();
    assert_eq!((&parsed).into_url().unwrap(), parsed);
}

#[test]
fn download_results() {
    let result = downlowd::DownloadResult::new(2, std::path::PathBuf::from("out/a.txt"), 11);
    let copy = result.clone();
    assert_eq!(copy.tries, 2);
    assert_eq!(copy.path, std::path::PathBuf::from("out/a.txt"));
    assert_eq!(copy.bytes_downloaded, 11);
    let skipped = downlowd::DownloadResult::skipped(std::path::PathBuf::from("b"));
    assert_eq!(skipped.tries, 0);
    assert_eq!(skipped.bytes_downloaded, 0);
}

#[test]
fn head_name_from_url_path_when_no_disposition() {
    let h = HeaderMap::new();
    let url = url::Url::parse("http://example.com/a/b/report.pdf?x=1").unwrap();
    let head = Head::create_inner(200, &h, &url, None).unwrap();
    assert_eq!(head.filename, Some("report.pdf".to_string()));
    let url = url::Url::parse("http://example.com/a/").unwrap();
    let head = Head::create_inner(200, &h, &url, None).unwrap();
    assert_eq!(head.filename, None);
    assert_eq!(head.get_remote_file_name(), "file");
}

#[test]
fn transfer_start_resets_delta_and_maybe_bytes() {
    let mut p = handle(40, info(Some(100), None, Some("e")));
    p.record_chunk(10);
    assert_eq!(p.delta(), 10);
    p.start_transfer(true);
    assert_eq!(p.delta(), 0);
    assert_eq!(p.bytes(), 50);
    assert_eq!(p.bytes_transferred, 10);
    p.record_chunk(5);
    p.start_transfer(false);
    assert_eq!(p.delta(), 0);
    assert_eq!(p.bytes(), 0);
    assert_eq!(p.bytes_transferred, 15);
}

#[test]
fn sidecar_changes() {
    let mut i = info(Some(10), None, Some("e"));
    assert!(matches!(
        i.sidecar_update(Some(10), None, Some("e")),
        SidecarChange::Unchanged
    ));
    match i.sidecar_update(Some(11), None, Some("e")) {
        SidecarChange::Write(text) => assert_eq!(text, i.serialize()),
        _ => panic!("expected the sidecar to be rewritten"),
    }
    assert_eq!(i.content_length, Some(11));
    assert!(matches!(i.sidecar_update(None, None, None), SidecarChange::Remove));
    assert!(matches!(i.sidecar_update(None, None, None), SidecarChange::Unchanged));
}

#[test]
fn request_steps_and_redirects() {
    assert_eq!(request_step_name("GET"), "GET");
    assert_eq!(request_step_name("HEAD"), "HEAD");
    assert_eq!(request_step_name("POST"), "REQUEST");
    assert!(!was_redirected("http://a.com/x", "http://a.com/x"));
    assert!(was_redirected("http://a.com/x", "http://b.com/x"));
}
