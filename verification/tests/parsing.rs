use downlowd::file_info::FileInfo;
use downlowd::headers::{
    etag, get_last_modified, parse_content_disposition,
    parse_content_disposition_str, parse_content_length, parse_content_length_str,
    parse_content_range_total,
    parse_content_range_total_str,
};
use http::{HeaderMap, HeaderValue};

fn headers(pairs: &[(&'static str, &'static str)]) -> HeaderMap {
    let mut h = HeaderMap::new();
    for (k, v) in pairs {
        h.append(*k, HeaderValue::from_static(v));
    }
    h
}

#[test]
fn reads_headers_from_a_header_map() {
    let h = headers(&[
        ("Content-Length", "42"),
        ("ETag", "\"abc\""),
        ("Last-Modified", "Wed, 21 Oct 2015 07:28:00 GMT"),
        ("Content-Disposition", "attachment; filename=\"report.pdf\""),
    ]);
    assert_eq!(parse_content_length(&h), Some(42));
    assert_eq!(etag(&h), Some("\"abc\""));
    assert_eq!(get_last_modified(&h), Some("Wed, 21 Oct 2015 07:28:00 GMT"));
    assert_eq!(parse_content_disposition(&h), Some("report.pdf".into()));
}

#[test]
fn first_header_value_wins_and_must_be_visible_ascii() {
    let mut h = headers(&[("etag", "first"), ("etag", "second")]);
    assert_eq!(etag(&h), Some("first"));
    h.insert("content-length", HeaderValue::from_bytes(b"1\xff2").unwrap());
    assert_eq!(parse_content_length(&h), None);
    let empty = HeaderMap::new();
    assert_eq!(parse_content_length(&empty), None);
    assert_eq!(etag(&empty), None);
}

#[test]
fn content_length_follows_u64_parsing() {
    assert_eq!(parse_content_length_str("+7"), Some(7));
    assert_eq!(parse_content_length_str("007"), Some(7));
    assert_eq!(parse_content_length_str(""), None);
    assert_eq!(parse_content_length_str("+"), None);
    assert_eq!(parse_content_length_str("-1"), None);
    assert_eq!(parse_content_length_str(" 1"), None);
    assert_eq!(parse_content_length_str("18446744073709551615"), Some(u64::MAX));
    assert_eq!(parse_content_length_str("18446744073709551616"), None);
}

#[test]
fn content_disposition_edge_cases() {
    // A later unrelated part leaves a name found earlier alone.
    assert_eq!(
        parse_content_disposition_str("attachment; filename=a.txt; size=3"),
        Some("a.txt".into())
    );
    // Only the first plain name is taken.
    assert_eq!(
        parse_content_disposition_str("filename=a.txt; filename=b.txt"),
        Some("a.txt".into())
    );
    // The encoded name takes precedence in either order.
    assert_eq!(
        parse_content_disposition_str(
            "attachment; filename*=UTF-8''file%20name.jpg; filename=\"foo.txt\""
        ),
        Some("file name.jpg".into())
    );
    assert_eq!(
        parse_content_disposition_str("attachment; filename*=UTF-8''a%2Eb; size=3"),
        Some("a.b".into())
    );
    // A later encoded name replaces an earlier one.
    assert_eq!(
        parse_content_disposition_str("filename*=UTF-8''one; filename*=UTF-8''two"),
        Some("two".into())
    );
    // Surrounding whitespace and quotes are removed.
    assert_eq!(
        parse_content_disposition_str("  filename=\"\"name.bin\"  "),
        Some("name.bin".into())
    );
    // An encoded name that is not valid UTF-8 gives nothing.
    assert_eq!(parse_content_disposition_str("filename*=UTF-8''%ff"), None);
    assert_eq!(parse_content_disposition_str(""), None);
}

#[test]
fn content_range_total() {
    assert_eq!(parse_content_range_total_str("bytes 0-9/11"), Some(11));
    assert_eq!(parse_content_range_total_str("bytes */11"), Some(11));
    assert_eq!(parse_content_range_total_str("bytes 0-9/*"), None);
    assert_eq!(parse_content_range_total_str("garbage"), None);
    let h = headers(&[("content-range", "bytes */20")]);
    assert_eq!(parse_content_range_total(&h), Some(20));
}

#[test]
fn sidecar_round_trip_of_partial_information() {
    let info = FileInfo {
        content_length: None,
        last_modified: None,
        etag: Some("x: y".to_string()),
    };
    let text = info.serialize();
    assert_eq!(text, "Etag: x: y\n");
    let mut back = FileInfo::default();
    back.deserialize(&text).unwrap();
    assert_eq!(back.etag, Some("x: y".to_string()));
    assert_eq!(back.content_length, None);
    assert_eq!(FileInfo::new().serialize(), "");
}

#[test]
fn sidecar_reading_is_lenient() {
    let mut info = FileInfo::default();
    info.etag = Some("old".to_string());
    info.deserialize("Content-Length: 12\r\nbogus line\nUnknown: 3\nContent-Length: nope\nEtag: a\nEtag: b")
        .unwrap();
    assert_eq!(info.content_length, Some(12));
    assert_eq!(info.last_modified, None);
    assert_eq!(info.etag, Some("b".to_string()));
}

#[test]
fn update_reports_changes() {
    let mut info = FileInfo::new();
    assert_eq!(info.update_inner(None, None, None), None);
    assert_eq!(
        info.update_inner(Some(5), None, Some("e")),
        Some("Content-Length: 5\nEtag: e\n".to_string())
    );
    assert_eq!(info.update_inner(Some(5), None, Some("e")), None);
    assert_eq!(info.update_inner(None, None, None), None);
    assert_eq!(info.content_length, None);
    assert_eq!(info.etag, None);
}
