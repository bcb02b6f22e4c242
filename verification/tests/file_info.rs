use downlowd::file_info::FileInfo;

const SAMPLE: &str = r#"Content-Length: 1234
Last-Modified: 2023-10-01T12:34:56Z
Etag: abc123
"#;

#[test]
fn test_serialize_serialize() {
    let info = FileInfo {
        content_length: Some(1234),
        last_modified: Some("2023-10-01T12:34:56Z".to_string()),
        etag: Some("abc123".to_string()),
    };

    let serialized = info.serialize();
    assert_eq!(&serialized, SAMPLE);

    let mut deserialized = FileInfo::default();
    deserialized.deserialize(&serialized).unwrap();

    assert_eq!(info.content_length, deserialized.content_length);
    assert_eq!(info.last_modified, deserialized.last_modified);
    assert_eq!(info.etag, deserialized.etag);
}

#[test]
fn should_deserialize_etags_with_special_characters() {
    let mut info = FileInfo::default();
    info.deserialize(r#"Etag: q"abc/123:=+xyz"#).unwrap();
    assert_eq!(info.etag, Some(r#"q"abc/123:=+xyz"#.to_string()));
}

#[test]
fn should_deserialize_empty_file() {
    let mut info = FileInfo::default();
    info.deserialize("").unwrap();
    assert_eq!(info.content_length, None);
    assert_eq!(info.last_modified, None);
    assert_eq!(info.etag, None);
}
