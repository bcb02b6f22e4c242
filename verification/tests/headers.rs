use downlowd::headers::{parse_content_disposition_str, parse_content_length_str};

#[test]
fn should_parse_content_length() {
    let length = parse_content_length_str("12345");
    assert_eq!(length, Some(12345));

    let length = parse_content_length_str("some nonsense");
    assert_eq!(length, None);
}

#[test]
fn should_parse_content_disposition() {
    let filename = parse_content_disposition_str(r#"attachment; filename="example.txt""#);
    assert_eq!(filename, Some("example.txt".into()));

    let filename =
        parse_content_disposition_str(r#"attachment; filename*=UTF-8''file%20name.jpg"#);
    assert_eq!(filename, Some("file name.jpg".into()));

    // If there's a filename and a filename* in the same header,
    // filename* should take precedence.
    let filename = parse_content_disposition_str(
        r#"attachment; filename="foo.txt"; filename*=UTF-8''file%20name.jpg"#,
    );
    assert_eq!(filename, Some("file name.jpg".into()));
}
