use request_body::{
    push_text_field, AddField, ByteSource, EmptyFields, Fields, FileField, MultipartFields,
    TextFields,
};
use std::io::Cursor;
use std::path::PathBuf;

fn pair(key: &str, val: &str) -> (String, String) {
    (key.to_string(), val.to_string())
}

fn source(bytes: &[u8]) -> ByteSource {
    ByteSource::new(Cursor::new(bytes.to_vec()))
}

#[test]
fn push_text_field_appends_at_the_end() {
    let mut text: TextFields = vec![pair("a", "1")];
    push_text_field(&mut text, "b".to_string(), "2".to_string());
    assert_eq!(text, vec![pair("a", "1"), pair("b", "2")]);
}

#[test]
fn text_on_empty_gives_one_pair() {
    let text = EmptyFields.with_text("a".to_string(), "1".to_string());
    assert_eq!(text, vec![pair("a", "1")]);
}

#[test]
fn text_keeps_order_and_duplicates() {
    let text = EmptyFields
        .with_text("k".to_string(), "1".to_string())
        .with_text("j".to_string(), "2".to_string())
        .with_text("k".to_string(), "3".to_string());
    assert_eq!(text, vec![pair("k", "1"), pair("j", "2"), pair("k", "3")]);
}

#[test]
fn file_on_empty_gives_multipart_with_one_entry() {
    let fields = EmptyFields.with_file("upload".to_string(), FileField::Path(PathBuf::from("a.txt")));
    let (text, files) = fields.into_parts();
    assert!(text.is_empty());
    assert_eq!(files.len(), 1);
    assert_eq!(files[0].0, "upload");
    assert!(matches!(&files[0].1, FileField::Path(path) if path == &PathBuf::from("a.txt")));
}

#[test]
fn file_on_text_keeps_the_text() {
    let text = EmptyFields
        .with_text("a".to_string(), "1".to_string())
        .with_text("b".to_string(), "2 x".to_string());
    let fields = text.with_file("upload".to_string(), FileField::File(source(b"data")));
    let (text, files) = fields.into_parts();
    assert_eq!(text, vec![pair("a", "1"), pair("b", "2 x")]);
    assert_eq!(files.len(), 1);
    assert_eq!(files[0].0, "upload");
    assert!(matches!(files[0].1, FileField::File(_)));
}

#[test]
fn multipart_stays_multipart() {
    let fields = EmptyFields
        .with_file("f".to_string(), FileField::File(source(b"1")))
        .with_text("a".to_string(), "1".to_string())
        .with_file("g".to_string(), FileField::Path(PathBuf::from("g.bin")))
        .with_text("b".to_string(), "2".to_string());
    let (text, files) = fields.into_parts();
    assert_eq!(text, vec![pair("a", "1"), pair("b", "2")]);
    assert_eq!(files.len(), 2);
    assert_eq!(files[0].0, "f");
    assert!(matches!(files[0].1, FileField::File(_)));
    assert_eq!(files[1].0, "g");
    assert!(matches!(files[1].1, FileField::Path(_)));
}

#[test]
fn new_multipart_is_empty() {
    let (text, files) = MultipartFields::new().into_parts();
    assert!(text.is_empty());
    assert!(files.is_empty());
}

#[test]
fn from_text_takes_the_pairs_over() {
    let (text, files) = MultipartFields::from_text(vec![pair("a", "1"), pair("a", "2")]).into_parts();
    assert_eq!(text, vec![pair("a", "1"), pair("a", "2")]);
    assert!(files.is_empty());
}

#[test]
fn from_stream_keeps_name_and_type() {
    let file = FileField::from_stream(
        source(b"data"),
        Some("notes.txt".to_string()),
        Some(mime::TEXT_PLAIN),
    );
    match file {
        FileField::Stream { filename, content_type, .. } => {
            assert_eq!(filename, Some("notes.txt".to_string()));
            assert_eq!(content_type, Some(mime::TEXT_PLAIN));
        }
        _ => panic!("not a stream field"),
    }
}

#[test]
fn from_stream_without_name_or_type() {
    let file = FileField::from_stream(source(b""), None, None);
    assert!(matches!(file, FileField::Stream { filename: None, content_type: None, .. }));
}

#[test]
fn add_to_routes_text_to_the_text_pairs() {
    let text = "1".to_string().add_to("a".to_string(), EmptyFields);
    assert_eq!(text, vec![pair("a", "1")]);
    let text = "2".to_string().add_to("b".to_string(), text);
    assert_eq!(text, vec![pair("a", "1"), pair("b", "2")]);
    let fields = "3".to_string().add_to("c".to_string(), MultipartFields::from_text(text));
    let (text, files) = fields.into_parts();
    assert_eq!(text, vec![pair("a", "1"), pair("b", "2"), pair("c", "3")]);
    assert!(files.is_empty());
}

#[test]
fn add_to_routes_a_file_to_the_file_entries() {
    let fields = FileField::File(source(b"x")).add_to("f".to_string(), EmptyFields);
    let fields = FileField::Path(PathBuf::from("p")).add_to("g".to_string(), fields);
    let (text, files) = fields.into_parts();
    assert!(text.is_empty());
    assert_eq!(files.len(), 2);
    assert_eq!(files[0].0, "f");
    assert!(matches!(files[0].1, FileField::File(_)));
    assert_eq!(files[1].0, "g");
    assert!(matches!(files[1].1, FileField::Path(_)));

    let fields = FileField::File(source(b"y")).add_to("h".to_string(), vec![pair("a", "1")]);
    let (text, files) = fields.into_parts();
    assert_eq!(text, vec![pair("a", "1")]);
    assert_eq!(files.len(), 1);
    assert_eq!(files[0].0, "h");
}
