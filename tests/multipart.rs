use form_parts::{Body, Chunk, Error, FieldOp, Form, MediaType, Part, PartMetadata, PartProps};
use wasm_bindgen::JsCast;

fn host_blob() -> web_sys::Blob {
    wasm_bindgen::JsValue::NULL.unchecked_into::<web_sys::Blob>()
}

fn expect_str(op: &FieldOp, name: &str, value: &str) {
    match op {
        FieldOp::AppendStr { name: n, value: v } => {
            assert_eq!(n, name);
            assert_eq!(v, value);
        }
        _ => panic!("expected a string entry for {}", name),
    }
}

#[test]
fn text_fields_are_plain_strings_in_order() {
    let ops = Form::new().text("a", "1").text("b", "2").encode();
    assert_eq!(ops.len(), 2);
    expect_str(&ops[0], "a", "1");
    expect_str(&ops[1], "b", "2");
}

#[test]
fn repeated_names_are_kept() {
    let ops = Form::new().text("k", "1").text("k", "2").text("j", "3").encode();
    assert_eq!(ops.len(), 3);
    expect_str(&ops[0], "k", "1");
    expect_str(&ops[1], "k", "2");
    expect_str(&ops[2], "j", "3");
}

#[test]
fn typed_text_becomes_text_plain_blob_without_file_name() {
    let part = Part::text("hi").mime_str("application/json").unwrap();
    let ops = Form::new().part("j", part).encode();
    assert_eq!(ops.len(), 1);
    match &ops[0] {
        FieldOp::AppendNewBlob { name, content, mime, file_name } => {
            assert_eq!(name, "j");
            assert!(matches!(content, Chunk::Text(t) if t == "hi"));
            assert_eq!(mime.as_deref(), Some("text/plain"));
            assert_eq!(file_name.as_deref(), None);
        }
        _ => panic!("expected a new blob"),
    }
}

#[test]
fn typed_text_becomes_text_plain_blob_with_file_name() {
    let part = Part::text("{}").file_name("a.json").mime_str("application/json").unwrap();
    let ops = Form::new().part("j", part).encode();
    match &ops[0] {
        FieldOp::AppendNewBlob { content, mime, file_name, .. } => {
            assert!(matches!(content, Chunk::Text(t) if t == "{}"));
            assert_eq!(mime.as_deref(), Some("text/plain"));
            assert_eq!(file_name.as_deref(), Some("a.json"));
        }
        _ => panic!("expected a new blob"),
    }
}

#[test]
fn text_plain_text_without_file_name_is_a_string() {
    let part = Part::text("x").mime_str("text/plain").unwrap();
    let ops = Form::new().part("t", part).encode();
    expect_str(&ops[0], "t", "x");
}

#[test]
fn text_plain_text_with_file_name_keeps_text_plain() {
    let part = Part::text("TEST").file_name("test.txt").mime_str("text/plain").unwrap();
    let ops = Form::new().part("text part", part).encode();
    match &ops[0] {
        FieldOp::AppendNewBlob { name, content, mime, file_name } => {
            assert_eq!(name, "text part");
            assert!(matches!(content, Chunk::Text(t) if t == "TEST"));
            assert_eq!(mime.as_deref(), Some("text/plain"));
            assert_eq!(file_name.as_deref(), Some("test.txt"));
        }
        _ => panic!("expected a new blob"),
    }
}

#[test]
fn text_with_charset_is_downgraded_to_text_plain() {
    let part = Part::text("x").mime_str("text/plain; charset=utf-8").unwrap();
    let ops = Form::new().part("t", part).encode();
    match &ops[0] {
        FieldOp::AppendNewBlob { mime, file_name, .. } => {
            assert_eq!(mime.as_deref(), Some("text/plain"));
            assert_eq!(file_name.as_deref(), None);
        }
        _ => panic!("expected a new blob"),
    }
}

#[test]
fn host_blob_is_appended_as_is_with_file_name() {
    let part = Part::stream(Body::Blob(host_blob())).file_name("blob").mime_str("image/jpeg").unwrap();
    let ops = Form::new().part("blob", part).encode();
    assert_eq!(ops.len(), 1);
    match &ops[0] {
        FieldOp::AppendBlob { name, file_name, .. } => {
            assert_eq!(name, "blob");
            assert_eq!(file_name.as_deref(), Some("blob"));
        }
        _ => panic!("expected the host object"),
    }
}

#[test]
fn host_blob_without_file_name_is_unnamed() {
    let part = Part::stream(Body::Blob(host_blob()));
    let ops = Form::new().part("b", part).encode();
    assert!(matches!(&ops[0], FieldOp::AppendBlob { file_name: None, .. }));
}

#[test]
fn file_name_is_kept_for_every_kind() {
    let form = Form::new()
        .part("t", Part::text("a").file_name("t.txt"))
        .part("b", Part::bytes(vec![1, 2]).file_name("b.bin"))
        .part("s", Part::stream(Body::Bytes(vec![3])).file_name("s.bin"))
        .part("h", Part::stream(Body::Blob(host_blob())).file_name("h.bin"));
    let ops = form.encode();
    let names: Vec<Option<String>> = ops
        .iter()
        .map(|op| match op {
            FieldOp::AppendNewBlob { file_name, .. } => file_name.clone(),
            FieldOp::AppendBlob { file_name, .. } => file_name.clone(),
            FieldOp::AppendStr { .. } => None,
        })
        .collect();
    assert_eq!(
        names,
        vec![
            Some("t.txt".to_string()),
            Some("b.bin".to_string()),
            Some("s.bin".to_string()),
            Some("h.bin".to_string())
        ]
    );
}

#[test]
fn empty_form_encodes_to_nothing() {
    let form = Form::new();
    assert!(form.is_empty());
    assert!(form.encode().is_empty());
    assert!(Form::default().is_empty());
}

#[test]
fn form_with_a_field_is_not_empty() {
    assert!(!Form::new().text("a", "b").is_empty());
}

#[test]
fn invalid_mime_is_rejected() {
    match Part::text("x").mime_str("not a valid mime") {
        Err(Error::InvalidMime(raw)) => assert_eq!(raw, "not a valid mime"),
        _ => panic!("expected InvalidMime"),
    }
}

#[test]
fn empty_mime_is_rejected() {
    assert!(matches!(MediaType::parse(""), Err(Error::InvalidMime(raw)) if raw.is_empty()));
}

#[test]
fn bytes_with_file_name_and_type() {
    let part = Part::bytes(vec![0, 42])
        .file_name("x.bin")
        .mime_str("application/octet-stream")
        .unwrap();
    let ops = Form::new().part("f", part).encode();
    assert_eq!(ops.len(), 1);
    match &ops[0] {
        FieldOp::AppendNewBlob { name, content, mime, file_name } => {
            assert_eq!(name, "f");
            assert!(matches!(content, Chunk::Bytes(b) if b == &vec![0u8, 42]));
            assert_eq!(mime.as_deref(), Some("application/octet-stream"));
            assert_eq!(file_name.as_deref(), Some("x.bin"));
        }
        _ => panic!("expected a new blob"),
    }
}

#[test]
fn bytes_without_type_or_name_is_an_unnamed_untyped_blob() {
    let ops = Form::new().part("b", Part::bytes(vec![7])).encode();
    assert!(matches!(
        &ops[0],
        FieldOp::AppendNewBlob { mime: None, file_name: None, content: Chunk::Bytes(b), .. } if b == &vec![7u8]
    ));
}

#[test]
fn named_text_without_type_is_an_untyped_blob() {
    let part = Part::text("plain").file_name("note.txt");
    let ops = Form::new().part("n", part).encode();
    match &ops[0] {
        FieldOp::AppendNewBlob { name, content, mime, file_name } => {
            assert_eq!(name, "n");
            assert!(matches!(content, Chunk::Text(t) if t == "plain"));
            assert_eq!(mime.as_deref(), None);
            assert_eq!(file_name.as_deref(), Some("note.txt"));
        }
        _ => panic!("expected a new blob"),
    }
}

#[test]
fn content_type_is_canonicalised() {
    let m = MediaType::parse("Application/JSON").unwrap();
    assert_eq!(m.as_str(), "application/json");
    assert!(!m.is_text_plain());
    assert!(MediaType::parse("TEXT/Plain").unwrap().is_text_plain());
    let part = Part::bytes(vec![1]).mime_str("Image/PNG").unwrap();
    let ops = Form::new().part("p", part).encode();
    assert!(matches!(&ops[0], FieldOp::AppendNewBlob { mime: Some(m), .. } if m == "image/png"));
}

#[test]
fn op_name_is_the_field_name() {
    let ops = Form::new()
        .text("a", "1")
        .part("b", Part::bytes(vec![1]))
        .part("c", Part::stream(Body::Blob(host_blob())))
        .encode();
    let names: Vec<&str> = ops.iter().map(|op| op.name().as_str()).collect();
    assert_eq!(names, vec!["a", "b", "c"]);
}

#[test]
fn listing_names_fields_and_metadata() {
    let mut headers = http::HeaderMap::new();
    headers.insert("x-trace", http::HeaderValue::from_static("1"));
    let part = Part::text("v").file_name("f.txt").mime_str("text/html").unwrap().headers(headers);
    let form = Form::new().text("plain", "x").part("rich", part);
    let listing = form.describe();
    assert!(listing.starts_with("Form { parts: ["));
    assert!(listing.ends_with("] }"));
    assert!(listing.contains("\"plain\""));
    assert!(listing.contains("\"rich\""));
    assert!(listing.contains("mime: Some(\"text/html\")"));
    assert!(listing.contains("file_name: Some(\"f.txt\")"));
    assert!(listing.contains("x-trace"));
    assert_eq!(Form::new().describe(), "Form { parts: [] }");
}

#[test]
fn part_listing_shows_value_and_metadata() {
    assert_eq!(
        Part::bytes(vec![1]).describe(),
        "Part { value: Bytes, mime: None, file_name: None, headers: [] }"
    );
    let part = Part::text("hi").file_name("a.txt").mime_str("Text/HTML").unwrap();
    assert_eq!(
        part.describe(),
        "Part { value: Text(\"hi\"), mime: Some(\"text/html\"), file_name: Some(\"a.txt\"), headers: [] }"
    );
    assert_eq!(
        Part::stream(Body::Blob(host_blob())).describe(),
        "Part { value: Blob, mime: None, file_name: None, headers: [] }"
    );
}

#[test]
fn new_parts_have_no_headers() {
    assert!(Part::text("a").describe().ends_with("headers: [] }"));
    assert!(Part::bytes(vec![]).describe().ends_with("headers: [] }"));
    assert!(Part::stream(Body::Bytes(vec![2])).describe().ends_with("headers: [] }"));
    assert_eq!(PartMetadata::new().fmt_fields(), "mime: None, file_name: None, headers: []");
    let form = Form::new().text("k", "v");
    assert_eq!(
        form.describe(),
        "Form { parts: [(\"k\", Part { value: Text(\"v\"), mime: None, file_name: None, headers: [] })] }"
    );
}

#[test]
fn header_names_are_listed_once_each() {
    let mut headers = http::HeaderMap::new();
    headers.insert("x-a", http::HeaderValue::from_static("1"));
    headers.append("x-a", http::HeaderValue::from_static("2"));
    headers.insert("x-b", http::HeaderValue::from_static("3"));
    let meta = PartMetadata::new().headers(headers);
    assert_eq!(meta.fmt_fields(), "mime: None, file_name: None, headers: [x-a, x-b]");
}

#[test]
fn form_listing_lists_every_field_in_order() {
    let form = Form::new()
        .text("a", "1")
        .part("b", Part::bytes(vec![1]).file_name("b.bin"));
    assert_eq!(
        form.describe(),
        "Form { parts: [(\"a\", Part { value: Text(\"1\"), mime: None, file_name: None, headers: [] }), \
         (\"b\", Part { value: Bytes, mime: None, file_name: Some(\"b.bin\"), headers: [] })] }"
    );
}
