use openai_embeddings::{EmbeddingRequest, EncodingFormat, Input, Model};

fn parsed(body: &str) -> serde_json::Value {
    serde_json::from_str(body).expect("the body is valid JSON")
}

#[test]
fn single_text_is_bare_string() {
    let r = EmbeddingRequest::new("hello", Model::TextEmbedding3Small);
    assert_eq!(r.to_json(), "{\"input\":\"hello\",\"model\":\"text-embedding-3-small\"}");
    let v = parsed(&r.to_json());
    assert_eq!(v["input"].as_str(), Some("hello"));
}

#[test]
fn owned_text_is_bare_string() {
    let r = EmbeddingRequest::new(String::from("a b"), Model::TextEmbeddingAda2);
    assert_eq!(r.to_json(), "{\"input\":\"a b\",\"model\":\"text-embedding-ada-002\"}");
}

#[test]
fn list_of_texts_is_array_in_order() {
    let r = EmbeddingRequest::new(vec!["one", "two", "three"], Model::TextEmbedding3Large);
    assert_eq!(
        r.to_json(),
        "{\"input\":[\"one\",\"two\",\"three\"],\"model\":\"text-embedding-3-large\"}"
    );
    let v = parsed(&r.to_json());
    let items = v["input"].as_array().expect("an array");
    let texts: Vec<&str> = items.iter().map(|i| i.as_str().unwrap()).collect();
    assert_eq!(texts, vec!["one", "two", "three"]);
}

#[test]
fn owned_list_of_one_text_is_still_array() {
    let r = EmbeddingRequest::new(vec![String::from("only")], Model::TextEmbedding3Small);
    assert_eq!(r.to_json(), "{\"input\":[\"only\"],\"model\":\"text-embedding-3-small\"}");
}

#[test]
fn empty_list_is_empty_array() {
    let r = EmbeddingRequest::new(Vec::<String>::new(), Model::TextEmbedding3Small);
    assert_eq!(r.to_json(), "{\"input\":[],\"model\":\"text-embedding-3-small\"}");
}

#[test]
fn bare_request_has_only_input_and_model() {
    let r = EmbeddingRequest::new("x", Model::TextEmbedding3Large);
    let v = parsed(&r.to_json());
    let obj = v.as_object().expect("an object");
    let mut keys: Vec<&String> = obj.keys().collect();
    keys.sort();
    assert_eq!(keys, vec!["input", "model"]);
    assert!(r.encoding_format.is_none());
    assert!(r.dimensions.is_none());
    assert!(r.user.is_none());
}

#[test]
fn dimensions_member_is_written() {
    let r = EmbeddingRequest::new("x", Model::TextEmbedding3Small).dimensions(256);
    let body = r.to_json();
    assert!(body.contains("\"dimensions\":256"));
    assert_eq!(parsed(&body)["dimensions"].as_u64(), Some(256));
}

#[test]
fn dimensions_edge_values() {
    let zero = EmbeddingRequest::new("x", Model::TextEmbedding3Small).dimensions(0);
    assert!(zero.to_json().contains(",\"dimensions\":0}"));
    let large = EmbeddingRequest::new("x", Model::TextEmbedding3Small).dimensions(usize::MAX);
    assert!(large.to_json().contains(&format!(",\"dimensions\":{}}}", usize::MAX)));
}

#[test]
fn all_optional_fields_in_order() {
    let r = EmbeddingRequest::new("t", Model::TextEmbedding3Small)
        .user("u-1")
        .dimensions(12)
        .encoding_format(EncodingFormat::Base64);
    assert_eq!(
        r.to_json(),
        "{\"input\":\"t\",\"model\":\"text-embedding-3-small\",\"encoding_format\":\"Base64\",\"dimensions\":12,\"user\":\"u-1\"}"
    );
}

#[test]
fn float_format_is_written_when_set() {
    let r = EmbeddingRequest::new("t", Model::TextEmbedding3Small).encoding_format(EncodingFormat::Float);
    assert!(r.to_json().ends_with(",\"encoding_format\":\"Float\"}"));
}

#[test]
fn empty_user_is_still_written() {
    let r = EmbeddingRequest::new("t", Model::TextEmbedding3Small).user("");
    assert!(r.to_json().ends_with(",\"user\":\"\"}"));
    assert_eq!(r.user.as_deref(), Some(""));
}

#[test]
fn special_characters_are_escaped() {
    let text = "q\"b\\n\nr\rt\tb\u{8}f\u{c}c\u{1}d\u{1f}";
    let r = EmbeddingRequest::new(text, Model::TextEmbedding3Small);
    assert_eq!(
        r.to_json(),
        "{\"input\":\"q\\\"b\\\\n\\nr\\rt\\tb\\bf\\fc\\u0001d\\u001f\",\"model\":\"text-embedding-3-small\"}"
    );
    assert_eq!(parsed(&r.to_json())["input"].as_str(), Some(text));
}

#[test]
fn non_ascii_text_passes_through() {
    let text = "héllo ✓ 漢字";
    let r = EmbeddingRequest::new(text, Model::TextEmbedding3Small);
    assert_eq!(parsed(&r.to_json())["input"].as_str(), Some(text));
    assert!(r.to_json().contains(text));
}

#[test]
fn input_conversions() {
    assert!(matches!(Input::from("a"), Input::One(s) if s == "a"));
    assert!(matches!(Input::from(String::from("b")), Input::One(s) if s == "b"));
    assert!(matches!(Input::from(vec!["c", "d"]), Input::Many(v) if v == vec!["c", "d"]));
    assert!(matches!(Input::from(vec![String::from("e")]), Input::Many(v) if v == vec!["e"]));
}

#[test]
fn endpoint_is_fixed() {
    let r = EmbeddingRequest::new("x", Model::TextEmbedding3Small);
    assert_eq!(r.endpoint(), "v1/embeddings");
}

#[test]
fn default_encoding_format_is_float() {
    assert_eq!(EncodingFormat::default(), EncodingFormat::Float);
    assert_eq!(EncodingFormat::Base64.name(), "Base64");
    assert_eq!(EncodingFormat::Float.name(), "Float");
}
