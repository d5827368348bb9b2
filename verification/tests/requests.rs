use std::collections::BTreeMap;

use rest_client::{assemble, json_content, request, Endpoint, Failure, FromBody, IntoBody, Method, Response};
use reqwest::header::{HeaderName, HeaderValue, CONTENT_TYPE};

struct Widgets;

impl Endpoint for Widgets {
    type RequestBody = ();
    type ResponseBody = ();
    type ErrorBody = ();

    fn endpoint(&self) -> &str {
        "/v1/widgets"
    }
}

struct Root;

impl Endpoint for Root {
    type RequestBody = ();
    type ResponseBody = ();
    type ErrorBody = ();
}

#[derive(Default)]
struct Note(String);

impl IntoBody for Note {
    fn content_type() -> Option<(HeaderName, HeaderValue)> {
        Some((CONTENT_TYPE, HeaderValue::from_static("application/json")))
    }

    fn content(&self) -> Result<String, serde_json::Error> {
        json_content(&self.0)
    }
}

struct Ignored;

impl FromBody for Ignored {
    fn from_body(_response: Response) -> Result<Self, Failure> {
        Ok(Ignored)
    }
}

struct PostNote(&'static str);

impl Endpoint for PostNote {
    type RequestBody = Note;
    type ResponseBody = Ignored;
    type ErrorBody = Ignored;

    fn method(&self) -> Method {
        Method::Post
    }

    fn endpoint(&self) -> &str {
        "notes"
    }

    fn body(&self) -> Note {
        Note(self.0.to_owned())
    }
}

struct DefaultNote;

impl Endpoint for DefaultNote {
    type RequestBody = Note;
    type ResponseBody = Ignored;
    type ErrorBody = Ignored;
}

#[derive(Default)]
struct Unencodable;

impl IntoBody for Unencodable {
    fn content(&self) -> Result<String, serde_json::Error> {
        let mut keyed_by_list = BTreeMap::new();
        keyed_by_list.insert(vec![1u8], 1u8);
        json_content(&keyed_by_list)
    }
}

struct Broken;

impl Endpoint for Broken {
    type RequestBody = Unencodable;
    type ResponseBody = Ignored;
    type ErrorBody = Ignored;
}

#[test]
fn endpoint_defaults_are_get_and_root_path() {
    assert_eq!(Root.method(), Method::Get);
    assert_eq!(Root.endpoint(), "/");
    assert_eq!(Widgets.method(), Method::Get);
}

#[test]
fn default_body_is_the_default_value_of_the_body_type() {
    assert_eq!(DefaultNote.body().0, "");
    let built = request(&DefaultNote, "http://localhost").unwrap();
    assert_eq!(built.body, "\"\"");
}

#[test]
fn request_address_is_base_followed_by_path() {
    let built = request(&Widgets, "https://api.example.com/").unwrap();
    assert_eq!(built.url, "https://api.example.com//v1/widgets");
    let built = request(&Widgets, "https://api.example.com").unwrap();
    assert_eq!(built.url, "https://api.example.com/v1/widgets");
    let built = request(&Root, "https://api.example.com").unwrap();
    assert_eq!(built.url, "https://api.example.com/");
    let built = request(&PostNote("x"), "https://api.example.com/").unwrap();
    assert_eq!(built.url, "https://api.example.com/notes");
}

#[test]
fn request_address_is_not_escaped() {
    let built = request(&PostNote("x"), "http://h/a b?").unwrap();
    assert_eq!(built.url, "http://h/a b?notes");
    let built = request(&Root, "").unwrap();
    assert_eq!(built.url, "/");
}

#[test]
fn request_of_a_plain_endpoint_is_get_with_json_null_and_no_content_type() {
    let built = request(&Widgets, "https://api.example.com/").unwrap();
    assert_eq!(built.method, Method::Get);
    assert_eq!(built.body, "null");
    assert!(built.content_type.is_none());
}

#[test]
fn request_carries_declared_method_body_and_content_type() {
    let built = request(&PostNote("hello"), "https://api.example.com/").unwrap();
    assert_eq!(built.method, Method::Post);
    assert_eq!(built.body, "\"hello\"");
    let (name, value) = built.content_type.unwrap();
    assert_eq!(name, CONTENT_TYPE);
    assert_eq!(value, HeaderValue::from_static("application/json"));
}

#[test]
fn request_reports_a_body_that_cannot_be_encoded() {
    assert!(request(&Broken, "https://api.example.com/").is_err());
}

#[test]
fn assemble_puts_the_parts_together() {
    let built = assemble(Method::Delete, "http://h:8080/api", "/v1/widgets/7", None, "{}".to_owned());
    assert_eq!(built.method, Method::Delete);
    assert_eq!(built.url, "http://h:8080/api/v1/widgets/7");
    assert!(built.content_type.is_none());
    assert_eq!(built.body, "{}");

    let header = (CONTENT_TYPE, HeaderValue::from_static("text/plain"));
    let built = assemble(Method::Put, "", "", Some(header.clone()), String::new());
    assert_eq!(built.method, Method::Put);
    assert_eq!(built.url, "");
    assert_eq!(built.content_type, Some(header));
    assert_eq!(built.body, "");
}
