use postboy_sync::request::{
    BodyMode, FileField, FormField, Header, HttpMethod, Param, Request, RequestBody,
    RequestBuilder, Url,
};

#[test]
fn test_request_creation() {
    let request = Request::new(
        "Test API".to_string(),
        HttpMethod::GET,
        "https://api.example.com/users".to_string(),
    );
    assert_eq!(request.method, HttpMethod::GET);
    assert_eq!(request.url.raw, "https://api.example.com/users");
    assert_eq!(request.headers.len(), 0);
}

#[test]
fn test_request_builder() {
    let request = RequestBuilder::new(
        "Test API".to_string(),
        HttpMethod::POST,
        "https://api.example.com/users".to_string(),
    )
    .header("Content-Type".to_string(), "application/json".to_string())
    .body(RequestBody::json(r#"{"name":"John"}"#.to_string()))
    .build();
    assert_eq!(request.method, HttpMethod::POST);
    assert_eq!(request.headers.len(), 1);
    assert!(matches!(request.body, RequestBody::Json { .. }));
}

#[test]
fn test_http_method_from_str() {
    assert_eq!(HttpMethod::from_str("GET"), Ok(HttpMethod::GET));
    assert_eq!(HttpMethod::from_str("get"), Ok(HttpMethod::GET));
    assert_eq!(HttpMethod::from_str("POST"), Ok(HttpMethod::POST));
    assert!(HttpMethod::from_str("INVALID").is_err());
}

#[test]
fn test_enabled_headers() {
    let mut request = Request::new("Test".to_string(), HttpMethod::GET, "https://example.com".to_string())
        .with_header("Accept".to_string(), "application/json".to_string())
        .with_header("X-Disabled".to_string(), "value".to_string());
    request.headers[1].enabled = false;
    let enabled = request.enabled_headers();
    assert_eq!(enabled.len(), 1);
    assert_eq!(enabled[0].key, "Accept");
}

#[test]
fn test_request_duplicate() {
    let original = Request::new("Original".to_string(), HttpMethod::GET, "https://example.com".to_string());
    let copy = original.duplicate();
    assert_ne!(original.id, copy.id);
    assert_eq!(copy.name, "Original (Copy)");
    assert_eq!(copy.method, original.method);
    assert_eq!(copy.url.raw, original.url.raw);
}

#[test]
fn method_names_and_invalid_message() {
    for m in [
        HttpMethod::GET,
        HttpMethod::POST,
        HttpMethod::PUT,
        HttpMethod::DELETE,
        HttpMethod::PATCH,
        HttpMethod::HEAD,
        HttpMethod::OPTIONS,
    ] {
        assert_eq!(HttpMethod::from_str(&m.as_str().to_lowercase()), Ok(m));
    }
    assert_eq!(HttpMethod::from_str("fetch"), Err("Invalid HTTP method: fetch".to_string()));
    assert_eq!("patch".parse::<HttpMethod>(), Ok(HttpMethod::PATCH));
}

#[test]
fn bodies_and_modes() {
    assert_eq!(RequestBody::none().mode(), BodyMode::NoBody);
    assert_eq!(RequestBody::json("{}".to_string()).get_raw(), Some("{}"));
    assert_eq!(RequestBody::raw_with_language("x".to_string(), "xml".to_string()).get_raw(), Some("x"));
    assert_eq!(RequestBody::raw("y".to_string()).mode(), BodyMode::Raw);
    assert_eq!(RequestBody::binary().get_raw(), None);
    assert_eq!(RequestBody::form_data(vec![]).mode().as_str(), "formdata");
    assert_eq!(RequestBody::url_encoded(vec![]).mode().as_str(), "urlencoded");
    assert_eq!(BodyMode::NoBody.as_str(), "none");
    assert_eq!(BodyMode::Binary.as_str(), "binary");
}

#[test]
fn fields_headers_and_params() {
    let file = FileField::new("a.txt".to_string())
        .with_content_type("text/plain".to_string())
        .with_path("/tmp/a.txt".to_string());
    let field = FormField::file("upload".to_string(), file.clone());
    assert_eq!(field.value, "");
    assert_eq!(field.file, Some(file));
    assert!(FormField::new("k".to_string(), "v".to_string()).enabled);
    assert!(!Header::disabled("k".to_string(), "v".to_string()).enabled);
    assert!(Param::new("k".to_string(), "v".to_string()).description.is_none());
}

#[test]
fn enabled_query_params_and_body_flag() {
    let mut request = Request::new("R".to_string(), HttpMethod::PUT, "u".to_string())
        .with_query_param("a".to_string(), "1".to_string())
        .with_query_param("b".to_string(), "2".to_string())
        .with_body(RequestBody::raw("x".to_string()));
    request.query_params[0].enabled = false;
    let enabled = request.enabled_query_params();
    assert_eq!(enabled.len(), 1);
    assert_eq!(enabled[0].key, "b");
    assert!(request.has_body());
    assert!(!Request::new("R".to_string(), HttpMethod::GET, "u".to_string()).has_body());
}

#[test]
fn url_parse_keeps_raw_and_splits_parts() {
    let url = Url::parse("https://api.example.com:8443/v1/users?page=2#top".to_string()).unwrap();
    assert_eq!(url.raw, "https://api.example.com:8443/v1/users?page=2#top");
    assert_eq!(url.protocol, Some("https".to_string()));
    assert_eq!(url.host, Some("api.example.com".to_string()));
    assert_eq!(url.port, Some(8443));
    assert_eq!(url.path, Some("/v1/users".to_string()));
    assert_eq!(url.query, Some("page=2".to_string()));
    assert_eq!(url.hash, Some("top".to_string()));
    assert!(Url::parse("{{base_url}}/users".to_string()).is_err());
    assert_eq!(Url::new("{{x}}".to_string()).host, None);
}

#[test]
fn builder_scripts_and_targets() {
    let c = postboy_sync::base::new_id();
    let request = RequestBuilder::new("B".to_string(), HttpMethod::GET, "u".to_string())
        .description("d".to_string())
        .query_param("q".to_string(), "1".to_string())
        .collection(c)
        .pre_request_script("pre".to_string())
        .post_response_script("post".to_string())
        .test_script("t".to_string())
        .build();
    assert_eq!(request.description, Some("d".to_string()));
    assert_eq!(request.query_params.len(), 1);
    assert_eq!(request.collection_id, Some(c));
    assert_eq!(request.script.pre_request, Some("pre".to_string()));
    assert_eq!(request.script.post_response, Some("post".to_string()));
    assert_eq!(request.script.test, Some("t".to_string()));
}

#[test]
fn json_bodies_parse_when_valid() {
    let body = RequestBody::json("{\"a\": [1, 2]}".to_string());
    assert_eq!(body.get_json(), Some(serde_json::from_str("{\"a\":[1,2]}").unwrap()));
    assert_eq!(RequestBody::json("{oops".to_string()).get_json(), None);
    assert_eq!(RequestBody::raw("{}".to_string()).get_json(), None);
}

#[test]
fn all_methods_and_modes_are_listed_once() {
    assert_eq!(HttpMethod::ALL.len(), 7);
    assert_eq!(HttpMethod::ALL[0], HttpMethod::GET);
    assert_eq!(HttpMethod::ALL[6].as_str(), "OPTIONS");
    assert_eq!(BodyMode::ALL.len(), 6);
    assert_eq!(BodyMode::ALL[3].as_str(), "urlencoded");
}
