use pc::config::BackendConfig;
use pc::errors::SubmitError;
use pc::protocol::{HttpRequest, PasteReply, RequestBody, ResponseData, ResponseFormat};

#[test]
fn haste_posts_to_documents_and_appends_key() {
    let c = BackendConfig::Haste { url: "https://h.example/".to_string() };
    let req: HttpRequest = c.try_build_request("hello".to_string()).unwrap();
    assert_eq!(req.url, "https://h.example/documents");
    assert_eq!(req.body, RequestBody::Text("hello".to_string()));
    assert_eq!(req.response, ResponseFormat::HasteKey);
    let resp = ResponseData::HasteKey {
        key: Some("abc".to_string()),
        raw: "{\"key\":\"abc\"}".to_string(),
    };
    let locator = c.try_finish_submit(&resp).unwrap().unwrap();
    assert_eq!(locator, "https://h.example/abc");
}

#[test]
fn haste_unparsable_answer_fails() {
    let c = BackendConfig::Haste { url: "https://h.example/".to_string() };
    let resp = ResponseData::HasteKey { key: None, raw: "oops".to_string() };
    let r = c.try_finish_submit(&resp).unwrap();
    assert_eq!(r, Err(SubmitError::InvalidResponse("oops".to_string())));
}

#[test]
fn modern_paste_posts_structured_body() {
    let c = BackendConfig::ModernPaste {
        url: "https://paste.fedoraproject.org/".to_string(),
        title: Some("notes".to_string()),
    };
    let req = c.try_build_request("hello".to_string()).unwrap();
    assert_eq!(req.url, "https://paste.fedoraproject.org/api/paste/submit");
    assert_eq!(
        req.body,
        RequestBody::ApiJson { contents: "hello".to_string(), title: Some("notes".to_string()) }
    );
    assert_eq!(req.response, ResponseFormat::PasteApi);
}

#[test]
fn modern_paste_reads_locator_from_answer() {
    let c = BackendConfig::ModernPaste {
        url: "https://paste.fedoraproject.org/".to_string(),
        title: None,
    };
    let resp = ResponseData::PasteApi {
        reply: Some(PasteReply {
            success: Some(true),
            message: String::new(),
            url: "https://paste.fedoraproject.org/paste/xyz".to_string(),
        }),
        raw: String::new(),
    };
    let locator = c.try_finish_submit(&resp).unwrap().unwrap();
    assert_eq!(locator, "https://paste.fedoraproject.org/paste/xyz");
}

#[test]
fn modern_paste_explicit_failure_flag_fails() {
    let c = BackendConfig::ModernPaste {
        url: "https://paste.fedoraproject.org/".to_string(),
        title: None,
    };
    let resp = ResponseData::PasteApi {
        reply: Some(PasteReply {
            success: Some(false),
            message: "quota exceeded".to_string(),
            url: "https://paste.fedoraproject.org/paste/xyz".to_string(),
        }),
        raw: String::new(),
    };
    let r = c.try_finish_submit(&resp).unwrap();
    assert_eq!(r, Err(SubmitError::ApiFailure("quota exceeded".to_string())));
}

#[test]
fn modern_paste_malformed_answer_fails() {
    let c = BackendConfig::ModernPaste {
        url: "https://paste.fedoraproject.org/".to_string(),
        title: None,
    };
    let resp = ResponseData::PasteApi { reply: None, raw: "<html>".to_string() };
    let r = c.try_finish_submit(&resp).unwrap();
    assert_eq!(r, Err(SubmitError::InvalidResponse("<html>".to_string())));
}

#[test]
fn sprunge_appends_syntax_query_to_body_locator() {
    let c = BackendConfig::Sprunge {
        url: "http://sprunge.us/".to_string(),
        syntax: Some("py".to_string()),
    };
    let req = c.try_build_request("hello".to_string()).unwrap();
    assert_eq!(req.url, "http://sprunge.us/");
    assert_eq!(
        req.body,
        RequestBody::Multipart { field: "sprunge".to_string(), value: "hello".to_string() }
    );
    let resp = ResponseData::Body { body: "http://sprunge.us/AbCd".to_string() };
    let locator = c.try_finish_submit(&resp).unwrap().unwrap();
    assert_eq!(locator, "http://sprunge.us/AbCd?py");
}

#[test]
fn sprunge_without_syntax_returns_body_locator() {
    let c = BackendConfig::Sprunge { url: "http://sprunge.us/".to_string(), syntax: None };
    let resp = ResponseData::Body { body: "http://sprunge.us/AbCd".to_string() };
    let locator = c.try_finish_submit(&resp).unwrap().unwrap();
    assert_eq!(locator, "http://sprunge.us/AbCd");
}

#[test]
fn body_that_is_not_a_url_fails() {
    let c = BackendConfig::Sprunge { url: "http://sprunge.us/".to_string(), syntax: None };
    let resp = ResponseData::Body { body: "something went wrong".to_string() };
    let r = c.try_finish_submit(&resp).unwrap();
    assert_eq!(r, Err(SubmitError::InvalidResponse("something went wrong".to_string())));
}

#[test]
fn pipfi_parses_body_as_locator() {
    let c = BackendConfig::Pipfi { url: "http://p.ip.fi/".to_string() };
    let req = c.try_build_request("hello".to_string()).unwrap();
    assert_eq!(req.url, "http://p.ip.fi/");
    assert_eq!(
        req.body,
        RequestBody::Multipart { field: "paste".to_string(), value: "hello".to_string() }
    );
    assert_eq!(req.response, ResponseFormat::Body);
    let resp = ResponseData::Body { body: "http://p.ip.fi/AbCd".to_string() };
    let locator = c.try_finish_submit(&resp).unwrap().unwrap();
    assert_eq!(locator, "http://p.ip.fi/AbCd");
}

#[test]
fn vpaste_takes_final_resolved_address() {
    let c = BackendConfig::Vpaste { url: "http://vpaste.net/".to_string() };
    let req = c.try_build_request("hello".to_string()).unwrap();
    assert_eq!(req.url, "http://vpaste.net/");
    assert_eq!(
        req.body,
        RequestBody::Multipart { field: "text".to_string(), value: "hello".to_string() }
    );
    assert_eq!(req.response, ResponseFormat::Address);
    let resp = ResponseData::Address { address: "http://vpaste.net/XYZ".to_string() };
    let locator = c.try_finish_submit(&resp).unwrap().unwrap();
    assert_eq!(locator, "http://vpaste.net/XYZ");
}

#[test]
fn non_canonical_endpoint_is_refused_before_building() {
    let c = BackendConfig::Haste { url: "https://hastebin.com".to_string() };
    assert!(c.try_build_request("hello".to_string()).is_none());
    let c = BackendConfig::Haste { url: "not a url".to_string() };
    assert!(c.try_build_request("hello".to_string()).is_none());
}
