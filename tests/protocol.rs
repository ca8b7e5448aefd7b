use object_store_aws::client::{Method, S3Client, S3Config};
use object_store_aws::multipart::{completion_parts, manifest, MultipartSession, UploadPart};
use object_store_aws::pagination::{ListResponse, ObjectMeta};
use object_store_aws::retry::{
    list_page, request_error, upload_id, Action, Credential, Error, Event, Executor, Operation,
};

fn client() -> S3Client {
    S3Client::new(S3Config {
        region: "eu-west-1".to_string(),
        endpoint: "https://s3.eu-west-1.amazonaws.com".to_string(),
        bucket: "b".to_string(),
        bucket_endpoint: "https://b.s3.eu-west-1.amazonaws.com".to_string(),
        sign_payload: false,
        checksum: None,
    })
}

fn response(token: Option<&str>, name: &str) -> ListResponse {
    ListResponse {
        contents: vec![ObjectMeta { location: name.to_string(), size: 3, e_tag: None }],
        common_prefixes: Vec::new(),
        is_truncated: token.is_some(),
        next_continuation_token: token.map(|t| t.to_string()),
    }
}

fn cred(k: &str) -> Credential {
    Credential { key_id: k.to_string(), secret_key: "s".to_string(), token: None }
}

#[test]
fn parts_are_numbered_by_position() {
    let parts = vec![
        UploadPart { content_id: "E1".to_string() },
        UploadPart { content_id: "E2".to_string() },
        UploadPart { content_id: "E3".to_string() },
    ];
    let numbered = completion_parts(&parts);
    let got: Vec<(String, usize)> = numbered.iter().map(|p| (p.e_tag.clone(), p.part_number)).collect();
    assert_eq!(got, vec![("E1".to_string(), 1), ("E2".to_string(), 2), ("E3".to_string(), 3)]);
    assert_eq!(
        manifest(&numbered),
        "<CompleteMultipartUpload><Part><ETag>E1</ETag><PartNumber>1</PartNumber></Part>\
<Part><ETag>E2</ETag><PartNumber>2</PartNumber></Part>\
<Part><ETag>E3</ETag><PartNumber>3</PartNumber></Part></CompleteMultipartUpload>"
    );
}

#[test]
fn complete_multipart_request_escapes_entity_tags() {
    let parts = vec![UploadPart { content_id: "\"abc\"".to_string() }];
    let r = client().complete_multipart("big file", "up-1", &parts);
    assert_eq!(r.method, Method::Post);
    assert_eq!(r.url, "https://b.s3.eu-west-1.amazonaws.com/big%20file");
    assert_eq!(r.query, vec![("uploadId".to_string(), "up-1".to_string())]);
    assert_eq!(
        String::from_utf8(r.body.unwrap()).unwrap(),
        "<CompleteMultipartUpload><Part><ETag>&quot;abc&quot;</ETag><PartNumber>1</PartNumber></Part></CompleteMultipartUpload>"
    );
}

#[test]
fn create_multipart_request_marks_uploads() {
    let r = client().create_multipart("o");
    assert_eq!(r.method, Method::Post);
    assert_eq!(r.url, "https://b.s3.eu-west-1.amazonaws.com/o?uploads=");
    assert!(r.body.is_none());
}

#[test]
fn pagination_stops_after_page_without_token() {
    let c = client();
    let server = [response(Some("t1"), "p1"), response(Some("t2"), "p2"), response(None, "p3")];
    let mut walk = c.list_paginated(Some("a"), true, Some("a/0"));
    let mut pages = Vec::new();
    let mut requests = Vec::new();
    while let Some(req) = walk.next_request(&c) {
        requests.push(req);
        let page = walk.accept(server[pages.len()].clone());
        pages.push(page.objects[0].location.clone());
        assert!(pages.len() <= 3);
    }
    assert_eq!(pages, vec!["p1", "p2", "p3"]);
    assert_eq!(requests.len(), 3);
    assert!(walk.next_request(&c).is_none());
    let tokens: Vec<Option<String>> = requests
        .iter()
        .map(|r| r.query.iter().find(|(k, _)| k == "continuation-token").map(|(_, v)| v.clone()))
        .collect();
    assert_eq!(tokens, vec![None, Some("t1".to_string()), Some("t2".to_string())]);
    for r in &requests {
        assert!(r.query.contains(&("prefix".to_string(), "a/".to_string())));
        assert!(r.query.contains(&("delimiter".to_string(), "/".to_string())));
        assert!(r.query.contains(&("start-after".to_string(), "a/0".to_string())));
    }
}

#[test]
fn empty_prefix_is_dropped() {
    let walk = client().list_paginated(Some(""), false, None);
    assert_eq!(walk.prefix, None);
    assert!(!walk.done);
}

#[test]
fn list_page_extracts_token() {
    let (page, token) = list_page(Ok(response(Some("T"), "x"))).unwrap();
    assert_eq!(token, Some("T".to_string()));
    assert_eq!(page.objects[0].location, "x");
    let (_, none) = list_page(Ok(response(None, "y"))).unwrap();
    assert_eq!(none, None);
    let c = client();
    let mut walk = c.list_paginated(None, false, None);
    walk.advance(none);
    assert!(walk.next_request(&c).is_none());
}

#[test]
fn undecodable_list_body_is_response_body_error() {
    let e = list_page(Err("bad xml".to_string())).err().unwrap();
    assert!(e.is_response_body());
    assert!(!e.is_request());
    assert!(matches!(e, Error::InvalidListResponse { .. }));
    let m = upload_id(Err("bad".to_string())).err().unwrap();
    assert!(matches!(m, Error::InvalidMultipartResponse { .. }));
    assert_eq!(upload_id(Ok("id-7".to_string())).unwrap(), "id-7");
}

#[test]
fn retry_signs_with_fresh_credential() {
    let (mut ex, first) = Executor::new(Operation::Get("k".to_string()));
    assert!(matches!(first, Action::FetchCredential));
    match ex.step(Event::CredentialReady(cred("C1"))) {
        Action::SignAndSend(c) => assert_eq!(c.key_id, "C1"),
        _ => panic!("expected a signed send"),
    }
    assert!(matches!(
        ex.step(Event::Failed { retry: true, source: "timeout".to_string() }),
        Action::FetchCredential
    ));
    match ex.step(Event::CredentialReady(cred("C2"))) {
        Action::SignAndSend(c) => assert_eq!(c.key_id, "C2"),
        _ => panic!("expected a signed send"),
    }
    assert!(matches!(ex.step(Event::Responded), Action::Succeed));
    assert!(matches!(ex.step(Event::Responded), Action::Ignore));
}

#[test]
fn terminal_failure_names_operation_and_path() {
    let (mut ex, _) = Executor::new(Operation::Copy("src".to_string()));
    ex.step(Event::CredentialReady(cred("C")));
    match ex.step(Event::Failed { retry: false, source: "403".to_string() }) {
        Action::Fail(Error::CopyRequest { path, source }) => {
            assert_eq!(path, "src");
            assert_eq!(source, "403");
        }
        _ => panic!("expected a copy failure"),
    }
    let (mut ex2, _) = Executor::new(Operation::List);
    match ex2.step(Event::CredentialFailed("expired".to_string())) {
        Action::Fail(Error::Credential { source }) => assert_eq!(source, "expired"),
        _ => panic!("expected a credential failure"),
    }
}

#[test]
fn request_errors_per_operation() {
    let s = || "e".to_string();
    assert!(matches!(request_error(&Operation::Get("p".to_string()), s()), Error::GetRequest { .. }));
    assert!(matches!(request_error(&Operation::Put("p".to_string()), s()), Error::PutRequest { .. }));
    assert!(matches!(request_error(&Operation::Delete("p".to_string()), s()), Error::DeleteRequest { .. }));
    assert!(matches!(request_error(&Operation::List, s()), Error::ListRequest { .. }));
    assert!(matches!(request_error(&Operation::CreateMultipart, s()), Error::CreateMultipartRequest { .. }));
    assert!(matches!(request_error(&Operation::CompleteMultipart, s()), Error::CompleteMultipartRequest { .. }));
    assert!(request_error(&Operation::List, s()).is_request());
}

#[test]
fn multipart_session_transitions() {
    let c = client();
    let parts = vec![UploadPart { content_id: "E".to_string() }];
    let mut s = MultipartSession::Uninitiated;
    assert!(s.completion_request(&c, "o", &parts).is_none());
    assert!(!s.completed());
    assert!(s.created("id-1".to_string()));
    assert!(!s.created("id-2".to_string()));
    let r = s.completion_request(&c, "o", &parts).unwrap();
    assert_eq!(r.query, vec![("uploadId".to_string(), "id-1".to_string())]);
    assert!(s.completed());
    assert!(matches!(s, MultipartSession::Completed));
    assert!(s.completion_request(&c, "o", &parts).is_none());
}
