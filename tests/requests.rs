use object_store_aws::checksum::Checksum;
use object_store_aws::client::{GetOptions, Method, S3Client, S3Config};
use object_store_aws::encoding::{decode_path, encode_path};

fn config(checksum: Option<Checksum>) -> S3Config {
    S3Config {
        region: "us-east-1".to_string(),
        endpoint: "https://s3.us-east-1.amazonaws.com".to_string(),
        bucket: "bucket".to_string(),
        bucket_endpoint: "https://s3.us-east-1.amazonaws.com/bucket".to_string(),
        sign_payload: true,
        checksum,
    }
}

fn pairs(v: &[(&str, &str)]) -> Vec<(String, String)> {
    v.iter().map(|(a, b)| (a.to_string(), b.to_string())).collect()
}

#[test]
fn encode_keeps_unreserved() {
    assert_eq!(encode_path("dir/file-1_a.b~c"), "dir/file-1_a.b~c");
}

#[test]
fn encode_escapes_reserved_bytes() {
    assert_eq!(encode_path("a b+c=d"), "a%20b%2Bc%3Dd");
    assert_eq!(encode_path("ü"), "%C3%BC");
    assert_eq!(encode_path("100%"), "100%25");
}

#[test]
fn decode_recovers_encoded_path() {
    for p in ["a b/c", "x+y?z#1", "ümlaut/日本", "plain", ""] {
        assert_eq!(decode_path(&encode_path(p)), p.as_bytes().to_vec());
    }
}

#[test]
fn decode_accepts_lower_case_hex_and_stray_percent() {
    assert_eq!(decode_path("%c3%bc"), "ü".as_bytes().to_vec());
    assert_eq!(decode_path("a%2"), b"a%2".to_vec());
    assert_eq!(decode_path("%zz"), b"%zz".to_vec());
}

#[test]
fn path_url_joins_endpoint_and_encoded_path() {
    let c = config(None);
    assert_eq!(c.path_url("a b/c"), "https://s3.us-east-1.amazonaws.com/bucket/a%20b/c");
}

#[test]
fn digest_is_deterministic_and_distinguishes_payloads() {
    let k = Checksum::SHA256;
    assert_eq!(k.digest(b"hello"), k.digest(b"hello"));
    assert_ne!(k.digest(b"hello"), k.digest(b"hellp"));
    assert_eq!(k.digest(b"").len(), 32);
    assert_eq!(k.header_name(), "x-amz-checksum-sha256");
}

#[test]
fn get_request_with_options() {
    let client = S3Client::new(config(None));
    let opts = GetOptions {
        if_match: Some("\"e1\"".to_string()),
        if_none_match: None,
        range: Some((0, 100)),
    };
    let r = client.get_request("k", &opts, false);
    assert_eq!(r.method, Method::Get);
    assert_eq!(r.url, "https://s3.us-east-1.amazonaws.com/bucket/k");
    assert_eq!(r.headers, pairs(&[("If-Match", "\"e1\""), ("Range", "bytes=0-99")]));
    assert!(r.query.is_empty());
    let h = client.get_request("k", &GetOptions { if_match: None, if_none_match: None, range: None }, true);
    assert_eq!(h.method, Method::Head);
    assert!(h.headers.is_empty());
}

#[test]
fn put_request_attaches_checksum_and_payload_hash() {
    let client = S3Client::new(config(Some(Checksum::SHA256)));
    let query = pairs(&[("partNumber", "1"), ("uploadId", "u")]);
    let r = client.put_request("o", Some(Vec::new()), &query, Some("text/plain".to_string()));
    assert_eq!(r.method, Method::Put);
    assert_eq!(
        r.headers,
        pairs(&[
            ("x-amz-checksum-sha256", "47DEQpj8HBSa+/TImW+5JCeuQeRkm5NMpJWZG3hSuFU="),
            ("Content-Type", "text/plain"),
        ])
    );
    assert_eq!(r.query, query);
    assert_eq!(r.body, Some(Vec::new()));
    assert_eq!(r.payload_sha256, Some(Checksum::SHA256.digest(b"")));
}

#[test]
fn put_request_without_checksum_or_body() {
    let client = S3Client::new(config(None));
    let r = client.put_request("o", Some(b"data".to_vec()), &Vec::new(), None);
    assert!(r.headers.is_empty());
    assert_eq!(r.payload_sha256, None);
    assert_eq!(r.body, Some(b"data".to_vec()));
    let c = S3Client::new(config(Some(Checksum::SHA256)));
    let e = c.put_request("o", None, &Vec::new(), None);
    assert!(e.headers.is_empty());
    assert_eq!(e.body, None);
    assert_eq!(e.payload_sha256, None);
}

#[test]
fn delete_and_copy_requests() {
    let client = S3Client::new(config(None));
    let d = client.delete_request("x/y z", &Vec::new());
    assert_eq!(d.method, Method::Delete);
    assert_eq!(d.url, "https://s3.us-east-1.amazonaws.com/bucket/x/y%20z");
    let c = client.copy_request("from me", "to");
    assert_eq!(c.method, Method::Put);
    assert_eq!(c.url, "https://s3.us-east-1.amazonaws.com/bucket/to");
    assert_eq!(c.headers, pairs(&[("x-amz-copy-source", "bucket/from%20me")]));
}

#[test]
fn list_request_query_order() {
    let client = S3Client::new(config(None));
    let r = client.list_request(Some("a/"), true, Some("tok"), Some("a/b"));
    assert_eq!(r.method, Method::Get);
    assert_eq!(r.url, "https://s3.us-east-1.amazonaws.com/bucket");
    assert_eq!(
        r.query,
        pairs(&[
            ("continuation-token", "tok"),
            ("delimiter", "/"),
            ("list-type", "2"),
            ("prefix", "a/"),
            ("start-after", "a/b"),
        ])
    );
    let bare = client.list_request(None, false, None, None);
    assert_eq!(bare.query, pairs(&[("list-type", "2")]));
}
