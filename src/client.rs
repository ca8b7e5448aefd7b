//! Request assembly: one unsigned request per storage operation.
use crate::checksum::{base64_encode, base64_of, Checksum};
use crate::encoding::{decimal, encode_path, encoded_path, push_decimal};
use vstd::prelude::*;
use vstd::string::StringExecFns;

verus! {

#[derive(Clone, Copy, Debug, PartialEq, Eq, Structural)]
pub enum Method {
    Get,
    Head,
    Put,
    Post,
    Delete,
}

/// A name and a value, as text.
pub open spec fn pair_view(p: (String, String)) -> (Seq<char>, Seq<char>) {
    (p.0@, p.1@)
}

pub open spec fn pairs_view(v: Seq<(String, String)>) -> Seq<(Seq<char>, Seq<char>)> {
    v.map_values(|p: (String, String)| pair_view(p))
}

pub open spec fn opt_str_view(o: Option<&str>) -> Option<Seq<char>> {
    match o {
        Some(s) => Some(s@),
        None => None,
    }
}

pub open spec fn opt_string_view(o: Option<String>) -> Option<Seq<char>> {
    match o {
        Some(s) => Some(s@),
        None => None,
    }
}

pub open spec fn opt_bytes_view(o: Option<Vec<u8>>) -> Option<Seq<u8>> {
    match o {
        Some(b) => Some(b@),
        None => None,
    }
}

/// A single optional name/value pair: present exactly when the value is.
pub open spec fn opt_pair(name: Seq<char>, value: Option<Seq<char>>) -> Seq<(Seq<char>, Seq<char>)> {
    match value {
        Some(v) => seq![(name, v)],
        None => seq![],
    }
}

/// An outgoing request before it is signed: the signature is computed afresh
/// for every attempt from this template.
#[derive(Clone, Debug)]
pub struct Request {
    pub method: Method,
    pub url: String,
    pub query: Vec<(String, String)>,
    pub headers: Vec<(String, String)>,
    pub body: Option<Vec<u8>>,
    /// Digest of the body handed to the signer in place of an unsigned payload.
    pub payload_sha256: Option<Vec<u8>>,
}

impl Request {
    pub open spec fn query_view(&self) -> Seq<(Seq<char>, Seq<char>)> {
        pairs_view(self.query@)
    }

    pub open spec fn headers_view(&self) -> Seq<(Seq<char>, Seq<char>)> {
        pairs_view(self.headers@)
    }
}

fn named(name: &str, value: String) -> (r: (String, String))
    ensures
        pair_view(r) == (name@, value@),
{
    (String::from_str(name), value)
}

/// Appends the pair when a value is given.
fn push_opt(v: &mut Vec<(String, String)>, name: &str, value: Option<&str>)
    ensures
        pairs_view(final(v)@) == pairs_view(old(v)@) + opt_pair(name@, opt_str_view(value)),
{
    let ghost before = pairs_view(v@);
    match value {
        Some(s) => {
            v.push(named(name, String::from_str(s)));
        },
        None => {},
    }
    assert(pairs_view(v@) =~= before + opt_pair(name@, opt_str_view(value)));
}

/// Per-client configuration, fixed once the client is built.
#[derive(Clone, Debug)]
pub struct S3Config {
    pub region: String,
    pub endpoint: String,
    pub bucket: String,
    pub bucket_endpoint: String,
    pub sign_payload: bool,
    pub checksum: Option<Checksum>,
}

impl S3Config {
    pub open spec fn spec_path_url(&self, path: Seq<char>) -> Seq<char> {
        self.bucket_endpoint@ + "/"@ + encoded_path(path)
    }

    /// The URL of an object: the bucket endpoint, `/`, and the encoded path.
    pub fn path_url(&self, path: &str) -> (r: String)
        ensures
            r@ == self.spec_path_url(path@),
    {
        let mut url = self.bucket_endpoint.clone();
        url.append("/");
        let encoded = encode_path(path);
        url.append(encoded.as_str());
        url
    }
}

/// Conditions and a byte range to read an object with.
#[derive(Clone, Debug)]
pub struct GetOptions {
    pub if_match: Option<String>,
    pub if_none_match: Option<String>,
    /// Half-open byte range `start..end`.
    pub range: Option<(usize, usize)>,
}

/// `bytes=<first>-<last>` for a half-open range; an empty range ending at 0
/// is sent as ending at 0.
pub open spec fn range_header_value(start: usize, end: usize) -> Seq<char> {
    "bytes="@ + decimal(start as nat) + "-"@ + decimal(
        if end > 0 {
            (end - 1) as nat
        } else {
            0
        },
    )
}

impl GetOptions {
    pub open spec fn spec_headers(&self) -> Seq<(Seq<char>, Seq<char>)> {
        opt_pair("If-Match"@, opt_string_view(self.if_match)) + opt_pair(
            "If-None-Match"@,
            opt_string_view(self.if_none_match),
        ) + match self.range {
            Some((a, b)) => seq![("Range"@, range_header_value(a, b))],
            None => seq![],
        }
    }
}

/// The checksum header of an upload: present when there is a body and a
/// checksum kind is configured.
pub open spec fn checksum_headers(kind: Option<Checksum>, body: Option<Seq<u8>>) -> Seq<
    (Seq<char>, Seq<char>),
> {
    match (kind, body) {
        (Some(k), Some(b)) => seq![(k.spec_header_name(), base64_of(k.spec_digest(b)))],
        _ => seq![],
    }
}

/// The payload hash handed to the signer for an upload.
pub open spec fn payload_hash(kind: Option<Checksum>, body: Option<Seq<u8>>) -> Option<Seq<u8>> {
    match (kind, body) {
        (Some(k), Some(b)) => if k.signs_payload() {
            Some(k.spec_digest(b))
        } else {
            None
        },
        _ => None,
    }
}

/// The query of a list request, in the order it is sent.
pub open spec fn list_query(
    prefix: Option<Seq<char>>,
    delimiter: bool,
    token: Option<Seq<char>>,
    offset: Option<Seq<char>>,
) -> Seq<(Seq<char>, Seq<char>)> {
    opt_pair("continuation-token"@, token) + (if delimiter {
        seq![("delimiter"@, "/"@)]
    } else {
        seq![]
    }) + seq![("list-type"@, "2"@)] + opt_pair("prefix"@, prefix) + opt_pair("start-after"@, offset)
}

fn clone_pairs(v: &Vec<(String, String)>) -> (r: Vec<(String, String)>)
    ensures
        pairs_view(r@) == pairs_view(v@),
{
    let mut r: Vec<(String, String)> = Vec::new();
    let mut i: usize = 0;
    while i < v.len()
        invariant
            0 <= i <= v@.len(),
            r@.len() == i,
            pairs_view(r@) == pairs_view(v@.subrange(0, i as int)),
        decreases v@.len() - i,
    {
        let p = &v[i];
        let k = p.0.clone();
        let x = p.1.clone();
        let ghost before = r@;
        r.push((k, x));
        proof {
            assert(pair_view(r@[i as int]) == pair_view(v@[i as int]));
            assert(r@ == before.push((k, x)));
            assert(pairs_view(before) == pairs_view(v@.subrange(0, i as int)));
            assert forall|j: int| 0 <= j <= i implies #[trigger] pairs_view(r@)[j] == pairs_view(
                v@.subrange(0, i + 1),
            )[j] by {
                if j < i {
                    assert(pairs_view(before)[j] == pairs_view(v@.subrange(0, i as int))[j]);
                }
            }
        }
        i = i + 1;
        assert(pairs_view(r@) =~= pairs_view(v@.subrange(0, i as int)));
    }
    assert(v@.subrange(0, i as int) =~= v@);
    r
}

/// The client: assembles the unsigned request of each operation.
#[derive(Clone, Debug)]
pub struct S3Client {
    config: S3Config,
}

impl S3Client {
    pub closed spec fn spec_config(&self) -> S3Config {
        self.config
    }

    pub fn new(config: S3Config) -> (r: S3Client)
        ensures
            r.spec_config() == config,
    {
        S3Client { config }
    }

    /// Returns the config
    pub fn config(&self) -> (r: &S3Config)
        ensures
            *r == self.spec_config(),
    {
        &self.config
    }

    /// A GET, or a HEAD when `head` is set, of the object at `path`, with the
    /// conditions and range of `options` as headers.
    pub fn get_request(&self, path: &str, options: &GetOptions, head: bool) -> (r: Request)
        ensures
            r.method == (if head {
                Method::Head
            } else {
                Method::Get
            }),
            r.url@ == self.spec_config().spec_path_url(path@),
            r.query_view() == Seq::<(Seq<char>, Seq<char>)>::empty(),
            r.headers_view() == options.spec_headers(),
            r.body.is_none(),
            r.payload_sha256.is_none(),
    {
        let url = self.config.path_url(path);
        let method = if head {
            Method::Head
        } else {
            Method::Get
        };
        let mut headers: Vec<(String, String)> = Vec::new();
        match &options.if_match {
            Some(v) => headers.push(named("If-Match", v.clone())),
            None => {},
        }
        match &options.if_none_match {
            Some(v) => headers.push(named("If-None-Match", v.clone())),
            None => {},
        }
        match options.range {
            Some((a, b)) => {
                let mut value = String::from_str("bytes=");
                push_decimal(&mut value, a);
                value.append("-");
                let last = if b > 0 {
                    b - 1
                } else {
                    0
                };
                push_decimal(&mut value, last);
                headers.push(named("Range", value));
            },
            None => {},
        }
        assert(pairs_view(headers@) =~= options.spec_headers());
        let r = Request {
            method,
            url,
            query: Vec::new(),
            headers,
            body: None,
            payload_sha256: None,
        };
        assert(r.query_view() =~= Seq::<(Seq<char>, Seq<char>)>::empty());
        r
    }

    /// A PUT of `bytes` to `path`. With a body and a configured checksum kind
    /// the base64 digest is attached under the kind's header, and for a kind
    /// that signs the payload the digest is also the payload hash. The given
    /// content type, if any, follows as `Content-Type`.
    pub fn put_request(
        &self,
        path: &str,
        bytes: Option<Vec<u8>>,
        query: &Vec<(String, String)>,
        content_type: Option<String>,
    ) -> (r: Request)
        ensures
            r.method == Method::Put,
            r.url@ == self.spec_config().spec_path_url(path@),
            r.query_view() == pairs_view(query@),
            r.headers_view() == checksum_headers(self.spec_config().checksum, opt_bytes_view(bytes))
                + opt_pair("Content-Type"@, opt_string_view(content_type)),
            opt_bytes_view(r.body) == opt_bytes_view(bytes),
            opt_bytes_view(r.payload_sha256) == payload_hash(
                self.spec_config().checksum,
                opt_bytes_view(bytes),
            ),
    {
        let url = self.config.path_url(path);
        let mut headers: Vec<(String, String)> = Vec::new();
        let mut payload_sha256: Option<Vec<u8>> = None;
        let mut body: Option<Vec<u8>> = None;
        match bytes {
            Some(b) => {
                match self.config.checksum {
                    Some(kind) => {
                        let digest = kind.digest(b.as_slice());
                        let encoded = base64_encode(digest.as_slice());
                        headers.push(named(kind.header_name(), encoded));
                        match kind {
                            Checksum::SHA256 => {
                                payload_sha256 = Some(digest);
                            },
                        }
                    },
                    None => {},
                }
                body = Some(b);
            },
            None => {},
        }
        match content_type {
            Some(v) => headers.push(named("Content-Type", v)),
            None => {},
        }
        assert(pairs_view(headers@) =~= checksum_headers(
            self.config.checksum,
            opt_bytes_view(bytes),
        ) + opt_pair("Content-Type"@, opt_string_view(content_type)));
        Request { method: Method::Put, url, query: clone_pairs(query), headers, body, payload_sha256 }
    }

    /// A DELETE of the object at `path`, with the given query.
    pub fn delete_request(&self, path: &str, query: &Vec<(String, String)>) -> (r: Request)
        ensures
            r.method == Method::Delete,
            r.url@ == self.spec_config().spec_path_url(path@),
            r.query_view() == pairs_view(query@),
            r.headers_view() == Seq::<(Seq<char>, Seq<char>)>::empty(),
            r.body.is_none(),
            r.payload_sha256.is_none(),
    {
        let r = Request {
            method: Method::Delete,
            url: self.config.path_url(path),
            query: clone_pairs(query),
            headers: Vec::new(),
            body: None,
            payload_sha256: None,
        };
        assert(r.headers_view() =~= Seq::<(Seq<char>, Seq<char>)>::empty());
        r
    }

    /// A server-side copy: a PUT to `to` naming `bucket/encoded(from)` as the
    /// copy source.
    pub fn copy_request(&self, from: &str, to: &str) -> (r: Request)
        ensures
            r.method == Method::Put,
            r.url@ == self.spec_config().spec_path_url(to@),
            r.query_view() == Seq::<(Seq<char>, Seq<char>)>::empty(),
            r.headers_view() == seq![
                ("x-amz-copy-source"@, self.spec_config().bucket@ + "/"@ + encoded_path(from@)),
            ],
            r.body.is_none(),
            r.payload_sha256.is_none(),
    {
        let url = self.config.path_url(to);
        let mut source = self.config.bucket.clone();
        source.append("/");
        let encoded = encode_path(from);
        source.append(encoded.as_str());
        let mut headers: Vec<(String, String)> = Vec::new();
        headers.push(named("x-amz-copy-source", source));
        let r = Request {
            method: Method::Put,
            url,
            query: Vec::new(),
            headers,
            body: None,
            payload_sha256: None,
        };
        assert(r.query_view() =~= Seq::<(Seq<char>, Seq<char>)>::empty());
        assert(r.headers_view() =~= seq![
            ("x-amz-copy-source"@, self.config.bucket@ + "/"@ + encoded_path(from@)),
        ]);
        r
    }

    /// A list request against the bucket endpoint: `continuation-token`,
    /// `delimiter=/`, `list-type=2`, `prefix` and `start-after`, each optional
    /// one present exactly when given.
    pub fn list_request(
        &self,
        prefix: Option<&str>,
        delimiter: bool,
        token: Option<&str>,
        offset: Option<&str>,
    ) -> (r: Request)
        ensures
            r.method == Method::Get,
            r.url@ == self.spec_config().bucket_endpoint@,
            r.query_view() == list_query(
                opt_str_view(prefix),
                delimiter,
                opt_str_view(token),
                opt_str_view(offset),
            ),
            r.headers_view() == Seq::<(Seq<char>, Seq<char>)>::empty(),
            r.body.is_none(),
            r.payload_sha256.is_none(),
    {
        let url = self.config.bucket_endpoint.clone();
        let mut query: Vec<(String, String)> = Vec::new();
        push_opt(&mut query, "continuation-token", token);
        let ghost q1 = pairs_view(query@);
        if delimiter {
            query.push(named("delimiter", String::from_str("/")));
        }
        assert(pairs_view(query@) =~= q1 + (if delimiter {
            seq![("delimiter"@, "/"@)]
        } else {
            seq![]
        }));
        let ghost q2 = pairs_view(query@);
        query.push(named("list-type", String::from_str("2")));
        assert(pairs_view(query@) =~= q2 + seq![("list-type"@, "2"@)]);
        push_opt(&mut query, "prefix", prefix);
        push_opt(&mut query, "start-after", offset);
        let r = Request {
            method: Method::Get,
            url,
            query,
            headers: Vec::new(),
            body: None,
            payload_sha256: None,
        };
        assert(r.query_view() =~= list_query(
            opt_str_view(prefix),
            delimiter,
            opt_str_view(token),
            opt_str_view(offset),
        ));
        assert(r.headers_view() =~= Seq::<(Seq<char>, Seq<char>)>::empty());
        r
    }
}

} // verus!
