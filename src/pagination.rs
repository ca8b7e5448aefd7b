//! List pages and the pagination walk that threads continuation tokens.
use crate::client::{list_query, opt_str_view, opt_string_view, Method, Request, S3Client};
use vstd::prelude::*;
use vstd::string::{StrSliceExecFns, StringExecFns};

verus! {

/// An object entry of a list page.
#[derive(Clone, Debug)]
pub struct ObjectMeta {
    pub location: String,
    pub size: usize,
    pub e_tag: Option<String>,
}

/// A decoded list response, as the store sent it.
#[derive(Clone, Debug)]
pub struct ListResponse {
    pub contents: Vec<ObjectMeta>,
    pub common_prefixes: Vec<String>,
    pub is_truncated: bool,
    pub next_continuation_token: Option<String>,
}

/// One page of a listing, as handed to the caller.
#[derive(Clone, Debug)]
pub struct ListResult {
    pub objects: Vec<ObjectMeta>,
    pub common_prefixes: Vec<String>,
}

impl ListResponse {
    /// Takes the continuation token out of the response and hands the rest
    /// over as the page.
    pub fn into_page(self) -> (r: (ListResult, Option<String>))
        ensures
            r.0.objects == self.contents,
            r.0.common_prefixes == self.common_prefixes,
            r.1 == self.next_continuation_token,
    {
        (
            ListResult { objects: self.contents, common_prefixes: self.common_prefixes },
            self.next_continuation_token,
        )
    }
}

/// The listing prefix as sent: a non-empty prefix gets the delimiter
/// appended; an empty one is dropped.
pub open spec fn formatted_prefix(prefix: Option<Seq<char>>) -> Option<Seq<char>> {
    match prefix {
        Some(p) => if p.len() > 0 {
            Some(p + "/"@)
        } else {
            None
        },
        None => None,
    }
}

/// The cursor of one pagination walk. Prefix, delimiter and offset are fixed
/// for the walk; only the continuation token moves.
#[derive(Clone, Debug)]
pub struct ListPaginator {
    pub prefix: Option<String>,
    pub delimiter: bool,
    pub offset: Option<String>,
    pub token: Option<String>,
    pub done: bool,
}

impl ListPaginator {
    /// The cursor after a page whose response carried `next`.
    pub open spec fn spec_advance(self, next: Option<String>) -> ListPaginator {
        ListPaginator { token: next, done: next.is_none(), ..self }
    }

    /// The request for the next page, or `None` once the walk has ended.
    pub fn next_request(&self, client: &S3Client) -> (r: Option<Request>)
        ensures
            r.is_none() == self.done,
            r matches Some(req) ==> {
                &&& req.method == Method::Get
                &&& req.url@ == client.spec_config().bucket_endpoint@
                &&& req.query_view() == list_query(
                    opt_string_view(self.prefix),
                    self.delimiter,
                    opt_string_view(self.token),
                    opt_string_view(self.offset),
                )
                &&& req.headers_view() == Seq::<(Seq<char>, Seq<char>)>::empty()
                &&& req.body.is_none()
                &&& req.payload_sha256.is_none()
            },
    {
        if self.done {
            None
        } else {
            let prefix = match &self.prefix {
                Some(p) => Some(p.as_str()),
                None => None,
            };
            let token = match &self.token {
                Some(t) => Some(t.as_str()),
                None => None,
            };
            let offset = match &self.offset {
                Some(o) => Some(o.as_str()),
                None => None,
            };
            Some(client.list_request(prefix, self.delimiter, token, offset))
        }
    }

    /// Records the token of the page just received: the walk goes on with it,
    /// or ends when there is none.
    pub fn advance(&mut self, next: Option<String>)
        ensures
            *final(self) == old(self).spec_advance(next),
    {
        self.done = next.is_none();
        self.token = next;
    }

    /// Takes a decoded response: returns its page and moves the cursor on by
    /// its continuation token.
    pub fn accept(&mut self, response: ListResponse) -> (r: ListResult)
        ensures
            *final(self) == old(self).spec_advance(response.next_continuation_token),
            r.objects == response.contents,
            r.common_prefixes == response.common_prefixes,
    {
        let (page, next) = response.into_page();
        self.advance(next);
        page
    }
}

/// The cursors from which requests are issued, in order, when the server
/// answers the k-th request with continuation token `server[k]`.
pub open spec fn walk(p: ListPaginator, server: Seq<Option<String>>) -> Seq<ListPaginator>
    decreases server.len(),
{
    if p.done || server.len() == 0 {
        seq![]
    } else {
        seq![p] + walk(p.spec_advance(server[0]), server.drop_first())
    }
}

impl S3Client {
    /// Starts a walk over the listing: no token yet, nothing fetched.
    pub fn list_paginated(&self, prefix: Option<&str>, delimiter: bool, offset: Option<&str>) -> (r:
        ListPaginator)
        ensures
            opt_string_view(r.prefix) == formatted_prefix(opt_str_view(prefix)),
            r.delimiter == delimiter,
            opt_string_view(r.offset) == opt_str_view(offset),
            r.token.is_none(),
            !r.done,
    {
        let prefix = match prefix {
            Some(p) => if p.unicode_len() > 0 {
                let s = String::from_str(p);
                Some(s.concat("/"))
            } else {
                None
            },
            None => None,
        };
        let offset = match offset {
            Some(o) => Some(String::from_str(o)),
            None => None,
        };
        ListPaginator { prefix, delimiter, offset, token: None, done: false }
    }
}

/// A walk ends after the first page that carries no continuation token:
/// when the server returns tokens for pages `1..n-1` and none for page `n`,
/// exactly `n` pages are requested, whatever the server would say after.
pub proof fn lemma_pagination_terminates(p: ListPaginator, server: Seq<Option<String>>, n: nat)
    requires
        !p.done,
        1 <= n <= server.len(),
        forall|i: int| 0 <= i < n - 1 ==> (#[trigger] server[i]).is_some(),
        server[n - 1].is_none(),
    ensures
        walk(p, server).len() == n,
    decreases n,
{
    if n > 1 {
        let q = p.spec_advance(server[0]);
        let rest = server.drop_first();
        assert forall|i: int| 0 <= i < n - 2 implies (#[trigger] rest[i]).is_some() by {
            assert(rest[i] == server[i + 1]);
        }
        lemma_pagination_terminates(q, rest, (n - 1) as nat);
    } else {
        let q = p.spec_advance(server[0]);
        assert(q.done);
        assert(walk(q, server.drop_first()) == Seq::<ListPaginator>::empty());
    }
}

/// Every request of a walk carries the walk's prefix, delimiter and offset;
/// the first carries no token and each later one the token of the page
/// before it.
pub proof fn lemma_pagination_keeps_parameters(p: ListPaginator, server: Seq<Option<String>>)
    requires
        p.token.is_none(),
    ensures
        forall|k: int|
            0 <= k < walk(p, server).len() ==> {
                let c = #[trigger] walk(p, server)[k];
                &&& c.prefix == p.prefix
                &&& c.delimiter == p.delimiter
                &&& c.offset == p.offset
                &&& c.token == (if k == 0 {
                    None
                } else {
                    server[k - 1]
                })
            },
{
    lemma_walk_fixed(p, server);
}

proof fn lemma_walk_fixed(p: ListPaginator, server: Seq<Option<String>>)
    ensures
        forall|k: int|
            0 <= k < walk(p, server).len() ==> {
                let c = #[trigger] walk(p, server)[k];
                &&& c.prefix == p.prefix
                &&& c.delimiter == p.delimiter
                &&& c.offset == p.offset
                &&& c.token == (if k == 0 {
                    p.token
                } else {
                    server[k - 1]
                })
            },
    decreases server.len(),
{
    if !(p.done || server.len() == 0) {
        let q = p.spec_advance(server[0]);
        let rest = server.drop_first();
        lemma_walk_fixed(q, rest);
        lemma_walk_len(q, rest);
        let w = walk(p, server);
        assert(w == seq![p] + walk(q, rest));
        assert forall|k: int| 0 <= k < w.len() implies {
            let c = #[trigger] w[k];
            &&& c.prefix == p.prefix
            &&& c.delimiter == p.delimiter
            &&& c.offset == p.offset
            &&& c.token == (if k == 0 {
                p.token
            } else {
                server[k - 1]
            })
        } by {
            if k > 0 {
                assert(w[k] == walk(q, rest)[k - 1]);
                if k > 1 {
                    assert(rest[k - 2] == server[k - 1]);
                }
            }
        }
    }
}

proof fn lemma_walk_len(p: ListPaginator, server: Seq<Option<String>>)
    ensures
        walk(p, server).len() <= server.len(),
    decreases server.len(),
{
    if !(p.done || server.len() == 0) {
        lemma_walk_len(p.spec_advance(server[0]), server.drop_first());
    }
}

} // verus!
