//! The decisions of the signed-retry executor, the error taxonomy, and the
//! translation of decoded responses.
use crate::client::{Request, S3Config};
use crate::pagination::{ListResponse, ListResult};
use vstd::prelude::*;
use vstd::string::StringExecFns;

verus! {

/// A set of authorization secrets, as the credential provider handed it out.
#[derive(Clone, Debug)]
pub struct Credential {
    pub key_id: String,
    pub secret_key: String,
    pub token: Option<String>,
}

/// Everything the signer needs for one attempt.
#[derive(Debug)]
pub struct SigningParams {
    pub credential: Credential,
    pub region: String,
    pub service: String,
    pub sign_payload: bool,
    pub payload_sha256: Option<Vec<u8>>,
}

impl S3Config {
    /// The signing inputs of one attempt: this attempt's credential, the
    /// configured region, service `s3`, the signed-payload flag, and the
    /// request's payload hash.
    pub fn signing_params(&self, request: &Request, credential: Credential) -> (r: SigningParams)
        ensures
            r.credential == credential,
            r.region@ == self.region@,
            r.service@ == "s3"@,
            r.sign_payload == self.sign_payload,
            r.payload_sha256 matches Some(h) ==> request.payload_sha256 matches Some(q) && h@
                == q@,
            r.payload_sha256.is_none() == request.payload_sha256.is_none(),
    {
        let payload_sha256 = match &request.payload_sha256 {
            Some(h) => Some(vstd::slice::slice_to_vec(h.as_slice())),
            None => None,
        };
        SigningParams {
            credential,
            region: self.region.clone(),
            service: String::from_str("s3"),
            sign_payload: self.sign_payload,
            payload_sha256,
        }
    }
}

/// The storage operation a request performs, with its path where it has one.
#[derive(Clone, Debug)]
pub enum Operation {
    Get(String),
    Put(String),
    Delete(String),
    Copy(String),
    List,
    CreateMultipart,
    CompleteMultipart,
}

/// Failures, tagged with the operation and, where it has one, the path.
#[derive(Clone, Debug)]
pub enum Error {
    GetRequest { path: String, source: String },
    PutRequest { path: String, source: String },
    DeleteRequest { path: String, source: String },
    CopyRequest { path: String, source: String },
    ListRequest { source: String },
    CreateMultipartRequest { source: String },
    CompleteMultipartRequest { source: String },
    GetResponseBody { path: String, source: String },
    ListResponseBody { source: String },
    CreateMultipartResponseBody { source: String },
    InvalidListResponse { source: String },
    InvalidMultipartResponse { source: String },
    Credential { source: String },
}

impl Error {
    /// A transport failure that survived the retry policy.
    pub open spec fn spec_is_request(&self) -> bool {
        match self {
            Error::GetRequest { .. } | Error::PutRequest { .. } | Error::DeleteRequest { .. }
            | Error::CopyRequest { .. } | Error::ListRequest { .. }
            | Error::CreateMultipartRequest { .. } | Error::CompleteMultipartRequest { .. } => true,
            _ => false,
        }
    }

    /// A response that arrived but whose body could not be read or decoded.
    pub open spec fn spec_is_response_body(&self) -> bool {
        match self {
            Error::GetResponseBody { .. } | Error::ListResponseBody { .. }
            | Error::CreateMultipartResponseBody { .. } | Error::InvalidListResponse { .. }
            | Error::InvalidMultipartResponse { .. } => true,
            _ => false,
        }
    }

    pub fn is_request(&self) -> (r: bool)
        ensures
            r == self.spec_is_request(),
    {
        match self {
            Error::GetRequest { .. } | Error::PutRequest { .. } | Error::DeleteRequest { .. }
            | Error::CopyRequest { .. } | Error::ListRequest { .. }
            | Error::CreateMultipartRequest { .. } | Error::CompleteMultipartRequest { .. } => true,
            _ => false,
        }
    }

    pub fn is_response_body(&self) -> (r: bool)
        ensures
            r == self.spec_is_response_body(),
    {
        match self {
            Error::GetResponseBody { .. } | Error::ListResponseBody { .. }
            | Error::CreateMultipartResponseBody { .. } | Error::InvalidListResponse { .. }
            | Error::InvalidMultipartResponse { .. } => true,
            _ => false,
        }
    }
}

/// The transport error of an operation, carrying its path.
pub open spec fn spec_request_error(op: Operation, source: String) -> Error {
    match op {
        Operation::Get(path) => Error::GetRequest { path, source },
        Operation::Put(path) => Error::PutRequest { path, source },
        Operation::Delete(path) => Error::DeleteRequest { path, source },
        Operation::Copy(path) => Error::CopyRequest { path, source },
        Operation::List => Error::ListRequest { source },
        Operation::CreateMultipart => Error::CreateMultipartRequest { source },
        Operation::CompleteMultipart => Error::CompleteMultipartRequest { source },
    }
}

pub fn request_error(op: &Operation, source: String) -> (r: Error)
    ensures
        r == spec_request_error(*op, source),
{
    match op {
        Operation::Get(path) => Error::GetRequest { path: path.clone(), source },
        Operation::Put(path) => Error::PutRequest { path: path.clone(), source },
        Operation::Delete(path) => Error::DeleteRequest { path: path.clone(), source },
        Operation::Copy(path) => Error::CopyRequest { path: path.clone(), source },
        Operation::List => Error::ListRequest { source },
        Operation::CreateMultipart => Error::CreateMultipartRequest { source },
        Operation::CompleteMultipart => Error::CompleteMultipartRequest { source },
    }
}

/// Where one request stands in the executor.
#[derive(Clone, Copy, Debug, PartialEq, Eq, Structural)]
pub enum Phase {
    AwaitingCredential,
    AwaitingResponse,
    Finished,
}

/// What the surrounding runtime reports back to the executor.
#[derive(Debug)]
pub enum Event {
    /// The provider handed out its current credential.
    CredentialReady(Credential),
    /// No credential could be obtained.
    CredentialFailed(String),
    /// The store answered with success.
    Responded,
    /// The attempt failed; `retry` tells whether the retry policy allows
    /// another attempt, after its backoff.
    Failed { retry: bool, source: String },
}

/// What the executor asks the surrounding runtime to do next.
#[derive(Debug)]
pub enum Action {
    /// Fetch the provider's current credential.
    FetchCredential,
    /// Sign the request afresh with this credential and the current time,
    /// then send it.
    SignAndSend(Credential),
    /// The request succeeded.
    Succeed,
    /// The request failed for good.
    Fail(Error),
    /// The event does not apply in this phase; nothing to do.
    Ignore,
}

/// The executor of one request: every attempt fetches a credential and signs
/// anew; no signature outlives its attempt.
#[derive(Clone, Debug)]
pub struct Executor {
    pub operation: Operation,
    pub phase: Phase,
}

impl Executor {
    pub open spec fn spec_step(self, event: Event) -> (Executor, Action) {
        match (self.phase, event) {
            (Phase::AwaitingCredential, Event::CredentialReady(c)) => (
                Executor { phase: Phase::AwaitingResponse, ..self },
                Action::SignAndSend(c),
            ),
            (Phase::AwaitingCredential, Event::CredentialFailed(source)) => (
                Executor { phase: Phase::Finished, ..self },
                Action::Fail(Error::Credential { source }),
            ),
            (Phase::AwaitingResponse, Event::Responded) => (
                Executor { phase: Phase::Finished, ..self },
                Action::Succeed,
            ),
            (Phase::AwaitingResponse, Event::Failed { retry, source }) => if retry {
                (Executor { phase: Phase::AwaitingCredential, ..self }, Action::FetchCredential)
            } else {
                (
                    Executor { phase: Phase::Finished, ..self },
                    Action::Fail(spec_request_error(self.operation, source)),
                )
            },
            _ => (self, Action::Ignore),
        }
    }

    /// A fresh executor; its first action is to fetch a credential.
    pub fn new(operation: Operation) -> (r: (Executor, Action))
        ensures
            r.0.operation == operation,
            r.0.phase == Phase::AwaitingCredential,
            r.1 == Action::FetchCredential,
    {
        (Executor { operation, phase: Phase::AwaitingCredential }, Action::FetchCredential)
    }

    /// Takes one event and says what to do next.
    pub fn step(&mut self, event: Event) -> (r: Action)
        ensures
            (*final(self), r) == old(self).spec_step(event),
    {
        match (self.phase, event) {
            (Phase::AwaitingCredential, Event::CredentialReady(c)) => {
                self.phase = Phase::AwaitingResponse;
                Action::SignAndSend(c)
            },
            (Phase::AwaitingCredential, Event::CredentialFailed(source)) => {
                self.phase = Phase::Finished;
                Action::Fail(Error::Credential { source })
            },
            (Phase::AwaitingResponse, Event::Responded) => {
                self.phase = Phase::Finished;
                Action::Succeed
            },
            (Phase::AwaitingResponse, Event::Failed { retry, source }) => {
                if retry {
                    self.phase = Phase::AwaitingCredential;
                    Action::FetchCredential
                } else {
                    self.phase = Phase::Finished;
                    Action::Fail(request_error(&self.operation, source))
                }
            },
            _ => Action::Ignore,
        }
    }
}

/// After a failed attempt that the policy retries, the next attempt is
/// signed with the credential fetched for it, not with the one before.
pub proof fn lemma_resign_per_attempt(
    ex: Executor,
    first: Credential,
    second: Credential,
    source: String,
)
    requires
        ex.phase == Phase::AwaitingCredential,
    ensures
        ({
            let (e1, a1) = ex.spec_step(Event::CredentialReady(first));
            let (e2, a2) = e1.spec_step(Event::Failed { retry: true, source });
            let (e3, a3) = e2.spec_step(Event::CredentialReady(second));
            &&& a1 == Action::SignAndSend(first)
            &&& a2 == Action::FetchCredential
            &&& a3 == Action::SignAndSend(second)
        }),
{
}

/// Once finished, an executor sends nothing more, whatever it is told.
pub proof fn lemma_finished_is_final(ex: Executor, event: Event)
    requires
        ex.phase == Phase::Finished,
    ensures
        ex.spec_step(event) == (ex, Action::Ignore),
{
}

/// The page of a list response that decoded, or the response-body error of
/// one that did not.
pub fn list_page(decoded: Result<ListResponse, String>) -> (r: Result<
    (ListResult, Option<String>),
    Error,
>)
    ensures
        match decoded {
            Ok(resp) => r matches Ok((page, token)) && page.objects == resp.contents
                && page.common_prefixes == resp.common_prefixes && token
                == resp.next_continuation_token,
            Err(source) => r == Err::<(ListResult, Option<String>), Error>(
                Error::InvalidListResponse { source },
            ),
        },
{
    match decoded {
        Ok(resp) => Ok(resp.into_page()),
        Err(source) => Err(Error::InvalidListResponse { source }),
    }
}

/// The upload id of a create-multipart response that decoded, or the
/// response-body error of one that did not.
pub fn upload_id(decoded: Result<String, String>) -> (r: Result<String, Error>)
    ensures
        match decoded {
            Ok(id) => r == Ok::<String, Error>(id),
            Err(source) => r == Err::<String, Error>(Error::InvalidMultipartResponse { source }),
        },
{
    match decoded {
        Ok(id) => Ok(id),
        Err(source) => Err(Error::InvalidMultipartResponse { source }),
    }
}

/// A list response that arrived but does not decode is a response-body
/// error, not a transport error, and is decided after the executor has
/// finished, so no attempt follows it.
pub proof fn lemma_decode_failure_is_body_error(source: String, ex: Executor, event: Event)
    requires
        ex.phase == Phase::Finished,
    ensures
        ({
            let e = Error::InvalidListResponse { source };
            e.spec_is_response_body() && !e.spec_is_request()
        }),
        ex.spec_step(event).1 == Action::Ignore,
{
}

} // verus!
