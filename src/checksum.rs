//! Optional payload checksums attached to uploads.
use base64::Engine;
use sha2::Digest;
use vstd::prelude::*;

verus! {

/// The digest of a payload under SHA-256.
pub uninterp spec fn sha256_of(data: Seq<u8>) -> Seq<u8>;

/// The standard base64 alphabet: `A-Z`, `a-z`, `0-9`, `+`, `/`.
pub open spec fn base64_digit(v: int) -> char {
    if v < 26 {
        (v + 65) as char
    } else if v < 52 {
        (v - 26 + 97) as char
    } else if v < 62 {
        (v - 52 + 48) as char
    } else if v == 62 {
        '+'
    } else {
        '/'
    }
}

/// The standard, padded base64 text of a byte string: each group of three
/// bytes gives four digits of six bits; a final group of one or two bytes is
/// filled with zero bits and padded with `=` to four characters.
pub open spec fn base64_of(data: Seq<u8>) -> Seq<char>
    decreases data.len(),
{
    if data.len() == 0 {
        seq![]
    } else if data.len() == 1 {
        let a = data[0] as int;
        seq![base64_digit(a / 4), base64_digit((a % 4) * 16), '=', '=']
    } else if data.len() == 2 {
        let a = data[0] as int;
        let b = data[1] as int;
        seq![base64_digit(a / 4), base64_digit((a % 4) * 16 + b / 16), base64_digit((b % 16) * 4), '=']
    } else {
        let a = data[0] as int;
        let b = data[1] as int;
        let c = data[2] as int;
        seq![
            base64_digit(a / 4),
            base64_digit((a % 4) * 16 + b / 16),
            base64_digit((b % 16) * 4 + c / 64),
            base64_digit(c % 64),
        ] + base64_of(data.subrange(3, data.len() as int))
    }
}

/// Relies on `sha2::Sha256::digest`: a 32-byte digest that depends on the
/// input bytes alone.
#[verifier::external_body]
fn sha256_digest(data: &[u8]) -> (r: Vec<u8>)
    ensures
        r@ == sha256_of(data@),
        r@.len() == 32,
{
    sha2::Sha256::digest(data).to_vec()
}

/// Relies on `base64::engine::general_purpose::STANDARD.encode`: the
/// standard alphabet with `=` padding. It panics only when the encoded length
/// overflows `usize`.
#[verifier::external_body]
pub(crate) fn base64_encode(data: &[u8]) -> (r: String)
    requires
        data@.len() <= usize::MAX / 2,
    ensures
        r@ == base64_of(data@),
{
    base64::engine::general_purpose::STANDARD.encode(data)
}

/// The checksum kinds a store may be configured with.
#[derive(Clone, Copy, Debug, PartialEq, Eq, Structural)]
pub enum Checksum {
    SHA256,
}

impl Checksum {
    pub open spec fn spec_digest(self, data: Seq<u8>) -> Seq<u8> {
        match self {
            Checksum::SHA256 => sha256_of(data),
        }
    }

    pub open spec fn spec_header_name(self) -> Seq<char> {
        match self {
            Checksum::SHA256 => "x-amz-checksum-sha256"@,
        }
    }

    /// Whether the digest doubles as the payload hash handed to the signer.
    pub open spec fn signs_payload(self) -> bool {
        match self {
            Checksum::SHA256 => true,
        }
    }

    /// The digest of `data` under this checksum kind.
    pub fn digest(&self, data: &[u8]) -> (r: Vec<u8>)
        ensures
            r@ == self.spec_digest(data@),
            r@.len() == 32,
    {
        match self {
            Checksum::SHA256 => sha256_digest(data),
        }
    }

    /// The request header under which the base64 digest is sent.
    pub fn header_name(&self) -> (r: &'static str)
        ensures
            r@ == self.spec_header_name(),
    {
        match self {
            Checksum::SHA256 => "x-amz-checksum-sha256",
        }
    }
}

/// The same checksum kind gives the same digest for equal payloads.
pub proof fn lemma_digest_deterministic(kind: Checksum, a: Seq<u8>, b: Seq<u8>)
    requires
        a == b,
    ensures
        kind.spec_digest(a) == kind.spec_digest(b),
{
}

} // verus!
