//! Percent-encoding of object paths, and the text helpers that requests use.
use vstd::prelude::*;
use vstd::string::StringSliceAdditionalSpecFns;
use vstd::utf8::{encode_utf8, is_ascii_chars};

verus! {

/// Bytes that stay literal in an encoded path: ASCII letters and digits,
/// `-` (45), `.` (46), `_` (95), `~` (126) and the path separator `/` (47).
pub open spec fn is_unreserved(b: u8) -> bool {
    (97 <= b && b <= 122) || (65 <= b && b <= 90) || (48 <= b && b <= 57) || b
        == 45 || b == 46 || b == 95 || b == 126 || b == 47
}

/// Upper-case hexadecimal digit of a value below 16.
/// `0` is 48, `A` is 65, `a` is 97, `%` is 37.
pub open spec fn hex_upper(d: u8) -> u8 {
    if d < 10 {
        (48 + d) as u8
    } else {
        (65 + d - 10) as u8
    }
}

pub open spec fn is_hex_digit(c: u8) -> bool {
    (48 <= c && c <= 57) || (65 <= c && c <= 70) || (97 <= c && c <= 102)
}

pub open spec fn hex_value(c: u8) -> u8 {
    if 48 <= c && c <= 57 {
        (c - 48) as u8
    } else if 65 <= c && c <= 70 {
        (c - 65 + 10) as u8
    } else {
        (c - 97 + 10) as u8
    }
}

/// The encoding of one byte: itself when unreserved, else `%` and two
/// upper-case hex digits.
pub open spec fn encode_byte(b: u8) -> Seq<u8> {
    if is_unreserved(b) {
        seq![b]
    } else {
        seq![37, hex_upper(b / 16), hex_upper(b % 16)]
    }
}

/// Percent-encoding of a byte string under the strict path set.
pub open spec fn pct_encode(s: Seq<u8>) -> Seq<u8>
    decreases s.len(),
{
    if s.len() == 0 {
        seq![]
    } else {
        encode_byte(s[0]) + pct_encode(s.drop_first())
    }
}

/// Percent-decoding: a `%` followed by two hex digits stands for one byte;
/// every other byte stands for itself.
pub open spec fn pct_decode(s: Seq<u8>) -> Seq<u8>
    decreases s.len(),
{
    if s.len() == 0 {
        seq![]
    } else if s[0] == 37 && s.len() >= 3 && is_hex_digit(s[1]) && is_hex_digit(s[2]) {
        seq![(hex_value(s[1]) * 16 + hex_value(s[2])) as u8] + pct_decode(s.subrange(3, s.len() as int))
    } else {
        seq![s[0]] + pct_decode(s.drop_first())
    }
}

/// The characters of an ASCII byte string.
pub open spec fn ascii_chars(s: Seq<u8>) -> Seq<char> {
    s.map_values(|b: u8| b as char)
}

/// The encoded form of a path, as text.
pub open spec fn encoded_path(path: Seq<char>) -> Seq<char> {
    ascii_chars(pct_encode(encode_utf8(path)))
}

pub proof fn lemma_pct_encode_concat(a: Seq<u8>, b: Seq<u8>)
    ensures
        pct_encode(a + b) == pct_encode(a) + pct_encode(b),
    decreases a.len(),
{
    if a.len() == 0 {
        assert(a + b =~= b);
    } else {
        assert((a + b).drop_first() =~= a.drop_first() + b);
        lemma_pct_encode_concat(a.drop_first(), b);
    }
}

proof fn lemma_hex_round_trip(d: u8)
    requires
        d < 16,
    ensures
        is_hex_digit(hex_upper(d)),
        hex_value(hex_upper(d)) == d,
{
}

proof fn lemma_encode_byte_ascii(b: u8)
    ensures
        forall|i: int| 0 <= i < encode_byte(b).len() ==> #[trigger] encode_byte(b)[i] < 128,
{
}

/// Every byte of an encoded path is ASCII.
pub proof fn lemma_pct_encode_ascii(s: Seq<u8>)
    ensures
        forall|i: int| 0 <= i < pct_encode(s).len() ==> #[trigger] pct_encode(s)[i] < 128,
    decreases s.len(),
{
    if s.len() > 0 {
        lemma_pct_encode_ascii(s.drop_first());
        lemma_encode_byte_ascii(s[0]);
        let e = encode_byte(s[0]);
        let r = pct_encode(s.drop_first());
        assert forall|i: int| 0 <= i < pct_encode(s).len() implies #[trigger] pct_encode(s)[i]
            < 128 by {
            if i < e.len() {
                assert(pct_encode(s)[i] == e[i]);
            } else {
                assert(pct_encode(s)[i] == r[i - e.len()]);
            }
        }
    }
}

/// Decoding the percent-encoding of any byte string gives that byte string back.
pub proof fn lemma_pct_round_trip(s: Seq<u8>)
    ensures
        pct_decode(pct_encode(s)) == s,
    decreases s.len(),
{
    if s.len() == 0 {
        assert(pct_encode(s) =~= seq![]);
    } else {
        let b = s[0];
        let rest = pct_encode(s.drop_first());
        lemma_pct_round_trip(s.drop_first());
        let e = pct_encode(s);
        assert(e == encode_byte(b) + rest);
        if is_unreserved(b) {
            assert(e.drop_first() =~= rest);
            assert(e[0] != 37);
            assert(pct_decode(e) == seq![b] + pct_decode(rest));
        } else {
            lemma_hex_round_trip(b / 16);
            lemma_hex_round_trip(b % 16);
            assert(e.subrange(3, e.len() as int) =~= rest);
            assert(e[1] == hex_upper(b / 16));
            assert(e[2] == hex_upper(b % 16));
            assert((b / 16) * 16 + b % 16 == b) by (nonlinear_arith);
            assert(pct_decode(e) == seq![b] + pct_decode(rest));
        }
        assert(seq![b] + s.drop_first() =~= s);
    }
}

/// Decoding the encoded form of a path recovers the path's UTF-8 bytes.
pub proof fn lemma_path_round_trip(path: Seq<char>)
    ensures
        pct_decode(encode_utf8(encoded_path(path))) == encode_utf8(path),
{
    let bytes = pct_encode(encode_utf8(path));
    let chars = ascii_chars(bytes);
    lemma_pct_encode_ascii(encode_utf8(path));
    assert(is_ascii_chars(chars));
    vstd::utf8::is_ascii_chars_encode_utf8(chars);
    assert(encode_utf8(chars) =~= bytes);
    lemma_pct_round_trip(encode_utf8(path));
}

/// Relies on `String::push`: the character is appended at the end.
#[verifier::external_body]
pub(crate) fn push_char(s: &mut String, c: char)
    ensures
        final(s)@ == old(s)@.push(c),
{
    s.push(c);
}

fn hex_upper_char(d: u8) -> (c: char)
    requires
        d < 16,
    ensures
        c == hex_upper(d) as char,
{
    if d < 10 {
        (48 + d) as char
    } else {
        (55 + d) as char
    }
}

/// Percent-encodes the UTF-8 bytes of a path: unreserved bytes stay, every
/// other byte becomes `%` and two upper-case hex digits.
pub fn encode_path(path: &str) -> (r: String)
    ensures
        r@ == encoded_path(path@),
{
    let bytes = path.as_bytes();
    let mut out = String::new();
    let mut i: usize = 0;
    while i < bytes.len()
        invariant
            bytes@ == encode_utf8(path@),
            0 <= i <= bytes@.len(),
            out@ == ascii_chars(pct_encode(bytes@.subrange(0, i as int))),
        decreases bytes@.len() - i,
    {
        let b = bytes[i];
        proof {
            let pre = bytes@.subrange(0, i as int);
            assert(bytes@.subrange(0, i + 1) =~= pre + seq![b]);
            lemma_pct_encode_concat(pre, seq![b]);
            assert(pct_encode(seq![b]) =~= encode_byte(b)) by {
                assert(seq![b].drop_first() =~= Seq::<u8>::empty());
                assert(pct_encode(Seq::<u8>::empty()) =~= Seq::<u8>::empty());
                assert(encode_byte(b) + Seq::<u8>::empty() =~= encode_byte(b));
            }
        }
        let ghost before = out@;
        if (97 <= b && b <= 122) || (65 <= b && b <= 90) || (48 <= b && b <= 57) || b == 45 || b
            == 46 || b == 95 || b == 126 || b == 47 {
            push_char(&mut out, b as char);
        } else {
            push_char(&mut out, '%');
            push_char(&mut out, hex_upper_char(b / 16));
            push_char(&mut out, hex_upper_char(b % 16));
        }
        i = i + 1;
        proof {
            let pre = bytes@.subrange(0, i - 1);
            assert(out@ =~= ascii_chars(pct_encode(pre) + encode_byte(b)));
        }
    }
    proof {
        assert(bytes@.subrange(0, i as int) =~= bytes@);
    }
    out
}

/// Relies on `percent_encoding::percent_decode`: a `%` followed by two hex
/// digits (either case) yields the byte they spell, every other byte is
/// yielded as it is.
#[verifier::external_body]
fn percent_decode(encoded: &[u8]) -> (r: Vec<u8>)
    ensures
        r@ == pct_decode(encoded@),
{
    percent_encoding::percent_decode(encoded).collect()
}

/// The bytes an encoded path stands for; decoding the encoding of a path
/// gives its UTF-8 bytes back.
pub fn decode_path(encoded: &str) -> (r: Vec<u8>)
    ensures
        r@ == pct_decode(encoded.spec_bytes()),
{
    percent_decode(encoded.as_bytes())
}

/// The text of a decimal digit.
pub open spec fn digit_char(d: nat) -> char {
    seq!['0', '1', '2', '3', '4', '5', '6', '7', '8', '9'][d as int]
}

/// The decimal text of a natural number, without leading zeros.
pub open spec fn decimal(n: nat) -> Seq<char>
    decreases n,
{
    if n < 10 {
        seq![digit_char(n)]
    } else {
        decimal(n / 10).push(digit_char(n % 10))
    }
}

fn digit(d: usize) -> (c: char)
    requires
        d < 10,
    ensures
        c == digit_char(d as nat),
{
    match d {
        0 => '0',
        1 => '1',
        2 => '2',
        3 => '3',
        4 => '4',
        5 => '5',
        6 => '6',
        7 => '7',
        8 => '8',
        _ => '9',
    }
}

/// Appends the decimal text of `n`.
pub fn push_decimal(out: &mut String, n: usize)
    ensures
        final(out)@ == old(out)@ + decimal(n as nat),
    decreases n,
{
    if n >= 10 {
        push_decimal(out, n / 10);
    }
    push_char(out, digit(n % 10));
    proof {
        if n < 10 {
            assert(decimal(n as nat) == seq![digit_char(n as nat)]);
        }
    }
    assert(final(out)@ =~= old(out)@ + decimal(n as nat));
}

/// XML text of one character: markup characters become entity references.
pub open spec fn xml_escape_char(c: char) -> Seq<char> {
    if c == '<' {
        seq!['&', 'l', 't', ';']
    } else if c == '>' {
        seq!['&', 'g', 't', ';']
    } else if c == '&' {
        seq!['&', 'a', 'm', 'p', ';']
    } else if c == '\'' {
        seq!['&', 'a', 'p', 'o', 's', ';']
    } else if c == '"' {
        seq!['&', 'q', 'u', 'o', 't', ';']
    } else {
        seq![c]
    }
}

/// XML text of a string, character by character.
pub open spec fn xml_escaped(s: Seq<char>) -> Seq<char>
    decreases s.len(),
{
    if s.len() == 0 {
        seq![]
    } else {
        xml_escape_char(s[0]) + xml_escaped(s.drop_first())
    }
}

/// Relies on `quick_xml::escape::escape`: `<`, `>`, `&`, `'` and `"` are
/// replaced by `&lt;`, `&gt;`, `&amp;`, `&apos;` and `&quot;`, every other
/// character is kept.
#[verifier::external_body]
pub(crate) fn xml_escape(s: &str) -> (r: String)
    ensures
        r@ == xml_escaped(s@),
{
    quick_xml::escape::escape(s).into_owned()
}

} // verus!
