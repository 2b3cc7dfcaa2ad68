//! Digests and the texts that they are taken of.

use crate::text::Message;
use sha2::Digest;
use vstd::prelude::*;

verus! {

/// The SHA-256 digest of these bytes.
pub uninterp spec fn sha256(bytes: Seq<u8>) -> Seq<u8>;

/// The SHA-256 digest of these bytes.
///
/// Trusted: `sha2::Sha256::digest` is a function of the bytes alone, named `sha256` here, and its
/// result has thirty-two bytes. Which bytes they are is left unsaid.
#[verifier::external_body]
pub(crate) fn digest(bytes: &[u8]) -> (r: Vec<u8>)
    ensures
        r@ == sha256(bytes@),
        r@.len() == 32,
{
    sha2::Sha256::digest(bytes).to_vec()
}

/// A character inside a JSON string literal: the quote, the backslash and the characters below the
/// space are escaped.
pub open spec fn json_char(c: char) -> Seq<char> {
    if c == '"' {
        "\\\""@
    } else if c == '\\' {
        "\\\\"@
    } else if c == '\u{8}' {
        "\\b"@
    } else if c == '\t' {
        "\\t"@
    } else if c == '\n' {
        "\\n"@
    } else if c == '\u{c}' {
        "\\f"@
    } else if c == '\r' {
        "\\r"@
    } else if (c as u32) < 32 {
        "\\u00"@ + hex_byte(c as u8)
    } else {
        seq![c]
    }
}

/// Characters inside a JSON string literal.
pub open spec fn json_characters(s: Seq<char>) -> Seq<char>
    decreases s.len(),
{
    if s.len() == 0 {
        Seq::empty()
    } else {
        json_characters(s.drop_last()) + json_char(s.last())
    }
}

/// The JSON string literal of a text.
pub open spec fn json_text(s: Seq<char>) -> Seq<char> {
    "\""@ + json_characters(s) + "\""@
}

/// The JSON string literal of this text.
///
/// Trusted: `serde_json::to_string` of a `str` always succeeds. It puts the text between double
/// quotes, and escapes the double quote, the backslash and the control characters below the space:
/// five of those by a letter, the others by their two hexadecimal digits.
#[verifier::external_body]
pub(crate) fn json_string(s: &str) -> (r: String)
    ensures
        r@ == json_text(s@),
{
    serde_json::to_string(s).expect("a string can always be written as JSON")
}

/// The hexadecimal digit `d`, in lower case.
pub open spec fn hex_digit(d: nat) -> Seq<char> {
    if d < 10 {
        crate::text::digit(d)
    } else if d == 10 {
        "a"@
    } else if d == 11 {
        "b"@
    } else if d == 12 {
        "c"@
    } else if d == 13 {
        "d"@
    } else if d == 14 {
        "e"@
    } else {
        "f"@
    }
}

/// A byte as two hexadecimal digits.
pub open spec fn hex_byte(byte: u8) -> Seq<char> {
    hex_digit((byte / 16) as nat) + hex_digit((byte % 16) as nat)
}

/// Bytes in hexadecimal.
pub open spec fn hex(bytes: Seq<u8>) -> Seq<char>
    decreases bytes.len(),
{
    if bytes.len() == 0 {
        ""@
    } else {
        hex(bytes.drop_last()) + hex_byte(bytes.last())
    }
}

fn hex_digit_text(d: u8) -> (r: &'static str)
    requires
        d < 16,
    ensures
        r@ == hex_digit(d as nat),
{
    if d == 0 {
        "0"
    } else if d == 1 {
        "1"
    } else if d == 2 {
        "2"
    } else if d == 3 {
        "3"
    } else if d == 4 {
        "4"
    } else if d == 5 {
        "5"
    } else if d == 6 {
        "6"
    } else if d == 7 {
        "7"
    } else if d == 8 {
        "8"
    } else if d == 9 {
        "9"
    } else if d == 10 {
        "a"
    } else if d == 11 {
        "b"
    } else if d == 12 {
        "c"
    } else if d == 13 {
        "d"
    } else if d == 14 {
        "e"
    } else {
        "f"
    }
}

/// The first `count` bytes in hexadecimal.
pub fn hex_text(bytes: &Vec<u8>, count: usize) -> (r: String)
    requires
        count <= bytes@.len(),
    ensures
        r@ == hex(bytes@.take(count as int)),
{
    let ghost all = bytes@.take(count as int);
    let mut message: Message = Message::new("");
    let mut i: usize = 0;
    assert(all.take(0) =~= Seq::empty());
    while i < count
        invariant
            i <= count <= bytes@.len(),
            all == bytes@.take(count as int),
            message@ == hex(all.take(i as int)),
        decreases count - i,
    {
        proof {
            assert(all.take(i + 1).drop_last() =~= all.take(i as int));
            assert(all.take(i + 1).last() == bytes@[i as int]);
        }
        let byte: u8 = bytes[i];
        let ghost before = message@;
        message = message.text(hex_digit_text(byte / 16)).text(hex_digit_text(byte % 16));
        assert(message@ =~= before + hex_byte(byte));
        i += 1;
    }
    assert(all.take(all.len() as int) =~= all);
    message.done()
}

/// The digest of these bytes, in hexadecimal.
pub fn sha256_hex(bytes: &[u8]) -> (r: String)
    ensures
        r@ == hex(sha256(bytes@)),
{
    let bytes: Vec<u8> = digest(bytes);
    assert(bytes@.take(32) =~= bytes@);
    hex_text(&bytes, 32)
}

proof fn lemma_hex_digit(d: nat)
    requires
        d < 16,
    ensures
        hex_digit(d).len() == 1,
        hex_digit(d)[0] as u32 == if d < 10 {
            '0' as u32 + d
        } else {
            'a' as u32 + d - 10
        },
{
    reveal_strlit("0");
    reveal_strlit("1");
    reveal_strlit("2");
    reveal_strlit("3");
    reveal_strlit("4");
    reveal_strlit("5");
    reveal_strlit("6");
    reveal_strlit("7");
    reveal_strlit("8");
    reveal_strlit("9");
    reveal_strlit("a");
    reveal_strlit("b");
    reveal_strlit("c");
    reveal_strlit("d");
    reveal_strlit("e");
    reveal_strlit("f");
}

/// A byte is written with two digits, that of its sixteens before that of its ones, and the bytes are
/// written one after the other.
pub proof fn bytes_are_written_with_two_digits(bytes: Seq<u8>, i: int)
    requires
        0 <= i < bytes.len(),
    ensures
        hex(bytes).len() == 2 * bytes.len(),
        seq![hex(bytes)[2 * i]] == hex_digit(bytes[i] as nat / 16),
        seq![hex(bytes)[2 * i + 1]] == hex_digit(bytes[i] as nat % 16),
    decreases bytes.len(),
{
    let front = bytes.drop_last();
    let high = bytes[i] as nat / 16;
    let low = bytes[i] as nat % 16;
    let last = bytes.last();
    lemma_hex_digit(last as nat / 16);
    lemma_hex_digit(last as nat % 16);
    lemma_hex_digit(high);
    lemma_hex_digit(low);
    lemma_hex_len(front);
    if i < front.len() {
        bytes_are_written_with_two_digits(front, i);
        assert(hex(bytes)[2 * i] == hex(front)[2 * i]);
        assert(hex(bytes)[2 * i + 1] == hex(front)[2 * i + 1]);
    } else {
        assert(hex(bytes) == hex(front) + hex_byte(last));
        assert(hex(bytes)[2 * i] == hex_byte(last)[0]);
        assert(hex(bytes)[2 * i + 1] == hex_byte(last)[1]);
        assert(seq![hex(bytes)[2 * i]] =~= hex_digit(high));
        assert(seq![hex(bytes)[2 * i + 1]] =~= hex_digit(low));
    }
}

proof fn lemma_hex_len(bytes: Seq<u8>)
    ensures
        hex(bytes).len() == 2 * bytes.len(),
    decreases bytes.len(),
{
    reveal_strlit("");
    if bytes.len() > 0 {
        lemma_hex_len(bytes.drop_last());
        lemma_hex_digit(bytes.last() as nat / 16);
        lemma_hex_digit(bytes.last() as nat % 16);
    }
}

/// The digits tell the bytes: two that are written alike are the same.
pub proof fn digits_tell_the_bytes(a: Seq<u8>, b: Seq<u8>)
    requires
        hex(a) == hex(b),
    ensures
        a == b,
{
    lemma_hex_len(a);
    lemma_hex_len(b);
    assert forall|i: int| 0 <= i < a.len() implies a[i] == b[i] by {
        bytes_are_written_with_two_digits(a, i);
        bytes_are_written_with_two_digits(b, i);
        lemma_hex_digit(a[i] as nat / 16);
        lemma_hex_digit(a[i] as nat % 16);
        lemma_hex_digit(b[i] as nat / 16);
        lemma_hex_digit(b[i] as nat % 16);
        assert(hex_digit(a[i] as nat / 16) == hex_digit(b[i] as nat / 16));
        assert(hex_digit(a[i] as nat % 16) == hex_digit(b[i] as nat % 16));
    }
    assert(a =~= b);
}

/// Text without quotes, backslashes and control characters is written as it is, between quotes.
pub proof fn plain_text_is_only_quoted(s: Seq<char>)
    requires
        forall|i: int| 0 <= i < s.len() ==> (#[trigger] s[i]) as u32 >= 32 && s[i] != '"' && s[i] != '\\',
    ensures
        json_text(s) == seq!['"'] + s + seq!['"'],
    decreases s.len(),
{
    lemma_plain_characters(s);
    reveal_strlit("\"");
    assert("\""@ =~= seq!['"']);
}

proof fn lemma_plain_characters(s: Seq<char>)
    requires
        forall|i: int| 0 <= i < s.len() ==> (#[trigger] s[i]) as u32 >= 32 && s[i] != '"' && s[i] != '\\',
    ensures
        json_characters(s) == s,
    decreases s.len(),
{
    if s.len() > 0 {
        let front = s.drop_last();
        assert forall|i: int| 0 <= i < front.len() implies (#[trigger] front[i]) as u32 >= 32
            && front[i] != '"' && front[i] != '\\' by {
            assert(s[i] == front[i]);
        }
        lemma_plain_characters(front);
        assert(s[s.len() - 1] == s.last());
        assert(json_char(s.last()) == seq![s.last()]);
        assert(json_characters(s) =~= s);
    } else {
        assert(json_characters(s) =~= s);
    }
}

} // verus!
