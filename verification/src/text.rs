//! Byte scanning, text decoding and decimal numbers, shared by the request
//! parser and the response writer.

use std::string::FromUtf8Error;
use vstd::prelude::*;
use vstd::slice::slice_subrange;
use vstd::slice::slice_to_vec;
use vstd::string::StringExecFns;
use vstd::utf8::decode_utf8;
use vstd::utf8::encode_utf8;
use vstd::utf8::encode_utf8_decode_utf8;
use vstd::utf8::is_ascii_chars;
use vstd::utf8::is_ascii_chars_encode_utf8;
use vstd::utf8::valid_utf8;

verus! {

/// Index of the first occurrence of `byte` in `s` at or after `from`,
/// or `s.len()` when there is none.
pub open spec fn find_from(s: Seq<u8>, byte: u8, from: int) -> int
    decreases s.len() - from,
{
    if from < 0 || from >= s.len() {
        s.len() as int
    } else if s[from] == byte {
        from
    } else {
        find_from(s, byte, from + 1)
    }
}

/// `find_from` is the least index at or after `from` that holds `byte`.
pub proof fn lemma_find_from(s: Seq<u8>, byte: u8, from: int)
    requires
        0 <= from <= s.len(),
    ensures
        from <= find_from(s, byte, from) <= s.len(),
        find_from(s, byte, from) < s.len() ==> s[find_from(s, byte, from)] == byte,
        forall|i: int| from <= i < find_from(s, byte, from) ==> s[i] != byte,
    decreases s.len() - from,
{
    if from < s.len() && s[from] != byte {
        lemma_find_from(s, byte, from + 1);
    }
}

/// An index at or after `from` that holds `byte`, with no `byte` before it,
/// is the one `find_from` gives.
pub proof fn lemma_find_from_is(s: Seq<u8>, byte: u8, from: int, at: int)
    requires
        0 <= from <= at <= s.len(),
        at < s.len() ==> s[at] == byte,
        forall|i: int| from <= i < at ==> s[i] != byte,
    ensures
        find_from(s, byte, from) == at,
    decreases at - from,
{
    if from < at {
        lemma_find_from_is(s, byte, from + 1, at);
    }
}

/// Scans `buf` for `byte`, starting at `from`.
pub fn scan_for(buf: &[u8], byte: u8, from: usize) -> (idx: usize)
    ensures
        idx == find_from(buf@, byte, from as int),
        from <= buf@.len() ==> from <= idx <= buf@.len(),
        from > buf@.len() ==> idx == buf@.len(),
{
    if from >= buf.len() {
        return buf.len();
    }
    let mut idx: usize = from;
    while idx < buf.len() && buf[idx] != byte
        invariant
            from <= idx <= buf@.len(),
            find_from(buf@, byte, from as int) == find_from(buf@, byte, idx as int),
        decreases buf@.len() - idx,
    {
        idx = idx + 1;
    }
    idx
}

/// Whether two byte slices hold the same bytes.
pub fn bytes_eq(a: &[u8], b: &[u8]) -> (same: bool)
    ensures
        same == (a@ == b@),
{
    if a.len() != b.len() {
        return false;
    }
    let mut i: usize = 0;
    while i < a.len()
        invariant
            a@.len() == b@.len(),
            i <= a@.len(),
            forall|j: int| 0 <= j < i ==> a@[j] == b@[j],
        decreases a@.len() - i,
    {
        if a[i] != b[i] {
            return false;
        }
        i = i + 1;
    }
    assert(a@ =~= b@);
    true
}

/// Whether two texts are the same sequence of characters.
pub fn str_eq(a: &str, b: &str) -> (same: bool)
    ensures
        same == (a@ == b@),
{
    proof {
        encode_utf8_decode_utf8(a@);
        encode_utf8_decode_utf8(b@);
    }
    bytes_eq(a.as_bytes(), b.as_bytes())
}

/// Appends the bytes of `src` to `out`.
pub fn append_bytes(out: &mut Vec<u8>, src: &[u8])
    ensures
        final(out)@ == old(out)@ + src@,
{
    let mut i: usize = 0;
    while i < src.len()
        invariant
            i <= src@.len(),
            out@ == old(out)@ + src@.subrange(0, i as int),
        decreases src@.len() - i,
    {
        out.push(src[i]);
        i = i + 1;
        assert(out@ =~= old(out)@ + src@.subrange(0, i as int));
    }
    assert(src@.subrange(0, src@.len() as int) =~= src@);
}

#[verifier::external_type_specification]
#[verifier::external_body]
pub struct ExFromUtf8Error(FromUtf8Error);

/// `String::from_utf8` succeeds exactly on well-formed UTF-8 and then holds
/// the characters that the bytes encode.
pub assume_specification[ String::from_utf8 ](vec: Vec<u8>) -> (decoded: Result<
    String,
    FromUtf8Error,
>)
    ensures
        decoded is Ok <==> valid_utf8(vec@),
        decoded matches Ok(text) ==> text@ == decode_utf8(vec@),
;

/// The text that `bytes` encode, or `fallback` where they are not UTF-8.
pub open spec fn text_or(bytes: Seq<u8>, fallback: Seq<char>) -> Seq<char> {
    if valid_utf8(bytes) {
        decode_utf8(bytes)
    } else {
        fallback
    }
}

/// Decodes `buf[from..to]`, degrading to `fallback` on malformed UTF-8.
pub fn decode_range(buf: &[u8], from: usize, to: usize, fallback: &str) -> (text: String)
    requires
        from <= to <= buf@.len(),
    ensures
        text@ == text_or(buf@.subrange(from as int, to as int), fallback@),
{
    match String::from_utf8(slice_to_vec(slice_subrange(buf, from, to))) {
        Ok(text) => text,
        Err(_) => fallback.to_owned(),
    }
}

/// The lower-case form that `str::to_lowercase` gives a text.
pub uninterp spec fn lowercase_of(text: Seq<char>) -> Seq<char>;

/// Calls `str::to_lowercase`, which maps each character to its Unicode
/// lower-case equivalent. The contract only names the result.
#[verifier::external_body]
pub(crate) fn to_lowercase(text: &str) -> (lower: String)
    ensures
        lower@ == lowercase_of(text@),
{
    text.to_lowercase()
}

/// The character of the decimal digit `d`.
pub open spec fn digit_char(d: nat) -> char
    recommends
        d < 10,
{
    ((48 + d) as u8) as char
}

/// `n` in decimal, without leading zeros.
pub open spec fn decimal_chars(n: nat) -> Seq<char>
    decreases n,
{
    if n < 10 {
        seq![digit_char(n)]
    } else {
        decimal_chars(n / 10).push(digit_char(n % 10))
    }
}

/// Whether every byte is a decimal digit, and there is at least one.
pub open spec fn all_digits(bytes: Seq<u8>) -> bool {
    &&& bytes.len() > 0
    &&& forall|i: int| 0 <= i < bytes.len() ==> 48 <= #[trigger] bytes[i] <= 57
}

/// The number that a sequence of decimal digits denotes.
pub open spec fn digits_value(bytes: Seq<u8>) -> nat
    decreases bytes.len(),
{
    if bytes.len() == 0 {
        0
    } else {
        (10 * digits_value(bytes.drop_last()) + (bytes.last() - 48)) as nat
    }
}

/// The bytes of a text that holds ASCII characters only.
pub open spec fn ascii_bytes(chars: Seq<char>) -> Seq<u8> {
    Seq::new(chars.len(), |i: int| chars[i] as u8)
}

/// A decimal number is written in ASCII digits, one byte each.
pub proof fn lemma_decimal_is_ascii(n: nat)
    ensures
        is_ascii_chars(decimal_chars(n)),
        encode_utf8(decimal_chars(n)) == ascii_bytes(decimal_chars(n)),
        all_digits(ascii_bytes(decimal_chars(n))),
    decreases n,
{
    let s = decimal_chars(n);
    if n >= 10 {
        lemma_decimal_is_ascii(n / 10);
        let front = decimal_chars(n / 10);
        assert forall|i: int| 0 <= i < s.len() implies '\0' <= #[trigger] s[i] <= '\u{7f}' && 48
            <= s[i] as u8 <= 57 by {
            if i < front.len() {
                assert(s[i] == front[i]);
                assert(ascii_bytes(front)[i] == front[i] as u8);
            }
        }
    }
    is_ascii_chars_encode_utf8(s);
    assert(encode_utf8(s) =~= ascii_bytes(s));
    assert forall|i: int| 0 <= i < ascii_bytes(s).len() implies 48 <= #[trigger] ascii_bytes(
        s,
    )[i] <= 57 by {
        if n >= 10 && i < decimal_chars(n / 10).len() {
            assert(s[i] == decimal_chars(n / 10)[i]);
            assert(ascii_bytes(decimal_chars(n / 10))[i] == decimal_chars(n / 10)[i] as u8);
        }
    }
}

/// Writing a number in decimal and reading the bytes back gives the number.
pub proof fn lemma_decimal_round_trip(n: nat)
    ensures
        all_digits(encode_utf8(decimal_chars(n))),
        digits_value(encode_utf8(decimal_chars(n))) == n,
    decreases n,
{
    lemma_decimal_is_ascii(n);
    let s = decimal_chars(n);
    let b = ascii_bytes(s);
    if n < 10 {
        assert(b.drop_last() =~= Seq::<u8>::empty());
        assert(digits_value(b.drop_last()) == 0);
        assert(b.last() == digit_char(n) as u8);
        assert(digit_char(n) as u8 == 48 + n);
    } else {
        lemma_decimal_round_trip(n / 10);
        lemma_decimal_is_ascii(n / 10);
        assert(b.drop_last() =~= ascii_bytes(decimal_chars(n / 10)));
        assert(b.last() == digit_char(n % 10) as u8);
        assert(digit_char(n % 10) as u8 == 48 + n % 10);
    }
}

fn digit_text(d: usize) -> (text: &'static str)
    requires
        d < 10,
    ensures
        text@ == seq![digit_char(d as nat)],
{
    proof {
        reveal_strlit("0");
        reveal_strlit("1");
        reveal_strlit("2");
        reveal_strlit("3");
        reveal_strlit("4");
        reveal_strlit("5");
        reveal_strlit("6");
        reveal_strlit("7");
        reveal_strlit("8");
        reveal_strlit("9");
    }
    let text = if d == 0 {
        "0"
    } else if d == 1 {
        "1"
    } else if d == 2 {
        "2"
    } else if d == 3 {
        "3"
    } else if d == 4 {
        "4"
    } else if d == 5 {
        "5"
    } else if d == 6 {
        "6"
    } else if d == 7 {
        "7"
    } else if d == 8 {
        "8"
    } else {
        "9"
    };
    assert(text@ =~= seq![digit_char(d as nat)]);
    text
}

/// `n` written in decimal.
pub fn decimal_string(n: usize) -> (text: String)
    ensures
        text@ == decimal_chars(n as nat),
    decreases n,
{
    if n < 10 {
        digit_text(n).to_owned()
    } else {
        let mut text = decimal_string(n / 10);
        text.append(digit_text(n % 10));
        assert(text@ =~= decimal_chars(n as nat));
        text
    }
}

} // verus!
