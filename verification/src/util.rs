//! The stages of the request parser. Each stage reads a prefix of the read
//! buffer and says where the next stage begins. None of them fails: bytes
//! that are not UTF-8 degrade to a placeholder text, and a stage that starts
//! behind the end of the buffer reads nothing.

use crate::text::decode_range;
use crate::text::find_from;
use crate::text::lemma_find_from;
use crate::text::lowercase_of;
use crate::text::scan_for;
use crate::text::text_or;
use crate::text::to_lowercase;
use crate::text_map::map_of;
use crate::text_map::TextMap;
use vstd::prelude::*;

verus! {

/// What stands for a method, locator, version or path that is not UTF-8.
pub const PLACEHOLDER: &'static str = "???";

pub const SPACE: u8 = 32;

pub const CARRIAGE_RETURN: u8 = 13;

pub const COLON: u8 = 58;

pub const QUESTION_MARK: u8 = 63;

/// Where the method token ends: at the first space, or at 0 where the
/// buffer holds no space.
pub open spec fn method_end(buf: Seq<u8>) -> int {
    let at = find_from(buf, SPACE, 0);
    if at < buf.len() {
        at
    } else {
        0
    }
}

/// The method: the bytes before the first space.
pub open spec fn method_of(buf: Seq<u8>) -> Seq<char> {
    text_or(buf.subrange(0, method_end(buf)), PLACEHOLDER@)
}

/// Finds the end of the method token.
pub fn scan_method(buf: &[u8]) -> (end: usize)
    ensures
        end == method_end(buf@),
        end <= buf@.len(),
        buf@.len() > 0 ==> end < buf@.len(),
{
    let at = scan_for(buf, SPACE, 0);
    if at < buf.len() {
        at
    } else {
        0
    }
}

/// Stage 1: the method token.
pub fn parse_method(buf: &[u8]) -> (method: String)
    ensures
        method@ == method_of(buf@),
{
    let end = scan_method(buf);
    decode_range(buf, 0, end, PLACEHOLDER)
}

/// Where the locator that begins at `start` ends: at the next space, or at
/// `start` where no space follows.
pub open spec fn locator_end(buf: Seq<u8>, start: int) -> int {
    let at = find_from(buf, SPACE, start);
    if start < buf.len() && at < buf.len() {
        at
    } else {
        start
    }
}

/// The bytes of the locator that begins at `start`: those up to the next
/// space; none where `start` lies behind the buffer.
pub open spec fn locator_bytes(buf: Seq<u8>, start: int) -> Seq<u8> {
    if 0 <= start < buf.len() {
        buf.subrange(start, locator_end(buf, start))
    } else {
        Seq::empty()
    }
}

/// The locator that begins at `start`, as text.
pub open spec fn locator_of(buf: Seq<u8>, start: int) -> Seq<char> {
    if 0 <= start < buf.len() {
        text_or(locator_bytes(buf, start), PLACEHOLDER@)
    } else {
        Seq::empty()
    }
}

/// Stage 2: the raw locator, path and query together, and the offset of the
/// space that ends it.
pub fn parse_locator(buf: &[u8], start: usize) -> (found: (String, usize))
    ensures
        found.0@ == locator_of(buf@, start as int),
        found.1 == locator_end(buf@, start as int),
        start <= found.1,
        start <= buf@.len() ==> found.1 <= buf@.len(),
{
    if start >= buf.len() {
        return (String::new(), start);
    }
    let at = scan_for(buf, SPACE, start);
    let end = if at < buf.len() {
        at
    } else {
        start
    };
    (decode_range(buf, start, end, PLACEHOLDER), end)
}

/// Where the version that begins at `start` ends: at the next carriage
/// return, or at the end of the buffer.
pub open spec fn version_end(buf: Seq<u8>, start: int) -> int {
    find_from(buf, CARRIAGE_RETURN, start)
}

/// The version that begins at `start`: the bytes up to the carriage return.
pub open spec fn version_of(buf: Seq<u8>, start: int) -> Seq<char> {
    if 0 <= start < buf.len() {
        text_or(buf.subrange(start, version_end(buf, start)), PLACEHOLDER@)
    } else {
        Seq::empty()
    }
}

/// The offset behind the version: one past the carriage return, whether
/// the version is UTF-8 or not, and `start` where `start` lies behind the
/// buffer.
pub open spec fn version_next(buf: Seq<u8>, start: int) -> int {
    if 0 <= start < buf.len() {
        version_end(buf, start) + 1
    } else {
        start
    }
}

/// Stage 3: the protocol version, and the offset behind it.
pub fn parse_version(buf: &[u8], start: usize) -> (found: (String, usize))
    requires
        buf@.len() < usize::MAX,
    ensures
        found.0@ == version_of(buf@, start as int),
        found.1 == version_next(buf@, start as int),
        start <= found.1,
        start <= buf@.len() ==> found.1 <= buf@.len() + 1,
{
    if start >= buf.len() {
        return (String::new(), start);
    }
    let end = scan_for(buf, CARRIAGE_RETURN, start);
    (decode_range(buf, start, end, PLACEHOLDER), end + 1)
}

/// Where the header name that begins at `pos` ends: at the first colon that
/// comes before any carriage return, or at `pos` where the line has none.
pub open spec fn header_name_end(buf: Seq<u8>, pos: int) -> int {
    if find_from(buf, COLON, pos) < find_from(buf, CARRIAGE_RETURN, pos) {
        find_from(buf, COLON, pos)
    } else {
        pos
    }
}

/// The header name that begins at `pos`, as it stands in the buffer. It is
/// empty where the line has no colon, where the colon is its first byte,
/// and where the name is not UTF-8.
pub open spec fn header_name_of(buf: Seq<u8>, pos: int) -> Seq<char> {
    text_or(buf.subrange(pos, header_name_end(buf, pos)), Seq::empty())
}

/// Reads a header name at `pos`, and says where its value begins: two bytes
/// behind the end of the name, past the colon and the space.
pub fn parse_header_name(buf: &[u8], pos: usize) -> (found: (String, usize))
    requires
        pos <= buf@.len() <= usize::MAX - 2,
    ensures
        found.0@ == header_name_of(buf@, pos as int),
        found.1 == header_name_end(buf@, pos as int) + 2,
        pos + 2 <= found.1 <= buf@.len() + 2,
{
    proof {
        lemma_find_from(buf@, COLON, pos as int);
        lemma_find_from(buf@, CARRIAGE_RETURN, pos as int);
        reveal_strlit("");
        assert(""@ =~= Seq::<char>::empty());
    }
    let colon = scan_for(buf, COLON, pos);
    let cr = scan_for(buf, CARRIAGE_RETURN, pos);
    let end = if colon < cr {
        colon
    } else {
        pos
    };
    (decode_range(buf, pos, end, ""), end + 2)
}

/// Where the header value that begins at `pos` ends: at the next carriage
/// return, or at the end of the buffer.
pub open spec fn header_value_end(buf: Seq<u8>, pos: int) -> int {
    find_from(buf, CARRIAGE_RETURN, pos)
}

/// The header value that begins at `pos`; empty where it is not UTF-8.
pub open spec fn header_value_of(buf: Seq<u8>, pos: int) -> Seq<char> {
    text_or(buf.subrange(pos, header_value_end(buf, pos)), Seq::empty())
}

/// Reads a header value at `pos`, and says where the next line begins: two
/// bytes behind the end of the value, past the carriage return and the line
/// feed.
pub fn parse_header_value(buf: &[u8], pos: usize) -> (found: (String, usize))
    requires
        pos <= buf@.len() <= usize::MAX - 2,
    ensures
        found.0@ == header_value_of(buf@, pos as int),
        found.1 == header_value_end(buf@, pos as int) + 2,
        pos + 2 <= found.1 <= buf@.len() + 2,
{
    proof {
        lemma_find_from(buf@, CARRIAGE_RETURN, pos as int);
        reveal_strlit("");
        assert(""@ =~= Seq::<char>::empty());
    }
    let end = scan_for(buf, CARRIAGE_RETURN, pos);
    (decode_range(buf, pos, end, ""), end + 2)
}

/// Where the value of the header at `pos` begins: behind the colon and the
/// space, and no further than the end of the buffer.
pub open spec fn header_value_start(buf: Seq<u8>, pos: int) -> int {
    if header_name_end(buf, pos) + 2 <= buf.len() {
        header_name_end(buf, pos) + 2
    } else {
        buf.len() as int
    }
}

/// Where the line behind the header at `pos` begins.
pub open spec fn header_next(buf: Seq<u8>, pos: int) -> int {
    header_value_end(buf, header_value_start(buf, pos)) + 2
}

/// Whether the line at `pos` has a colon: one that comes before any
/// carriage return and before the end of the buffer. An empty line has none.
pub open spec fn has_header_colon(buf: Seq<u8>, pos: int) -> bool {
    find_from(buf, COLON, pos) < find_from(buf, CARRIAGE_RETURN, pos)
}

/// The header fields from `pos` on, in the order of the lines: each name in
/// lower case with its value. The block ends before the first line without
/// a colon, an empty line among them, and at the end of the buffer. A line
/// whose name is empty or not UTF-8 is left out, and the lines behind it
/// still count.
pub open spec fn headers_from(buf: Seq<u8>, pos: int) -> Seq<(Seq<char>, Seq<char>)>
    decreases buf.len() - pos,
{
    if pos < 0 || pos >= buf.len() || !has_header_colon(buf, pos) {
        Seq::empty()
    } else {
        let rest = if pos < header_next(buf, pos) < buf.len() {
            headers_from(buf, header_next(buf, pos))
        } else {
            Seq::empty()
        };
        if header_name_of(buf, pos).len() == 0 {
            rest
        } else {
            seq![
                (
                    lowercase_of(header_name_of(buf, pos)),
                    header_value_of(buf, header_value_start(buf, pos)),
                ),
            ] + rest
        }
    }
}

/// Stage 4: the header block that begins at `start`, as a map from
/// lower-cased names to values. Of two lines with one name the later wins.
/// A malformed line is left out and does not end the block.
pub fn parse_headers(buf: &[u8], start: usize) -> (headers: TextMap)
    requires
        buf@.len() <= usize::MAX - 2,
    ensures
        headers.wf(),
        headers@ == map_of(headers_from(buf@, start as int)),
{
    let mut headers = TextMap::new();
    let ghost mut seen: Seq<(Seq<char>, Seq<char>)> = Seq::empty();
    let mut pos: usize = start;
    while pos < buf.len()
        invariant
            buf@.len() <= usize::MAX - 2,
            headers.wf(),
            headers@ == map_of(seen),
            headers_from(buf@, start as int) == seen + headers_from(buf@, pos as int),
        decreases buf@.len() - pos,
    {
        let (name, after_name) = parse_header_name(buf, pos);
        proof {
            lemma_find_from(buf@, COLON, pos as int);
            lemma_find_from(buf@, CARRIAGE_RETURN, pos as int);
        }
        if after_name == pos + 2 && buf[pos] != COLON {
            proof {
                assert(!has_header_colon(buf@, pos as int));
                assert(headers_from(buf@, pos as int) =~= Seq::empty());
                assert(seen + headers_from(buf@, pos as int) =~= seen);
            }
            return headers;
        }
        assert(has_header_colon(buf@, pos as int));
        let value_start = if after_name <= buf.len() {
            after_name
        } else {
            buf.len()
        };
        let (value, next) = parse_header_value(buf, value_start);
        let ghost rest = if next < buf@.len() {
            headers_from(buf@, next as int)
        } else {
            Seq::empty()
        };
        if !name.as_str().is_empty() {
            let key = to_lowercase(name.as_str());
            proof {
                let field = (key@, value@);
                assert(headers_from(buf@, pos as int) == seq![field] + rest);
                assert(seen + (seq![field] + rest) =~= seen.push(field) + rest);
                assert(seen.push(field).drop_last() =~= seen);
                seen = seen.push(field);
            }
            headers.insert(key, value);
        } else {
            proof {
                assert(headers_from(buf@, pos as int) == rest);
            }
        }
        if next >= buf.len() {
            proof {
                assert(seen + Seq::<(Seq<char>, Seq<char>)>::empty() =~= seen);
            }
            return headers;
        }
        pos = next;
    }
    proof {
        assert(headers_from(buf@, pos as int) =~= Seq::empty());
        assert(seen + headers_from(buf@, pos as int) =~= seen);
    }
    headers
}

/// Where the path ends within a locator: at the first question mark, or at
/// the end of the locator.
pub open spec fn path_end(locator: Seq<u8>) -> int {
    find_from(locator, QUESTION_MARK, 0)
}

/// The path of a locator: the bytes before the first question mark.
pub open spec fn path_of(locator: Seq<u8>) -> Seq<char> {
    text_or(locator.subrange(0, path_end(locator)), PLACEHOLDER@)
}

/// Stage 5: splits a locator at the first question mark into the path and
/// the query. The query is not parsed: the map of parameters stays empty.
pub fn parse_path_components(buf: &[u8]) -> (parts: (String, TextMap))
    ensures
        parts.0@ == path_of(buf@),
        parts.1.wf(),
        parts.1@ == Map::<Seq<char>, Seq<char>>::empty(),
{
    let end = scan_for(buf, QUESTION_MARK, 0);
    (decode_range(buf, 0, end, PLACEHOLDER), TextMap::new())
}

} // verus!
