//! The response model, its fixed plain-text responses and its wire form.

use crate::text::all_digits;
use crate::text::append_bytes;
use crate::text::decimal_chars;
use crate::text::decimal_string;
use crate::text::digits_value;
use crate::text::lemma_decimal_round_trip;
use crate::text::lemma_find_from_is;
use crate::text::scan_for;
use crate::text_map::lemma_map_of_domain;
use crate::text_map::lemma_map_of_entry;
use crate::text_map::TextMap;
use crate::util::locator_end;
use crate::util::method_end;
use crate::util::scan_method;
use crate::util::CARRIAGE_RETURN;
use crate::util::COLON;
use crate::util::SPACE;
use vstd::prelude::*;
use vstd::string::StrSliceExecFns;
use vstd::utf8::encode_utf8;
use vstd::utf8::is_ascii_chars_encode_utf8;

verus! {

pub const LINE_FEED: u8 = 10;

/// Name of the header that gives the media type of the body.
pub const CONTENT_TYPE: &'static str = "content-type";

/// Name of the header that gives the number of bytes of the body.
pub const CONTENT_LENGTH: &'static str = "content-length";

/// Media type of the fixed responses.
pub const PLAIN_TEXT: &'static str = "text/plain; charset=utf-8";

/// The status line: version, status code in decimal and reason, with single
/// spaces between them and CR LF behind.
pub open spec fn status_line(version: Seq<char>, status: u16, reason: Seq<char>) -> Seq<u8> {
    encode_utf8(version) + seq![SPACE] + encode_utf8(decimal_chars(status as nat)) + seq![SPACE]
        + encode_utf8(reason) + seq![CARRIAGE_RETURN, LINE_FEED]
}

/// One header line: name, colon, space, value, CR LF.
pub open spec fn header_line(field: (Seq<char>, Seq<char>)) -> Seq<u8> {
    encode_utf8(field.0) + seq![COLON, SPACE] + encode_utf8(field.1) + seq![
        CARRIAGE_RETURN,
        LINE_FEED,
    ]
}

/// The header lines of `fields`, one behind the other.
pub open spec fn header_block(fields: Seq<(Seq<char>, Seq<char>)>) -> Seq<u8>
    decreases fields.len(),
{
    if fields.len() == 0 {
        Seq::empty()
    } else {
        header_block(fields.drop_last()) + header_line(fields.last())
    }
}

/// The header fields of a response that carries `body` as `media_type`.
pub open spec fn body_fields(media_type: Seq<char>, body: Seq<u8>) -> Seq<(Seq<char>, Seq<char>)> {
    seq![(CONTENT_TYPE@, media_type), (CONTENT_LENGTH@, decimal_chars(body.len()))]
}

/// The status code that a serialized response announces: the decimal number
/// between its first and its second space, where there is one that a status
/// code can hold.
pub open spec fn status_code_of(wire: Seq<u8>) -> Option<u16> {
    let start = method_end(wire) + 1;
    let token = wire.subrange(start, locator_end(wire, start));
    if start < wire.len() && all_digits(token) && digits_value(token) <= u16::MAX {
        Some(digits_value(token) as u16)
    } else {
        None
    }
}

/// A response: status, header fields and an optional body.
#[derive(Debug, Clone, PartialEq, Eq)]
pub struct HttpResponse {
    pub headers: TextMap,
    pub http_version: String,
    pub method: String,
    pub status: u16,
    pub status_text: String,
    pub body: Option<Vec<u8>>,
}

impl HttpResponse {
    /// The bytes of the body; none where there is no body.
    pub open spec fn body_bytes(&self) -> Seq<u8> {
        match self.body {
            Some(bytes) => bytes@,
            None => Seq::empty(),
        }
    }

    /// The response as it goes over the wire: status line, header lines in
    /// the order of the map, an empty line, the body.
    pub open spec fn wire_form(&self) -> Seq<u8> {
        status_line(self.http_version@, self.status, self.status_text@) + header_block(
            self.headers.entries(),
        ) + seq![CARRIAGE_RETURN, LINE_FEED] + self.body_bytes()
    }

    /// Whether the content-length header gives the exact size of the body.
    /// A response without a body needs no such header.
    pub open spec fn content_length_exact(&self) -> bool {
        self.body is Some ==> self.headers@.contains_key(CONTENT_LENGTH@)
            && self.headers@[CONTENT_LENGTH@] == decimal_chars(self.body_bytes().len())
    }

    /// Whether this is the response to `method` under `version` that has
    /// `status` and `reason`, and carries `body` as `media_type` with its
    /// exact length.
    pub open spec fn carries(
        &self,
        version: Seq<char>,
        method: Seq<char>,
        status: u16,
        reason: Seq<char>,
        media_type: Seq<char>,
        body: Seq<u8>,
    ) -> bool {
        &&& self.http_version@ == version
        &&& self.method@ == method
        &&& self.status == status
        &&& self.status_text@ == reason
        &&& self.headers.wf()
        &&& self.headers.entries() == body_fields(media_type, body)
        &&& self.body is Some
        &&& self.body_bytes() == body
    }

    /// Whether this is the fixed plain-text response with `status` whose
    /// body is its `reason`.
    pub open spec fn is_plain(
        &self,
        version: Seq<char>,
        method: Seq<char>,
        status: u16,
        reason: Seq<char>,
    ) -> bool {
        self.carries(version, method, status, reason, PLAIN_TEXT@, encode_utf8(reason))
    }

    /// A response to `method` under `version` with status 0, an empty
    /// reason, no header and no body.
    pub fn new(version: &str, method: &str) -> (response: Self)
        ensures
            response.http_version@ == version@,
            response.method@ == method@,
            response.status == 0,
            response.status_text@ == Seq::<char>::empty(),
            response.headers.wf(),
            response.headers.entries() == Seq::<(Seq<char>, Seq<char>)>::empty(),
            response.body is None,
    {
        HttpResponse {
            headers: TextMap::new(),
            http_version: version.to_owned(),
            method: method.to_owned(),
            status: 0,
            status_text: String::new(),
            body: None,
        }
    }

    /// A response that carries `body` as `media_type`, with the
    /// content-length header set to the size of the body.
    pub fn with_body(
        version: &str,
        method: &str,
        status: u16,
        reason: &str,
        media_type: String,
        body: Vec<u8>,
    ) -> (response: Self)
        ensures
            response.carries(version@, method@, status, reason@, media_type@, body@),
            response.content_length_exact(),
    {
        let mut response = HttpResponse::new(version, method);
        response.status = status;
        response.status_text = reason.to_owned();
        response.headers.insert(CONTENT_TYPE.to_owned(), media_type);
        proof {
            lemma_header_names_differ();
            lemma_map_of_domain(response.headers.entries(), CONTENT_LENGTH@);
        }
        response.headers.insert(CONTENT_LENGTH.to_owned(), decimal_string(body.len()));
        response.body = Some(body);
        proof {
            assert(response.headers.entries() =~= body_fields(media_type@, body@));
            lemma_map_of_entry(response.headers.entries(), 1);
        }
        response
    }

    fn plain(version: &str, method: &str, status: u16, reason: &str) -> (response: Self)
        ensures
            response.is_plain(version@, method@, status, reason@),
            response.content_length_exact(),
    {
        HttpResponse::with_body(
            version,
            method,
            status,
            reason,
            PLAIN_TEXT.to_owned(),
            reason.as_bytes_vec(),
        )
    }

    /// 400 Bad Request, with the 11 bytes "Bad Request" as its body.
    pub fn bad_request(version: &str, method: &str) -> (response: Self)
        ensures
            response.is_plain(version@, method@, 400, "Bad Request"@),
            response.content_length_exact(),
            response.body_bytes().len() == 11,
            response.headers@[CONTENT_LENGTH@] == "11"@,
    {
        proof {
            reveal_strlit("Bad Request");
            reveal_strlit("11");
            lemma_two_digits(1, 1);
            is_ascii_chars_encode_utf8("Bad Request"@);
        }
        HttpResponse::plain(version, method, 400, "Bad Request")
    }

    /// 401 Unauthorized, with the 12 bytes "Unauthorized" as its body.
    pub fn unauthorized(version: &str, method: &str) -> (response: Self)
        ensures
            response.is_plain(version@, method@, 401, "Unauthorized"@),
            response.content_length_exact(),
            response.body_bytes().len() == 12,
            response.headers@[CONTENT_LENGTH@] == "12"@,
    {
        proof {
            reveal_strlit("Unauthorized");
            reveal_strlit("12");
            lemma_two_digits(1, 2);
            is_ascii_chars_encode_utf8("Unauthorized"@);
        }
        HttpResponse::plain(version, method, 401, "Unauthorized")
    }

    /// 403 Forbidden, with the 9 bytes "Forbidden" as its body.
    pub fn forbidden(version: &str, method: &str) -> (response: Self)
        ensures
            response.is_plain(version@, method@, 403, "Forbidden"@),
            response.content_length_exact(),
            response.body_bytes().len() == 9,
            response.headers@[CONTENT_LENGTH@] == "9"@,
    {
        proof {
            reveal_strlit("Forbidden");
            reveal_strlit("9");
            assert(decimal_chars(9) =~= "9"@);
            is_ascii_chars_encode_utf8("Forbidden"@);
        }
        HttpResponse::plain(version, method, 403, "Forbidden")
    }

    /// 404 Not Found, with the 9 bytes "Not Found" as its body.
    pub fn not_found(version: &str, method: &str) -> (response: Self)
        ensures
            response.is_plain(version@, method@, 404, "Not Found"@),
            response.content_length_exact(),
            response.body_bytes().len() == 9,
            response.headers@[CONTENT_LENGTH@] == "9"@,
    {
        proof {
            reveal_strlit("Not Found");
            reveal_strlit("9");
            assert(decimal_chars(9) =~= "9"@);
            is_ascii_chars_encode_utf8("Not Found"@);
        }
        HttpResponse::plain(version, method, 404, "Not Found")
    }

    /// 500 Server Error, with the 12 bytes "Server Error" as its body.
    pub fn server_error(version: &str, method: &str) -> (response: Self)
        ensures
            response.is_plain(version@, method@, 500, "Server Error"@),
            response.content_length_exact(),
            response.body_bytes().len() == 12,
            response.headers@[CONTENT_LENGTH@] == "12"@,
    {
        proof {
            reveal_strlit("Server Error");
            reveal_strlit("12");
            lemma_two_digits(1, 2);
            is_ascii_chars_encode_utf8("Server Error"@);
        }
        HttpResponse::plain(version, method, 500, "Server Error")
    }

    /// Serializes the response: status line, headers, an empty line, body.
    pub fn as_bytes(&self) -> (wire: Vec<u8>)
        ensures
            wire@ == self.wire_form(),
    {
        let mut out: Vec<u8> = Vec::new();
        append_bytes(&mut out, self.http_version.as_str().as_bytes());
        out.push(SPACE);
        let code = decimal_string(self.status as usize);
        append_bytes(&mut out, code.as_str().as_bytes());
        out.push(SPACE);
        append_bytes(&mut out, self.status_text.as_str().as_bytes());
        out.push(CARRIAGE_RETURN);
        out.push(LINE_FEED);
        assert(out@ =~= status_line(self.http_version@, self.status, self.status_text@));
        let ghost head = out@;
        let ghost fields = self.headers.entries();
        let count = self.headers.len();
        let mut i: usize = 0;
        while i < count
            invariant
                i <= count == fields.len(),
                fields == self.headers.entries(),
                out@ == head + header_block(fields.subrange(0, i as int)),
            decreases count - i,
        {
            let ghost before = out@;
            append_bytes(&mut out, self.headers.key_at(i).as_str().as_bytes());
            out.push(COLON);
            out.push(SPACE);
            append_bytes(&mut out, self.headers.value_at(i).as_str().as_bytes());
            out.push(CARRIAGE_RETURN);
            out.push(LINE_FEED);
            proof {
                let done = fields.subrange(0, i + 1);
                assert(done.drop_last() =~= fields.subrange(0, i as int));
                assert(done.last() == fields[i as int]);
                assert(out@ =~= before + header_line(fields[i as int]));
                assert(out@ =~= head + header_block(done));
            }
            i = i + 1;
        }
        assert(fields.subrange(0, count as int) =~= fields);
        out.push(CARRIAGE_RETURN);
        out.push(LINE_FEED);
        match &self.body {
            Some(bytes) => {
                append_bytes(&mut out, bytes.as_slice());
            },
            None => {},
        }
        assert(out@ =~= self.wire_form());
        out
    }

    /// Where a response is serialized and the status line of the result is
    /// parsed again, the status code comes back. The version must hold no
    /// space: the status line is split at spaces.
    pub proof fn lemma_status_round_trip(&self)
        requires
            !encode_utf8(self.http_version@).contains(SPACE),
        ensures
            status_code_of(self.wire_form()) == Some(self.status),
    {
        let wire = self.wire_form();
        let version = encode_utf8(self.http_version@);
        let code = encode_utf8(decimal_chars(self.status as nat));
        let tail = encode_utf8(self.status_text@) + seq![CARRIAGE_RETURN, LINE_FEED] + header_block(
            self.headers.entries(),
        ) + seq![CARRIAGE_RETURN, LINE_FEED] + self.body_bytes();
        lemma_decimal_round_trip(self.status as nat);
        assert(wire =~= version + seq![SPACE] + code + seq![SPACE] + tail);
        let first = version.len() as int;
        assert(wire[first] == SPACE);
        assert forall|i: int| 0 <= i < first implies wire[i] != SPACE by {
            assert(wire[i] == version[i]);
            assert(version.contains(version[i]));
        }
        lemma_find_from_is(wire, SPACE, 0, first);
        let start = first + 1;
        let second = start + code.len();
        assert(wire[second] == SPACE);
        assert forall|i: int| start <= i < second implies wire[i] != SPACE by {
            assert(wire[i] == code[i - start]);
        }
        lemma_find_from_is(wire, SPACE, start, second);
        assert(wire.subrange(start, second) =~= code);
    }

    /// The wire form ends with the body, byte for byte.
    pub proof fn lemma_wire_form_ends_with_body(&self)
        ensures
            self.wire_form().len() >= self.body_bytes().len(),
            self.wire_form().subrange(
                self.wire_form().len() - self.body_bytes().len(),
                self.wire_form().len() as int,
            ) == self.body_bytes(),
    {
        let wire = self.wire_form();
        assert(wire.subrange(wire.len() - self.body_bytes().len(), wire.len() as int)
            =~= self.body_bytes());
    }
}

/// The names of the two headers that the library sets are different names.
pub proof fn lemma_header_names_differ()
    ensures
        CONTENT_TYPE@ != CONTENT_LENGTH@,
{
    reveal_strlit("content-type");
    reveal_strlit("content-length");
    assert(CONTENT_TYPE@.len() != CONTENT_LENGTH@.len());
}

proof fn lemma_two_digits(tens: nat, ones: nat)
    requires
        1 <= tens < 10,
        ones < 10,
    ensures
        decimal_chars(10 * tens + ones) == seq![
            crate::text::digit_char(tens),
            crate::text::digit_char(ones),
        ],
{
    let n = 10 * tens + ones;
    assert(n / 10 == tens && n % 10 == ones);
    assert(decimal_chars(tens) =~= seq![crate::text::digit_char(tens)]);
    assert(decimal_chars(n) =~= seq![crate::text::digit_char(tens), crate::text::digit_char(ones)]);
}

/// Reads the status code out of a serialized response: the decimal number
/// between the first and the second space.
pub fn parse_status_code(buf: &[u8]) -> (code: Option<u16>)
    requires
        buf@.len() < usize::MAX,
    ensures
        code == status_code_of(buf@),
{
    let start = scan_method(buf) + 1;
    if start >= buf.len() {
        return None;
    }
    let at = scan_for(buf, SPACE, start);
    let end = if at < buf.len() {
        at
    } else {
        start
    };
    let ghost token = buf@.subrange(start as int, end as int);
    if end == start {
        return None;
    }
    let mut value: u32 = 0;
    let mut i: usize = start;
    while i < end
        invariant
            start <= i <= end <= buf@.len(),
            start == method_end(buf@) + 1,
            start < buf@.len(),
            end == locator_end(buf@, start as int),
            token == buf@.subrange(start as int, end as int),
            forall|j: int| 0 <= j < i - start ==> 48 <= #[trigger] token[j] <= 57,
            value == digits_value(token.subrange(0, i - start)),
            value <= u16::MAX,
        decreases end - i,
    {
        let byte = buf[i];
        let ghost seen = token.subrange(0, i - start);
        let ghost next = token.subrange(0, i + 1 - start);
        proof {
            assert(next.drop_last() =~= seen);
            assert(next.last() == byte);
        }
        if byte < 48 || byte > 57 {
            proof {
                assert(token[i - start] == byte);
            }
            return None;
        }
        let digit: u32 = (byte - 48) as u32;
        value = value * 10 + digit;
        if value > 65535 {
            proof {
                if all_digits(token) {
                    lemma_digits_value_grows(token, i + 1 - start);
                }
            }
            return None;
        }
        i = i + 1;
    }
    proof {
        assert(token.subrange(0, end - start) =~= token);
    }
    Some(value as u16)
}

/// A number does not shrink when further digits follow.
pub proof fn lemma_digits_value_grows(bytes: Seq<u8>, n: int)
    requires
        0 <= n <= bytes.len(),
        forall|i: int| 0 <= i < bytes.len() ==> 48 <= #[trigger] bytes[i],
    ensures
        digits_value(bytes.subrange(0, n)) <= digits_value(bytes),
    decreases bytes.len() - n,
{
    if n < bytes.len() {
        lemma_digits_value_grows(bytes, n + 1);
        let longer = bytes.subrange(0, n + 1);
        assert(longer.drop_last() =~= bytes.subrange(0, n));
    } else {
        assert(bytes.subrange(0, n) =~= bytes);
    }
}

} // verus!
