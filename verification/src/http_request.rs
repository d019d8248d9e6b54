//! The request model, and the parser that builds it from the read buffer.

use crate::text_map::map_of;
use crate::text_map::TextMap;
use crate::util::headers_from;
use crate::util::locator_bytes;
use crate::util::locator_end;
use crate::util::locator_of;
use crate::util::method_end;
use crate::util::method_of;
use crate::util::parse_headers;
use crate::util::parse_locator;
use crate::util::parse_method;
use crate::util::parse_path_components;
use crate::util::parse_version;
use crate::util::path_of;
use crate::util::scan_method;
use crate::util::version_next;
use crate::util::version_of;
use vstd::prelude::*;
use vstd::slice::slice_subrange;

verus! {

/// Size of the buffer that one request is read into. A request that is
/// longer is cut off there.
pub const READ_BUFFER_SIZE: usize = 2000;

/// Why a connection is given up without a response.
#[derive(Debug, Clone, Copy, PartialEq, Eq, Structural)]
pub enum ConnectionError {
    /// The peer closed the connection before it sent a byte.
    UnexpectedEof,
    /// Reading from the connection failed.
    ReadFailed,
    /// Writing to the connection failed, or stopped short.
    WriteFailed,
    /// An event came that the state of the connection does not allow.
    OutOfTurn,
}

impl ConnectionError {
    /// The error in words.
    pub open spec fn words(self) -> Seq<char> {
        match self {
            ConnectionError::UnexpectedEof => "Read 0 bytes"@,
            ConnectionError::ReadFailed => "Read failed"@,
            ConnectionError::WriteFailed => "Write failed"@,
            ConnectionError::OutOfTurn => "Event out of turn"@,
        }
    }

    /// The error in words.
    pub fn message(&self) -> (text: String)
        ensures
            text@ == self.words(),
    {
        match self {
            ConnectionError::UnexpectedEof => "Read 0 bytes".to_owned(),
            ConnectionError::ReadFailed => "Read failed".to_owned(),
            ConnectionError::WriteFailed => "Write failed".to_owned(),
            ConnectionError::OutOfTurn => "Event out of turn".to_owned(),
        }
    }
}

/// A parsed request.
#[derive(Debug, Clone, PartialEq, Eq)]
pub struct HttpRequest {
    pub headers: TextMap,
    pub http_version: String,
    /// The raw locator: path and query as they were sent.
    pub locator: String,
    pub method: String,
    /// The query parameters. The query is not parsed: this map is empty.
    pub params: TextMap,
    pub path: String,
}

impl HttpRequest {
    /// Whether this is the request that the buffer holds: method, locator
    /// and version are the first three tokens of the request line, the
    /// headers follow one byte behind the version, and the path is the
    /// locator up to its first question mark. The path is read from the
    /// bytes of the locator: where they are not UTF-8 the path is the
    /// placeholder too, and leads to no file.
    pub open spec fn parsed_from(&self, buf: Seq<u8>) -> bool {
        let locator_start = method_end(buf) + 1;
        let version_start = locator_end(buf, locator_start) + 1;
        let headers_start = version_next(buf, version_start) + 1;
        &&& self.method@ == method_of(buf)
        &&& self.locator@ == locator_of(buf, locator_start)
        &&& self.http_version@ == version_of(buf, version_start)
        &&& self.headers.wf()
        &&& self.headers@ == map_of(headers_from(buf, headers_start))
        &&& self.path@ == path_of(locator_bytes(buf, locator_start))
        &&& self.params.wf()
        &&& self.params@ == Map::<Seq<char>, Seq<char>>::empty()
    }

    /// Parses the request that was read into `buf`. `bytes_read` is what the
    /// read returned: where it is 0 the peer has closed the connection, and
    /// there is no request.
    pub fn new(buf: &[u8], bytes_read: usize) -> (request: Result<HttpRequest, ConnectionError>)
        requires
            buf@.len() <= usize::MAX - 2,
        ensures
            request is Err <==> bytes_read == 0,
            request matches Err(error) ==> error == ConnectionError::UnexpectedEof,
            request matches Ok(parsed) ==> parsed.parsed_from(buf@),
    {
        if bytes_read == 0 {
            return Err(ConnectionError::UnexpectedEof);
        }
        let method = parse_method(buf);
        let start = scan_method(buf) + 1;
        let (locator, end) = parse_locator(buf, start);
        let (version, next) = parse_version(buf, end + 1);
        let headers = parse_headers(buf, next + 1);
        let raw = if start < buf.len() {
            slice_subrange(buf, start, end)
        } else {
            slice_subrange(buf, 0, 0)
        };
        assert(raw@ =~= locator_bytes(buf@, start as int));
        let (path, params) = parse_path_components(raw);
        Ok(HttpRequest { headers, http_version: version, locator, method, params, path })
    }
}

} // verus!
