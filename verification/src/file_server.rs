//! The file responder: resolves the request path, has the file read, and
//! builds the response. Like the resolver it leaves the file system to its
//! caller and decides on the answers.

use crate::file_resolver::FileResolver;
use crate::file_resolver::FsAnswer;
use crate::file_resolver::FsRequest;
use crate::file_resolver::PathError;
use crate::file_resolver::Resolution;
use crate::file_resolver::INDEX_FILE;
use crate::http_request::HttpRequest;
use crate::http_response::HttpResponse;
use crate::mime::content_type_of;
use crate::mime::extension_text;
use crate::mime::mime_for_file_ext;
use crate::paths::is_within;
use crate::paths::joined;
use crate::paths::relative_part;
use crate::paths::within;
use vstd::prelude::*;
use vstd::utf8::encode_utf8;

verus! {

/// A question that the server has put to the file system and that waits
/// for its answer. Only the server makes one, so an answer can only be
/// given to a question that the server has asked, in the order in which it
/// asks: join, canonicalize, hold against the root, read.
#[derive(Debug, Clone, PartialEq, Eq)]
pub struct Pending {
    asked: FsRequest,
}

impl Pending {
    /// The question that waits.
    pub closed spec fn asked(&self) -> FsRequest {
        self.asked
    }

    /// The question that waits, for whoever asks the file system.
    pub fn question(&self) -> (copy: FsRequest)
        ensures
            copy.same_as(self.asked()),
    {
        self.asked.duplicate()
    }
}

/// Where the handling of a request stands.
#[derive(Debug, Clone, PartialEq, Eq)]
pub enum Serving {
    /// The file system has to answer this question first.
    Ask(Pending),
    /// This is the response.
    Respond(HttpResponse),
}

/// Serves the files below a document root.
pub struct FileServer {
    resolver: FileResolver,
}

impl FileServer {
    /// The canonical document root.
    pub closed spec fn root(&self) -> Seq<u8> {
        self.resolver.root()
    }

    /// The path that is looked at first for a request path: the request
    /// path without its leading separator, joined onto the root.
    pub open spec fn joined_path(&self, request_path: Seq<char>) -> Seq<u8> {
        joined(self.root(), relative_part(encode_utf8(request_path)))
    }

    /// Whether `response` is the fixed response that tells of `error`.
    pub open spec fn tells(request: &HttpRequest, error: PathError, response: HttpResponse) -> bool {
        match error {
            PathError::NotFound => response.is_plain(
                request.http_version@,
                request.method@,
                404,
                "Not Found"@,
            ),
            PathError::Forbidden => response.is_plain(
                request.http_version@,
                request.method@,
                403,
                "Forbidden"@,
            ),
            PathError::ServerError => response.is_plain(
                request.http_version@,
                request.method@,
                500,
                "Server Error"@,
            ),
        }
    }

    /// Whether `next` is where the handling of `request` stands once the
    /// file system has given `answer` to the question `asked`.
    ///
    /// The path is resolved first. A file is read only at a path within the
    /// root; its bytes are answered with status 200, the content type of
    /// its extension and its exact length. A file that cannot be read is
    /// not found. Every refusal is answered with its fixed response.
    pub open spec fn decides(
        &self,
        request: &HttpRequest,
        asked: FsRequest,
        answer: FsAnswer,
        next: Serving,
    ) -> bool {
        match (asked, answer) {
            (FsRequest::ReadFile { path }, answer) => {
                &&& next matches Serving::Respond(response)
                &&& if !within(self.root(), path@) {
                    Self::tells(request, PathError::Forbidden, response)
                } else {
                    match answer {
                        FsAnswer::Contents(bytes) => response.carries(
                            request.http_version@,
                            request.method@,
                            200,
                            "OK"@,
                            content_type_of(extension_text(path@)),
                            bytes@,
                        ),
                        FsAnswer::Unreadable => Self::tells(request, PathError::NotFound, response),
                        _ => Self::tells(request, PathError::ServerError, response),
                    }
                }
            },
            (FsRequest::ProbeDirectory { path }, FsAnswer::Directory(is_directory)) => {
                &&& next matches Serving::Ask(pending)
                &&& pending.asked() matches FsRequest::Canonicalize { path: target }
                &&& target@ == if is_directory {
                    joined(path@, encode_utf8(INDEX_FILE@))
                } else {
                    path@
                }
            },
            (FsRequest::Canonicalize { .. }, FsAnswer::Canonical(found)) => {
                if within(self.root(), found@) {
                    &&& next matches Serving::Ask(pending)
                    &&& pending.asked() matches FsRequest::ReadFile { path }
                    &&& path@ == found@
                } else {
                    next matches Serving::Respond(response) && Self::tells(
                        request,
                        PathError::Forbidden,
                        response,
                    )
                }
            },
            (FsRequest::Canonicalize { .. }, FsAnswer::Missing) => {
                next matches Serving::Respond(response) && Self::tells(
                    request,
                    PathError::NotFound,
                    response,
                )
            },
            _ => next matches Serving::Respond(response) && Self::tells(
                request,
                PathError::ServerError,
                response,
            ),
        }
    }

    /// Whether `pending` is the question that opens the handling of
    /// `request`: whether the request path, joined onto the root, is a
    /// directory.
    pub open spec fn opens(&self, request: &HttpRequest, pending: Pending) -> bool {
        pending.asked() matches FsRequest::ProbeDirectory { path } && path@ == self.joined_path(
            request.path@,
        )
    }

    /// A server for the document root `root`, which is canonical.
    pub fn new(root: Vec<u8>) -> (server: Self)
        ensures
            server.root() == root@,
    {
        FileServer { resolver: FileResolver::new(root) }
    }

    /// The document root.
    pub fn root_path(&self) -> (root: &[u8])
        ensures
            root@ == self.root(),
    {
        self.resolver.root_path()
    }

    /// The fixed response that tells of `error`.
    pub fn refusal(request: &HttpRequest, error: PathError) -> (response: HttpResponse)
        ensures
            Self::tells(request, error, response),
            response.content_length_exact(),
    {
        let version = request.http_version.as_str();
        let method = request.method.as_str();
        match error {
            PathError::NotFound => HttpResponse::not_found(version, method),
            PathError::Forbidden => HttpResponse::forbidden(version, method),
            PathError::ServerError => HttpResponse::server_error(version, method),
        }
    }

    /// Opens the handling of a request: the first question is whether the
    /// request path, joined onto the root, is a directory.
    pub fn begin(&self, request: &HttpRequest) -> (next: Serving)
        ensures
            next matches Serving::Ask(pending) && self.opens(request, pending),
    {
        Serving::Ask(Pending { asked: self.resolver.start(request.path.as_str()) })
    }

    /// Takes the answer to the question that waits and decides how the
    /// handling of `request` goes on.
    pub fn advance(&self, request: &HttpRequest, pending: Pending, answer: FsAnswer) -> (next:
        Serving)
        ensures
            self.decides(request, pending.asked(), answer, next),
            next matches Serving::Respond(response) ==> response.content_length_exact(),
    {
        match pending.asked {
            FsRequest::ReadFile { path } => {
                if !is_within(self.resolver.root_path(), path.as_slice()) {
                    return Serving::Respond(Self::refusal(request, PathError::Forbidden));
                }
                match answer {
                    FsAnswer::Contents(bytes) => Serving::Respond(
                        HttpResponse::with_body(
                            request.http_version.as_str(),
                            request.method.as_str(),
                            200,
                            "OK",
                            mime_for_file_ext(path.as_slice()),
                            bytes,
                        ),
                    ),
                    FsAnswer::Unreadable => Serving::Respond(
                        Self::refusal(request, PathError::NotFound),
                    ),
                    _ => Serving::Respond(Self::refusal(request, PathError::ServerError)),
                }
            },
            asked => match self.resolver.advance(asked, answer) {
                Resolution::Ask(ask) => Serving::Ask(Pending { asked: ask }),
                Resolution::File(path) => Serving::Ask(
                    Pending { asked: FsRequest::ReadFile { path } },
                ),
                Resolution::Refused(error) => Serving::Respond(Self::refusal(request, error)),
            },
        }
    }

    /// A file is asked for only at a path that the file system has given
    /// as the canonical form of a path, and that has the root as a prefix
    /// which ends where one of its components ends. For a canonical path
    /// that means: it is the document root or lies below it. A response
    /// with status 200 carries the bytes that were read at such a path.
    pub proof fn lemma_confined(
        &self,
        request: &HttpRequest,
        asked: FsRequest,
        answer: FsAnswer,
        next: Serving,
    )
        requires
            self.decides(request, asked, answer, next),
        ensures
            next matches Serving::Ask(pending) ==> (pending.asked() matches FsRequest::ReadFile {
                path,
            } ==> {
                &&& within(self.root(), path@)
                &&& asked is Canonicalize
                &&& answer matches FsAnswer::Canonical(found)
                &&& found@ == path@
            }),
            next matches Serving::Ask(pending) ==> (pending.asked() is Canonicalize ==> asked
                is ProbeDirectory),
            next matches Serving::Ask(pending) ==> !(pending.asked() is ProbeDirectory),
            next matches Serving::Respond(response) ==> (response.status == 200 ==> {
                &&& asked matches FsRequest::ReadFile { path }
                &&& within(self.root(), path@)
                &&& answer matches FsAnswer::Contents(bytes)
                &&& response.body_bytes() == bytes@
            }),
    {
    }
}

} // verus!
