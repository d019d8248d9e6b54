//! The path resolver: from a request path to a file below the document
//! root. The resolver never touches the file system. It says what it needs
//! to know next, is told the answer, and decides. The order of its questions
//! is fixed: the request path is joined onto the root first, the joined path
//! is made canonical by the file system, and only the canonical path is
//! held against the root.

use crate::paths::is_within;
use crate::paths::join;
use crate::paths::joined;
use crate::paths::relative_part;
use crate::paths::strip_leading_slash;
use crate::paths::within;
use vstd::prelude::*;
use vstd::slice::slice_to_vec;
use vstd::utf8::encode_utf8;

verus! {

/// Name of the document that stands for a directory.
pub const INDEX_FILE: &'static str = "index.html";

/// Why a request path leads to no file.
#[derive(Debug, Clone, Copy, PartialEq, Eq, Structural)]
pub enum PathError {
    /// The path does not exist.
    NotFound,
    /// The path leads out of the document root.
    Forbidden,
    /// The file system failed for another reason.
    ServerError,
}

/// What the file system is asked.
#[derive(Debug, Clone, PartialEq, Eq)]
pub enum FsRequest {
    /// Is there a directory at `path`?
    ProbeDirectory { path: Vec<u8> },
    /// What is the canonical form of `path`?
    Canonicalize { path: Vec<u8> },
    /// What does the file at `path` hold?
    ReadFile { path: Vec<u8> },
}

impl FsRequest {
    /// Whether two questions are the same question about the same path.
    pub open spec fn same_as(self, other: FsRequest) -> bool {
        match (self, other) {
            (FsRequest::ProbeDirectory { path: a }, FsRequest::ProbeDirectory { path: b }) => a@
                == b@,
            (FsRequest::Canonicalize { path: a }, FsRequest::Canonicalize { path: b }) => a@ == b@,
            (FsRequest::ReadFile { path: a }, FsRequest::ReadFile { path: b }) => a@ == b@,
            _ => false,
        }
    }

    /// A copy of the question.
    pub fn duplicate(&self) -> (copy: FsRequest)
        ensures
            copy.same_as(*self),
    {
        match self {
            FsRequest::ProbeDirectory { path } => FsRequest::ProbeDirectory {
                path: slice_to_vec(path.as_slice()),
            },
            FsRequest::Canonicalize { path } => FsRequest::Canonicalize {
                path: slice_to_vec(path.as_slice()),
            },
            FsRequest::ReadFile { path } => FsRequest::ReadFile {
                path: slice_to_vec(path.as_slice()),
            },
        }
    }
}

/// What the file system answers.
#[derive(Debug, Clone, PartialEq, Eq)]
pub enum FsAnswer {
    /// To `ProbeDirectory`: whether there is a directory.
    Directory(bool),
    /// To `Canonicalize`: the canonical path.
    Canonical(Vec<u8>),
    /// To `Canonicalize`: the path does not exist.
    Missing,
    /// To `Canonicalize`: the file system failed for another reason.
    Failure,
    /// To `ReadFile`: the bytes of the file.
    Contents(Vec<u8>),
    /// To `ReadFile`: the file cannot be read.
    Unreadable,
}

/// Where a resolution stands.
#[derive(Debug, Clone, PartialEq, Eq)]
pub enum Resolution {
    /// The file system has to answer a question first.
    Ask(FsRequest),
    /// The request path leads to this file, which lies below the root.
    File(Vec<u8>),
    /// The request path leads to no file.
    Refused(PathError),
}

/// Maps request paths to files below a document root.
pub struct FileResolver {
    root_path: Vec<u8>,
}

impl FileResolver {
    /// The canonical document root.
    pub closed spec fn root(&self) -> Seq<u8> {
        self.root_path@
    }

    /// The path that is looked at for a request path: the request path
    /// without its leading separator, joined onto the root.
    pub open spec fn joined_path(&self, request_path: Seq<char>) -> Seq<u8> {
        joined(self.root(), relative_part(encode_utf8(request_path)))
    }

    /// Whether `next` is where the resolution stands once the file system
    /// has given `answer` to the question `asked`.
    ///
    /// A directory is entered by its index document. A canonical path is
    /// accepted if it lies within the root and refused as forbidden if not.
    /// A path that does not exist is not found; any other failure, and any
    /// answer that does not fit the question, is a server error.
    pub open spec fn decides(&self, asked: FsRequest, answer: FsAnswer, next: Resolution) -> bool {
        match (asked, answer) {
            (FsRequest::ProbeDirectory { path }, FsAnswer::Directory(is_directory)) => {
                &&& next matches Resolution::Ask(FsRequest::Canonicalize { path: target })
                &&& target@ == if is_directory {
                    joined(path@, encode_utf8(INDEX_FILE@))
                } else {
                    path@
                }
            },
            (FsRequest::Canonicalize { .. }, FsAnswer::Canonical(found)) => {
                if within(self.root(), found@) {
                    next matches Resolution::File(path) && path@ == found@
                } else {
                    next matches Resolution::Refused(error) && error == PathError::Forbidden
                }
            },
            (FsRequest::Canonicalize { .. }, FsAnswer::Missing) => {
                next matches Resolution::Refused(error) && error == PathError::NotFound
            },
            _ => next matches Resolution::Refused(error) && error == PathError::ServerError,
        }
    }

    /// A resolver for the document root `root`, which is canonical.
    pub fn new(root: Vec<u8>) -> (resolver: Self)
        ensures
            resolver.root() == root@,
    {
        FileResolver { root_path: root }
    }

    /// The document root.
    pub fn root_path(&self) -> (root: &[u8])
        ensures
            root@ == self.root(),
    {
        self.root_path.as_slice()
    }

    /// Opens the resolution of a request path: its first question is
    /// whether the joined path is a directory.
    pub fn start(&self, request_path: &str) -> (ask: FsRequest)
        ensures
            ask matches FsRequest::ProbeDirectory { path } && path@ == self.joined_path(
                request_path@,
            ),
    {
        let relative = strip_leading_slash(request_path.as_bytes());
        FsRequest::ProbeDirectory { path: join(self.root_path.as_slice(), relative) }
    }

    /// Takes the answer to the question `asked` and decides how the
    /// resolution goes on.
    pub fn advance(&self, asked: FsRequest, answer: FsAnswer) -> (next: Resolution)
        ensures
            self.decides(asked, answer, next),
    {
        match (asked, answer) {
            (FsRequest::ProbeDirectory { path }, FsAnswer::Directory(is_directory)) => {
                if is_directory {
                    let target = join(path.as_slice(), INDEX_FILE.as_bytes());
                    Resolution::Ask(FsRequest::Canonicalize { path: target })
                } else {
                    Resolution::Ask(FsRequest::Canonicalize { path })
                }
            },
            (FsRequest::Canonicalize { .. }, FsAnswer::Canonical(found)) => {
                if is_within(self.root_path.as_slice(), found.as_slice()) {
                    Resolution::File(found)
                } else {
                    Resolution::Refused(PathError::Forbidden)
                }
            },
            (FsRequest::Canonicalize { .. }, FsAnswer::Missing) => Resolution::Refused(
                PathError::NotFound,
            ),
            _ => Resolution::Refused(PathError::ServerError),
        }
    }

    /// A path that the resolver accepts is one that the file system has
    /// given as canonical, and has the root as a prefix that ends where one
    /// of its components ends. For a canonical path that means: it is the
    /// document root or lies below it.
    pub proof fn lemma_accepted_within_root(
        &self,
        asked: FsRequest,
        answer: FsAnswer,
        next: Resolution,
    )
        requires
            self.decides(asked, answer, next),
        ensures
            next matches Resolution::File(path) ==> within(self.root(), path@),
            next matches Resolution::File(path) ==> answer matches FsAnswer::Canonical(found)
                && found@ == path@,
            next matches Resolution::Ask(ask) ==> ask is Canonicalize,
    {
    }
}

} // verus!
