//! The pipeline that one worker runs on one connection: read, parse,
//! resolve, respond, write, log. The pipeline decides; its caller reads,
//! asks the file system, and writes.

use crate::file_resolver::FsAnswer;
use crate::file_resolver::FsRequest;
use crate::file_server::FileServer;
use crate::file_server::Pending;
use crate::file_server::Serving;
use crate::http_request::ConnectionError;
use crate::http_request::HttpRequest;
use crate::http_response::HttpResponse;
use crate::text::decimal_chars;
use crate::text::decimal_string;
use crate::paths::within;
use vstd::prelude::*;
use vstd::string::StringExecFns;

verus! {

/// What is logged of a completed request.
#[derive(Debug, Clone, PartialEq, Eq)]
pub struct AccessRecord {
    pub status: u16,
    pub method: String,
    /// The path that was asked for.
    pub path: String,
    /// The number of bytes of the body of the response.
    pub bytes: usize,
}

impl AccessRecord {
    /// The record as a line of the log: status, method, the path in
    /// quotes, and the size of the body.
    pub open spec fn line_text(&self) -> Seq<char> {
        decimal_chars(self.status as nat) + " "@ + self.method@ + " \""@ + self.path@ + "\" "@
            + decimal_chars(self.bytes as nat) + " bytes"@
    }

    /// Whether this is the record of `response` to `request`.
    pub open spec fn records(&self, request: &HttpRequest, response: &HttpResponse) -> bool {
        &&& self.status == response.status
        &&& self.method@ == response.method@
        &&& self.path@ == request.path@
        &&& self.bytes == response.body_bytes().len()
    }

    /// The record as a line of the log.
    pub fn line(&self) -> (text: String)
        ensures
            text@ == self.line_text(),
    {
        let mut text = decimal_string(self.status as usize);
        text.append(" ");
        text.append(self.method.as_str());
        text.append(" \"");
        text.append(self.path.as_str());
        text.append("\" ");
        text.append(decimal_string(self.bytes).as_str());
        text.append(" bytes");
        assert(text@ =~= self.line_text());
        text
    }
}

/// Where the handling of a connection stands.
#[derive(Debug, Clone, PartialEq, Eq)]
pub enum Pipeline {
    /// Nothing has been read yet.
    Reading,
    /// The request is parsed; the file system is being asked the question
    /// that waits.
    Resolving { request: HttpRequest, pending: Pending },
    /// The response is being written.
    Writing { record: AccessRecord },
    /// The connection is done with.
    Closed,
}

/// What has happened on the connection, or what the file system said.
#[derive(Debug, Clone, PartialEq, Eq)]
pub enum PipelineEvent {
    /// A read filled `buf` and returned `bytes_read`.
    Received { buf: Vec<u8>, bytes_read: usize },
    /// The read failed.
    ReadFailed,
    /// The file system gave this answer to the question that was asked
    /// last.
    Answered(FsAnswer),
    /// The response was written in full.
    Written,
    /// The write failed, or wrote only a part.
    WriteFailed,
}

/// What the caller has to do next.
#[derive(Debug, Clone, PartialEq, Eq)]
pub enum PipelineAction {
    /// Put the question to the file system.
    Ask(FsRequest),
    /// Write these bytes to the connection, all of them.
    Write(Vec<u8>),
    /// Log the record and close the connection.
    Log(AccessRecord),
    /// Close the connection and write nothing more.
    Abort(ConnectionError),
}

/// Whether `next` is the state and the action that follow `event` in
/// `state`.
///
/// A read of no bytes ends the connection at once, with no response. A
/// request is parsed and its path resolved, question by question: the
/// state holds the question that waits, and an answer is taken as the
/// answer to that question and to no other. The response is written as one
/// piece; a failed or partial write ends the
/// connection and is not tried again. A written response is logged. An
/// event that does not fit the state ends the connection.
pub open spec fn follows(
    server: &FileServer,
    state: Pipeline,
    event: PipelineEvent,
    next: (Pipeline, PipelineAction),
) -> bool {
    match (state, event) {
        (Pipeline::Reading, PipelineEvent::Received { buf, bytes_read }) => {
            if bytes_read == 0 {
                &&& next.0 is Closed
                &&& next.1 matches PipelineAction::Abort(error)
                &&& error == ConnectionError::UnexpectedEof
            } else {
                &&& next.0 matches Pipeline::Resolving { request, pending }
                &&& request.parsed_from(buf@)
                &&& server.opens(&request, pending)
                &&& next.1 matches PipelineAction::Ask(question)
                &&& question.same_as(pending.asked())
            }
        },
        (Pipeline::Reading, PipelineEvent::ReadFailed) => {
            &&& next.0 is Closed
            &&& next.1 matches PipelineAction::Abort(error)
            &&& error == ConnectionError::ReadFailed
        },
        (Pipeline::Resolving { request, pending }, PipelineEvent::Answered(answer)) => {
            match next.1 {
                PipelineAction::Ask(question) => {
                    &&& next.0 matches Pipeline::Resolving { request: kept, pending: waits }
                    &&& kept == request
                    &&& server.decides(&request, pending.asked(), answer, Serving::Ask(waits))
                    &&& question.same_as(waits.asked())
                },
                PipelineAction::Write(bytes) => {
                    exists|response: HttpResponse|
                        {
                            &&& #[trigger] server.decides(
                                &request,
                                pending.asked(),
                                answer,
                                Serving::Respond(response),
                            )
                            &&& response.content_length_exact()
                            &&& bytes@ == response.wire_form()
                            &&& next.0 matches Pipeline::Writing { record }
                            &&& record.records(&request, &response)
                        }
                },
                _ => false,
            }
        },
        (Pipeline::Writing { record }, PipelineEvent::Written) => {
            &&& next.0 is Closed
            &&& next.1 matches PipelineAction::Log(logged)
            &&& logged == record
        },
        (Pipeline::Writing { .. }, PipelineEvent::WriteFailed) => {
            &&& next.0 is Closed
            &&& next.1 matches PipelineAction::Abort(error)
            &&& error == ConnectionError::WriteFailed
        },
        _ => {
            &&& next.0 is Closed
            &&& next.1 matches PipelineAction::Abort(error)
            &&& error == ConnectionError::OutOfTurn
        },
    }
}

/// Takes `event` in `state`, and says what state follows and what to do.
pub fn handle_request(server: &FileServer, state: Pipeline, event: PipelineEvent) -> (next: (
    Pipeline,
    PipelineAction,
))
    requires
        event matches PipelineEvent::Received { buf, .. } ==> buf@.len() <= usize::MAX - 2,
    ensures
        follows(server, state, event, next),
{
    match (state, event) {
        (Pipeline::Reading, PipelineEvent::Received { buf, bytes_read }) => {
            match HttpRequest::new(buf.as_slice(), bytes_read) {
                Err(error) => (Pipeline::Closed, PipelineAction::Abort(error)),
                Ok(request) => {
                    match server.begin(&request) {
                        Serving::Ask(pending) => {
                            let question = pending.question();
                            (
                                Pipeline::Resolving { request, pending },
                                PipelineAction::Ask(question),
                            )
                        },
                        Serving::Respond(_) => vstd::pervasive::unreached(),
                    }
                },
            }
        },
        (Pipeline::Reading, PipelineEvent::ReadFailed) => (
            Pipeline::Closed,
            PipelineAction::Abort(ConnectionError::ReadFailed),
        ),
        (Pipeline::Resolving { request, pending }, PipelineEvent::Answered(answer)) => {
            match server.advance(&request, pending, answer) {
                Serving::Ask(waits) => {
                    let question = waits.question();
                    (
                        Pipeline::Resolving { request, pending: waits },
                        PipelineAction::Ask(question),
                    )
                },
                Serving::Respond(response) => {
                    let bytes = response.as_bytes();
                    let size = match &response.body {
                        Some(body) => body.len(),
                        None => 0,
                    };
                    let record = AccessRecord {
                        status: response.status,
                        method: response.method,
                        path: request.path,
                        bytes: size,
                    };
                    (Pipeline::Writing { record }, PipelineAction::Write(bytes))
                },
            }
        },
        (Pipeline::Writing { record }, PipelineEvent::Written) => (
            Pipeline::Closed,
            PipelineAction::Log(record),
        ),
        (Pipeline::Writing { .. }, PipelineEvent::WriteFailed) => (
            Pipeline::Closed,
            PipelineAction::Abort(ConnectionError::WriteFailed),
        ),
        _ => (Pipeline::Closed, PipelineAction::Abort(ConnectionError::OutOfTurn)),
    }
}

/// A connection on which the peer sends nothing is given up without a
/// response: nothing is asked of the file system and nothing is written.
pub proof fn lemma_empty_read_aborts(
    server: &FileServer,
    buf: Vec<u8>,
    next: (Pipeline, PipelineAction),
)
    requires
        follows(server, Pipeline::Reading, PipelineEvent::Received { buf, bytes_read: 0 }, next),
    ensures
        next.0 is Closed,
        next.1 matches PipelineAction::Abort(error) && error == ConnectionError::UnexpectedEof,
{
}

/// Whatever the peer sends, the pipeline asks for a file only at a path
/// that the file system has given as canonical in its last answer, and that
/// has the root as a prefix which ends where one of its components ends.
/// For a canonical path that means: it is the document root or lies below
/// it. No file is asked for before the path was joined and made canonical:
/// the question before the read is the canonicalization, and the question
/// before that is the probe of the joined path.
pub proof fn lemma_reads_within_root(
    server: &FileServer,
    state: Pipeline,
    event: PipelineEvent,
    next: (Pipeline, PipelineAction),
)
    requires
        follows(server, state, event, next),
    ensures
        next.1 matches PipelineAction::Ask(FsRequest::ReadFile { path }) ==> {
            &&& within(server.root(), path@)
            &&& state matches Pipeline::Resolving { pending, .. }
            &&& pending.asked() is Canonicalize
            &&& event matches PipelineEvent::Answered(FsAnswer::Canonical(found))
            &&& found@ == path@
        },
        next.1 matches PipelineAction::Ask(FsRequest::Canonicalize { .. }) ==> {
            &&& state matches Pipeline::Resolving { pending, .. }
            &&& pending.asked() is ProbeDirectory
        },
        next.1 matches PipelineAction::Ask(FsRequest::ProbeDirectory { .. }) ==> state is Reading,
{
    match (state, event) {
        (Pipeline::Resolving { request, pending }, PipelineEvent::Answered(answer)) => {
            match next.1 {
                PipelineAction::Ask(question) => {
                    let waits = next.0->Resolving_pending;
                    server.lemma_confined(&request, pending.asked(), answer, Serving::Ask(waits));
                },
                _ => {},
            }
        },
        _ => {},
    }
}

} // verus!
