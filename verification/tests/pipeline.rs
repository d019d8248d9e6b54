use qsrv::command_line::CommandLine;
use qsrv::command_line::LogLevel;
use qsrv::file_resolver::FsAnswer;
use qsrv::file_resolver::FsRequest;
use qsrv::file_server::FileServer;
use qsrv::handle_request;
use qsrv::handle_request::AccessRecord;
use qsrv::handle_request::Pipeline;
use qsrv::handle_request::PipelineAction;
use qsrv::handle_request::PipelineEvent;
use qsrv::http_request::ConnectionError;
use qsrv::http_request::READ_BUFFER_SIZE;

fn server() -> FileServer {
    FileServer::new(b"/srv/www".to_vec())
}

fn received(bytes: &[u8]) -> PipelineEvent {
    let mut buf = vec![0u8; READ_BUFFER_SIZE];
    buf[..bytes.len()].copy_from_slice(bytes);
    PipelineEvent::Received { buf, bytes_read: bytes.len() }
}

fn answered(asked: &PipelineAction, answer: FsAnswer) -> PipelineEvent {
    match asked {
        PipelineAction::Ask(_) => PipelineEvent::Answered(answer),
        other => panic!("no question was asked: {other:?}"),
    }
}

#[test]
fn connection_without_bytes_is_given_up_without_a_response() {
    let (state, action) = handle_request(&server(), Pipeline::Reading, received(b""));
    assert_eq!(state, Pipeline::Closed);
    assert_eq!(action, PipelineAction::Abort(ConnectionError::UnexpectedEof));
}

#[test]
fn failed_read_gives_the_connection_up() {
    let (state, action) = handle_request(&server(), Pipeline::Reading, PipelineEvent::ReadFailed);
    assert_eq!(state, Pipeline::Closed);
    assert_eq!(action, PipelineAction::Abort(ConnectionError::ReadFailed));
}

#[test]
fn request_is_served_step_by_step() {
    let server = server();
    let (state, action) = handle_request(
        &server,
        Pipeline::Reading,
        received(b"GET /style.css HTTP/1.1\r\nHost: h\r\n\r\n"),
    );
    assert!(matches!(&state, Pipeline::Resolving { request, .. } if request.path == "/style.css"));
    assert!(matches!(&state, Pipeline::Resolving { pending, .. }
        if pending.question() == FsRequest::ProbeDirectory { path: b"/srv/www/style.css".to_vec() }));
    assert_eq!(
        action,
        PipelineAction::Ask(FsRequest::ProbeDirectory { path: b"/srv/www/style.css".to_vec() })
    );

    let (state, action) =
        handle_request(&server, state, answered(&action, FsAnswer::Directory(false)));
    assert_eq!(
        action,
        PipelineAction::Ask(FsRequest::Canonicalize { path: b"/srv/www/style.css".to_vec() })
    );

    let (state, action) = handle_request(
        &server,
        state,
        answered(&action, FsAnswer::Canonical(b"/srv/www/style.css".to_vec())),
    );
    assert_eq!(
        action,
        PipelineAction::Ask(FsRequest::ReadFile { path: b"/srv/www/style.css".to_vec() })
    );
    assert!(matches!(&state, Pipeline::Resolving { .. }));

    let (state, action) =
        handle_request(&server, state, answered(&action, FsAnswer::Contents(b"a{}".to_vec())));
    let expected: &[u8] = b"HTTP/1.1 200 OK\r\ncontent-type: text/css; charset=utf-8\r\ncontent-length: 3\r\n\r\na{}";
    assert_eq!(action, PipelineAction::Write(expected.to_vec()));
    let record = AccessRecord {
        status: 200,
        method: "GET".to_string(),
        path: "/style.css".to_string(),
        bytes: 3,
    };
    assert_eq!(state, Pipeline::Writing { record: record.clone() });

    let (state, action) = handle_request(&server, state, PipelineEvent::Written);
    assert_eq!(state, Pipeline::Closed);
    assert_eq!(action, PipelineAction::Log(record));
}

#[test]
fn refusal_is_written_and_logged_too() {
    let server = server();
    let (state, action) =
        handle_request(&server, Pipeline::Reading, received(b"GET /../x HTTP/1.1\r\n\r\n"));
    let (state, action) =
        handle_request(&server, state, answered(&action, FsAnswer::Directory(false)));
    let (state, action) =
        handle_request(&server, state, answered(&action, FsAnswer::Canonical(b"/srv/x".to_vec())));
    let expected: &[u8] = b"HTTP/1.1 403 Forbidden\r\ncontent-type: text/plain; charset=utf-8\r\ncontent-length: 9\r\n\r\nForbidden";
    assert_eq!(action, PipelineAction::Write(expected.to_vec()));
    let (state, action) = handle_request(&server, state, PipelineEvent::Written);
    assert_eq!(state, Pipeline::Closed);
    assert_eq!(
        action,
        PipelineAction::Log(AccessRecord {
            status: 403,
            method: "GET".to_string(),
            path: "/../x".to_string(),
            bytes: 9,
        })
    );
}

#[test]
fn contents_given_before_the_read_was_asked_for_are_not_served() {
    let server = server();
    let (state, _) =
        handle_request(&server, Pipeline::Reading, received(b"GET /../x HTTP/1.1\r\n\r\n"));
    let (state, action) =
        handle_request(&server, state, PipelineEvent::Answered(FsAnswer::Contents(b"x".to_vec())));
    let expected: &[u8] = b"HTTP/1.1 500 Server Error\r\ncontent-type: text/plain; charset=utf-8\r\ncontent-length: 12\r\n\r\nServer Error";
    assert_eq!(action, PipelineAction::Write(expected.to_vec()));
    assert!(matches!(state, Pipeline::Writing { record } if record.status == 500));
}

#[test]
fn request_with_a_bad_locator_gets_an_error_response() {
    let server = server();
    let (state, action) =
        handle_request(&server, Pipeline::Reading, received(b"GET /\xff HTTP/1.1\r\n\r\n"));
    assert_eq!(
        action,
        PipelineAction::Ask(FsRequest::ProbeDirectory { path: b"/srv/www/???".to_vec() })
    );
    let (state, action) =
        handle_request(&server, state, answered(&action, FsAnswer::Directory(false)));
    let (state, action) = handle_request(&server, state, answered(&action, FsAnswer::Missing));
    assert!(matches!(state, Pipeline::Writing { record } if record.status == 404));
    assert!(matches!(action, PipelineAction::Write(_)));
}

#[test]
fn failed_write_is_not_tried_again() {
    let record =
        AccessRecord { status: 200, method: "GET".to_string(), path: "/".to_string(), bytes: 0 };
    let (state, action) =
        handle_request(&server(), Pipeline::Writing { record }, PipelineEvent::WriteFailed);
    assert_eq!(state, Pipeline::Closed);
    assert_eq!(action, PipelineAction::Abort(ConnectionError::WriteFailed));
}

#[test]
fn event_out_of_turn_gives_the_connection_up() {
    let server = server();
    let out_of_turn = (Pipeline::Closed, PipelineAction::Abort(ConnectionError::OutOfTurn));
    assert_eq!(handle_request(&server, Pipeline::Reading, PipelineEvent::Written), out_of_turn);
    assert_eq!(handle_request(&server, Pipeline::Closed, received(b"GET / HTTP/1.1\r\n")), out_of_turn);
    assert_eq!(handle_request(&server, Pipeline::Closed, PipelineEvent::ReadFailed), out_of_turn);
    let (state, _) = handle_request(&server, Pipeline::Reading, received(b"GET / HTTP/1.1\r\n\r\n"));
    assert_eq!(handle_request(&server, state, PipelineEvent::Written), out_of_turn);
}

#[test]
fn connection_errors_have_words() {
    assert_eq!(ConnectionError::UnexpectedEof.message(), "Read 0 bytes");
    assert_eq!(ConnectionError::ReadFailed.message(), "Read failed");
    assert_eq!(ConnectionError::WriteFailed.message(), "Write failed");
    assert_eq!(ConnectionError::OutOfTurn.message(), "Event out of turn");
}

#[test]
fn access_record_is_one_line() {
    let record = AccessRecord {
        status: 404,
        method: "GET".to_string(),
        path: "/none.txt".to_string(),
        bytes: 9,
    };
    assert_eq!(record.line(), "404 GET \"/none.txt\" 9 bytes");
    let empty = AccessRecord { status: 0, method: String::new(), path: String::new(), bytes: 0 };
    assert_eq!(empty.line(), "0  \"\" 0 bytes");
}

#[test]
fn settings_have_defaults() {
    let settings = CommandLine {
        concurrency: None,
        document_root: None,
        port: None,
        quiet: None,
        silent: false,
        verbose: 0,
    };
    assert_eq!(settings.root(), ".");
    assert_eq!(settings.listen_port(), 3000);
    assert_eq!(settings.log_level(), LogLevel::Info);
    assert_eq!(settings.workers(6), 6);
    assert_eq!(settings.workers(0), 1);
}

#[test]
fn settings_that_are_given_are_kept() {
    let settings = CommandLine {
        concurrency: Some(2),
        document_root: Some("/srv/www".to_string()),
        port: Some(8080),
        quiet: Some(true),
        silent: false,
        verbose: 1,
    };
    assert_eq!(settings.root(), "/srv/www");
    assert_eq!(settings.listen_port(), 8080);
    assert_eq!(settings.log_level(), LogLevel::Error);
    assert_eq!(settings.workers(6), 2);
    let silent = CommandLine { silent: true, ..settings.clone() };
    assert_eq!(silent.log_level(), LogLevel::Off);
    let loud = CommandLine { quiet: Some(false), ..settings };
    assert_eq!(loud.log_level(), LogLevel::Info);
}
