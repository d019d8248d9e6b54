use qsrv::file_resolver::FileResolver;
use qsrv::file_resolver::FsAnswer;
use qsrv::file_resolver::FsRequest;
use qsrv::file_resolver::PathError;
use qsrv::file_resolver::Resolution;
use qsrv::file_server::FileServer;
use qsrv::file_server::Serving;
use qsrv::mime::add_charset;
use qsrv::mime::media_type;
use qsrv::mime::mime_for_extension;
use qsrv::mime::mime_for_file_ext;
use qsrv::paths::extension_of;
use qsrv::paths::is_within;
use qsrv::paths::join;
use qsrv::paths::strip_leading_slash;
use qsrv::HttpRequest;
use qsrv::HttpResponse;

const ROOT: &[u8] = b"/srv/www";

fn get(locator: &str) -> HttpRequest {
    let text = format!("GET {locator} HTTP/1.1\r\nHost: localhost\r\n\r\n");
    HttpRequest::new(text.as_bytes(), text.len()).unwrap()
}

fn probe(path: &[u8]) -> FsRequest {
    FsRequest::ProbeDirectory { path: path.to_vec() }
}

fn canonicalize(path: &[u8]) -> FsRequest {
    FsRequest::Canonicalize { path: path.to_vec() }
}

fn read(path: &[u8]) -> FsRequest {
    FsRequest::ReadFile { path: path.to_vec() }
}

fn header<'a>(response: &'a HttpResponse, name: &str) -> Option<&'a str> {
    response.headers.get(name).map(String::as_str)
}

/// Serves `locator` from a file system that answers from the script.
fn serve(locator: &str, script: Vec<(FsRequest, FsAnswer)>) -> HttpResponse {
    let server = FileServer::new(ROOT.to_vec());
    let request = get(locator);
    let mut step = server.begin(&request);
    let mut script = script.into_iter();
    loop {
        match step {
            Serving::Respond(response) => {
                assert!(script.next().is_none(), "the script was not used up");
                return response;
            },
            Serving::Ask(pending) => {
                let (expected, answer) = script.next().expect("the script ended early");
                assert_eq!(pending.question(), expected);
                step = server.advance(&request, pending, answer);
            },
        }
    }
}

#[test]
fn leading_slash_is_stripped() {
    assert_eq!(strip_leading_slash(b"/a/b"), b"a/b");
    assert_eq!(strip_leading_slash(b"/"), b"");
    assert_eq!(strip_leading_slash(b"//etc"), b"/etc");
    assert_eq!(strip_leading_slash(b"a/b"), b"a/b");
    assert_eq!(strip_leading_slash(b""), b"");
}

#[test]
fn join_puts_one_separator_between() {
    assert_eq!(join(b"/srv/www", b"a.txt"), b"/srv/www/a.txt");
    assert_eq!(join(b"/srv/www/", b"a.txt"), b"/srv/www/a.txt");
    assert_eq!(join(b"/srv/www", b""), b"/srv/www/");
    assert_eq!(join(b"/", b"a"), b"/a");
    assert_eq!(join(b"", b"a"), b"a");
    assert_eq!(join(b"/srv/www", b"../x"), b"/srv/www/../x");
}

#[test]
fn join_lets_an_absolute_path_take_over() {
    assert_eq!(join(b"/srv/www", b"/etc/passwd"), b"/etc/passwd");
    assert_eq!(join(b"", b"/"), b"/");
}

#[test]
fn within_goes_by_whole_components() {
    assert!(is_within(b"/srv/www", b"/srv/www"));
    assert!(is_within(b"/srv/www", b"/srv/www/a.txt"));
    assert!(is_within(b"/srv/www", b"/srv/www/a/b/c"));
    assert!(is_within(b"/", b"/etc/passwd"));
    assert!(is_within(b"/", b"/"));
    assert!(!is_within(b"/srv/www", b"/srv/www2"));
    assert!(!is_within(b"/srv/www", b"/srv/www-private/a.txt"));
    assert!(!is_within(b"/srv/www", b"/srv/ww"));
    assert!(!is_within(b"/srv/www", b"/srv"));
    assert!(!is_within(b"/srv/www", b"/etc/passwd"));
    assert!(!is_within(b"/srv/www", b""));
}

#[test]
fn extension_is_what_follows_the_last_dot_of_the_name() {
    assert_eq!(extension_of(b"/srv/www/style.css"), Some(&b"css"[..]));
    assert_eq!(extension_of(b"/srv/www/a.tar.gz"), Some(&b"gz"[..]));
    assert_eq!(extension_of(b"style.css"), Some(&b"css"[..]));
    assert_eq!(extension_of(b"/srv/www/name."), Some(&b""[..]));
    assert_eq!(extension_of(b"/srv/www/..."), Some(&b""[..]));
    assert_eq!(extension_of(b"/srv/www/.a.b"), Some(&b"b"[..]));
}

#[test]
fn extension_is_missing_without_a_dot_inside_the_name() {
    assert_eq!(extension_of(b"/srv/www/Makefile"), None);
    assert_eq!(extension_of(b"/srv/www/.profile"), None);
    assert_eq!(extension_of(b"/srv/w.w/file"), None);
    assert_eq!(extension_of(b"/srv/www/.."), None);
    assert_eq!(extension_of(b".."), None);
    assert_eq!(extension_of(b"/srv/www/."), None);
    assert_eq!(extension_of(b"/srv/www/"), None);
    assert_eq!(extension_of(b"/"), None);
    assert_eq!(extension_of(b""), None);
}

#[test]
fn media_types_by_extension() {
    assert_eq!(media_type("aac"), "audio/aac");
    assert_eq!(media_type("css"), "text/css");
    assert_eq!(media_type("htm"), "text/html");
    assert_eq!(media_type("html"), "text/html");
    assert_eq!(media_type("jpg"), "image/jpeg");
    assert_eq!(media_type("jpeg"), "image/jpeg");
    assert_eq!(media_type("js"), "text/javascript");
    assert_eq!(media_type("mjs"), "text/javascript");
    assert_eq!(media_type("json"), "application/json");
    assert_eq!(media_type("png"), "image/png");
    assert_eq!(media_type("svg"), "image/svg+xml");
    assert_eq!(media_type("ts"), "video/mp2t");
    assert_eq!(media_type("woff2"), "font/woff2");
    assert_eq!(media_type("7z"), "application/x-7z-compressed");
    assert_eq!(
        media_type("docx"),
        "application/vnd.openxmlformats-officedocument.wordprocessingml.document"
    );
}

#[test]
fn unknown_extensions_are_arbitrary_bytes() {
    assert_eq!(media_type("xyz"), "application/octet-stream");
    assert_eq!(media_type(""), "application/octet-stream");
    assert_eq!(media_type("CSS"), "application/octet-stream");
    assert_eq!(mime_for_extension(None), "application/octet-stream");
    assert_eq!(mime_for_extension(Some("bin")), "application/octet-stream");
}

#[test]
fn textual_types_name_their_character_set() {
    assert_eq!(mime_for_extension(Some("css")), "text/css; charset=utf-8");
    assert_eq!(mime_for_extension(Some("csv")), "text/csv; charset=utf-8");
    assert_eq!(mime_for_extension(Some("html")), "text/html; charset=utf-8");
    assert_eq!(mime_for_extension(Some("ics")), "text/calendar; charset=utf-8");
    assert_eq!(mime_for_extension(Some("js")), "text/javascript; charset=utf-8");
    assert_eq!(mime_for_extension(Some("txt")), "text/plain; charset=utf-8");
    assert_eq!(mime_for_extension(Some("png")), "image/png");
    assert_eq!(mime_for_extension(Some("xml")), "application/xml");
    assert_eq!(add_charset("text/x"), "text/x; charset=utf-8");
    assert_eq!(add_charset("text/"), "text/; charset=utf-8");
    assert_eq!(add_charset("text"), "text");
    assert_eq!(add_charset("application/text/x"), "application/text/x");
    assert_eq!(add_charset(""), "");
}

#[test]
fn content_type_of_a_path() {
    assert_eq!(mime_for_file_ext(b"/srv/www/style.css"), "text/css; charset=utf-8");
    assert_eq!(mime_for_file_ext(b"/srv/www/logo.png"), "image/png");
    assert_eq!(mime_for_file_ext(b"/srv/www/README"), "application/octet-stream");
    assert_eq!(mime_for_file_ext(b"/srv/www/.css"), "application/octet-stream");
    assert_eq!(mime_for_file_ext(b"/srv/www/a.\xff"), "application/octet-stream");
    assert_eq!(mime_for_file_ext(b"/srv/www.css/file"), "application/octet-stream");
}

#[test]
fn resolver_asks_about_the_joined_path_first() {
    let resolver = FileResolver::new(ROOT.to_vec());
    assert_eq!(resolver.root_path(), ROOT);
    assert_eq!(resolver.start("/a/b.txt"), probe(b"/srv/www/a/b.txt"));
    assert_eq!(resolver.start("/"), probe(b"/srv/www/"));
    assert_eq!(resolver.start(""), probe(b"/srv/www/"));
    assert_eq!(resolver.start("/../x"), probe(b"/srv/www/../x"));
    assert_eq!(resolver.start("//etc/passwd"), probe(b"/etc/passwd"));
}

#[test]
fn resolver_enters_a_directory_by_its_index() {
    let resolver = FileResolver::new(ROOT.to_vec());
    assert_eq!(
        resolver.advance(probe(b"/srv/www/docs"), FsAnswer::Directory(true)),
        Resolution::Ask(canonicalize(b"/srv/www/docs/index.html"))
    );
    assert_eq!(
        resolver.advance(probe(b"/srv/www/"), FsAnswer::Directory(true)),
        Resolution::Ask(canonicalize(b"/srv/www/index.html"))
    );
    assert_eq!(
        resolver.advance(probe(b"/srv/www/a.txt"), FsAnswer::Directory(false)),
        Resolution::Ask(canonicalize(b"/srv/www/a.txt"))
    );
}

#[test]
fn resolver_accepts_only_what_lies_within_the_root() {
    let resolver = FileResolver::new(ROOT.to_vec());
    let asked = canonicalize(b"/srv/www/a/../b.txt");
    assert_eq!(
        resolver.advance(asked.clone(), FsAnswer::Canonical(b"/srv/www/b.txt".to_vec())),
        Resolution::File(b"/srv/www/b.txt".to_vec())
    );
    assert_eq!(
        resolver.advance(asked.clone(), FsAnswer::Canonical(b"/srv/secret.txt".to_vec())),
        Resolution::Refused(PathError::Forbidden)
    );
    assert_eq!(
        resolver.advance(asked.clone(), FsAnswer::Canonical(b"/srv/www2/b.txt".to_vec())),
        Resolution::Refused(PathError::Forbidden)
    );
    assert_eq!(
        resolver.advance(asked, FsAnswer::Canonical(b"/srv/www".to_vec())),
        Resolution::File(b"/srv/www".to_vec())
    );
}

#[test]
fn resolver_tells_a_missing_path_from_a_failure() {
    let resolver = FileResolver::new(ROOT.to_vec());
    let asked = canonicalize(b"/srv/www/none");
    assert_eq!(
        resolver.advance(asked.clone(), FsAnswer::Missing),
        Resolution::Refused(PathError::NotFound)
    );
    assert_eq!(
        resolver.advance(asked, FsAnswer::Failure),
        Resolution::Refused(PathError::ServerError)
    );
}

#[test]
fn resolver_refuses_an_answer_that_does_not_fit() {
    let resolver = FileResolver::new(ROOT.to_vec());
    let refused = Resolution::Refused(PathError::ServerError);
    assert_eq!(resolver.advance(probe(b"/srv/www/a"), FsAnswer::Missing), refused);
    assert_eq!(
        resolver.advance(probe(b"/srv/www/a"), FsAnswer::Canonical(b"/srv/www/a".to_vec())),
        refused
    );
    assert_eq!(resolver.advance(canonicalize(b"/srv/www/a"), FsAnswer::Directory(true)), refused);
    assert_eq!(resolver.advance(canonicalize(b"/srv/www/a"), FsAnswer::Unreadable), refused);
    assert_eq!(resolver.advance(read(b"/srv/www/a"), FsAnswer::Contents(vec![1])), refused);
}

#[test]
fn existing_file_is_served_with_its_type_and_length() {
    let body = vec![b'x'; 120];
    let response = serve(
        "/style.css",
        vec![
            (probe(b"/srv/www/style.css"), FsAnswer::Directory(false)),
            (canonicalize(b"/srv/www/style.css"), FsAnswer::Canonical(b"/srv/www/style.css".to_vec())),
            (read(b"/srv/www/style.css"), FsAnswer::Contents(body.clone())),
        ],
    );
    assert_eq!(response.status, 200);
    assert_eq!(response.status_text, "OK");
    assert_eq!(response.http_version, "HTTP/1.1");
    assert_eq!(response.method, "GET");
    assert_eq!(header(&response, "content-type"), Some("text/css; charset=utf-8"));
    assert_eq!(header(&response, "content-length"), Some("120"));
    assert_eq!(response.headers.len(), 2);
    assert_eq!(response.body, Some(body));
}

#[test]
fn query_is_not_part_of_the_path() {
    let response = serve(
        "/logo.png?size=2",
        vec![
            (probe(b"/srv/www/logo.png"), FsAnswer::Directory(false)),
            (canonicalize(b"/srv/www/logo.png"), FsAnswer::Canonical(b"/srv/www/logo.png".to_vec())),
            (read(b"/srv/www/logo.png"), FsAnswer::Contents(vec![1, 2, 3])),
        ],
    );
    assert_eq!(response.status, 200);
    assert_eq!(header(&response, "content-type"), Some("image/png"));
    assert_eq!(header(&response, "content-length"), Some("3"));
}

#[test]
fn root_request_serves_the_index() {
    let body = b"<html></html>".to_vec();
    let response = serve(
        "/",
        vec![
            (probe(b"/srv/www/"), FsAnswer::Directory(true)),
            (canonicalize(b"/srv/www/index.html"), FsAnswer::Canonical(b"/srv/www/index.html".to_vec())),
            (read(b"/srv/www/index.html"), FsAnswer::Contents(body.clone())),
        ],
    );
    assert_eq!(response.status, 200);
    assert_eq!(header(&response, "content-type"), Some("text/html; charset=utf-8"));
    assert_eq!(header(&response, "content-length"), Some("13"));
    assert_eq!(response.body, Some(body));
}

#[test]
fn directory_without_index_is_not_found() {
    let response = serve(
        "/docs",
        vec![
            (probe(b"/srv/www/docs"), FsAnswer::Directory(true)),
            (canonicalize(b"/srv/www/docs/index.html"), FsAnswer::Missing),
        ],
    );
    assert_eq!(response.status, 404);
    assert_eq!(response.body.as_deref(), Some(&b"Not Found"[..]));
    assert_eq!(header(&response, "content-length"), Some("9"));
}

#[test]
fn path_that_escapes_the_root_is_forbidden() {
    let response = serve(
        "/../secret.txt",
        vec![
            (probe(b"/srv/www/../secret.txt"), FsAnswer::Directory(false)),
            (canonicalize(b"/srv/www/../secret.txt"), FsAnswer::Canonical(b"/srv/secret.txt".to_vec())),
        ],
    );
    assert_eq!(response.status, 403);
    assert_eq!(response.status_text, "Forbidden");
    assert_eq!(response.body.as_deref(), Some(&b"Forbidden"[..]));
}

#[test]
fn deep_traversal_is_never_served() {
    let forbidden = serve(
        "/../../etc/passwd",
        vec![
            (probe(b"/srv/www/../../etc/passwd"), FsAnswer::Directory(false)),
            (canonicalize(b"/srv/www/../../etc/passwd"), FsAnswer::Canonical(b"/etc/passwd".to_vec())),
        ],
    );
    assert_eq!(forbidden.status, 403);
    let missing = serve(
        "/../../etc/passwd",
        vec![
            (probe(b"/srv/www/../../etc/passwd"), FsAnswer::Directory(false)),
            (canonicalize(b"/srv/www/../../etc/passwd"), FsAnswer::Missing),
        ],
    );
    assert_eq!(missing.status, 404);
}

#[test]
fn absolute_request_path_is_held_against_the_root() {
    let response = serve(
        "//etc/passwd",
        vec![
            (probe(b"/etc/passwd"), FsAnswer::Directory(false)),
            (canonicalize(b"/etc/passwd"), FsAnswer::Canonical(b"/etc/passwd".to_vec())),
        ],
    );
    assert_eq!(response.status, 403);
}

#[test]
fn link_that_leads_out_of_the_root_is_forbidden() {
    let response = serve(
        "/link/data",
        vec![
            (probe(b"/srv/www/link/data"), FsAnswer::Directory(false)),
            (canonicalize(b"/srv/www/link/data"), FsAnswer::Canonical(b"/var/data".to_vec())),
        ],
    );
    assert_eq!(response.status, 403);
}

#[test]
fn sibling_with_the_root_as_prefix_is_forbidden() {
    let response = serve(
        "/../www-old/a.txt",
        vec![
            (probe(b"/srv/www/../www-old/a.txt"), FsAnswer::Directory(false)),
            (canonicalize(b"/srv/www/../www-old/a.txt"), FsAnswer::Canonical(b"/srv/www-old/a.txt".to_vec())),
        ],
    );
    assert_eq!(response.status, 403);
}

#[test]
fn missing_file_is_not_found() {
    let response = serve(
        "/none.txt",
        vec![
            (probe(b"/srv/www/none.txt"), FsAnswer::Directory(false)),
            (canonicalize(b"/srv/www/none.txt"), FsAnswer::Missing),
        ],
    );
    assert_eq!(response.status, 404);
    assert_eq!(response.status_text, "Not Found");
}

#[test]
fn other_failure_is_a_server_error() {
    let response = serve(
        "/a.txt",
        vec![
            (probe(b"/srv/www/a.txt"), FsAnswer::Directory(false)),
            (canonicalize(b"/srv/www/a.txt"), FsAnswer::Failure),
        ],
    );
    assert_eq!(response.status, 500);
    assert_eq!(response.status_text, "Server Error");
    assert_eq!(response.body.as_deref(), Some(&b"Server Error"[..]));
}

#[test]
fn file_that_vanishes_before_the_read_is_not_found() {
    let response = serve(
        "/a.txt",
        vec![
            (probe(b"/srv/www/a.txt"), FsAnswer::Directory(false)),
            (canonicalize(b"/srv/www/a.txt"), FsAnswer::Canonical(b"/srv/www/a.txt".to_vec())),
            (read(b"/srv/www/a.txt"), FsAnswer::Unreadable),
        ],
    );
    assert_eq!(response.status, 404);
}

#[test]
fn contents_are_no_answer_before_the_path_is_canonical() {
    let to_the_probe = serve(
        "/../x",
        vec![(probe(b"/srv/www/../x"), FsAnswer::Contents(b"secret".to_vec()))],
    );
    assert_eq!(to_the_probe.status, 500);
    let to_the_canonicalization = serve(
        "/../x",
        vec![
            (probe(b"/srv/www/../x"), FsAnswer::Directory(false)),
            (canonicalize(b"/srv/www/../x"), FsAnswer::Contents(b"secret".to_vec())),
        ],
    );
    assert_eq!(to_the_canonicalization.status, 500);
    assert_eq!(to_the_canonicalization.body.as_deref(), Some(&b"Server Error"[..]));
}

#[test]
fn answer_that_does_not_fit_the_read_is_a_server_error() {
    let server = FileServer::new(ROOT.to_vec());
    assert_eq!(server.root_path(), ROOT);
    let response = serve(
        "/a.txt",
        vec![
            (probe(b"/srv/www/a.txt"), FsAnswer::Directory(false)),
            (canonicalize(b"/srv/www/a.txt"), FsAnswer::Canonical(b"/srv/www/a.txt".to_vec())),
            (read(b"/srv/www/a.txt"), FsAnswer::Directory(true)),
        ],
    );
    assert_eq!(response.status, 500);
}

#[test]
fn question_can_be_copied() {
    let asked = read(b"/srv/www/a.txt");
    assert_eq!(asked.duplicate(), asked);
    assert_eq!(probe(b"/x").duplicate(), probe(b"/x"));
    assert_eq!(canonicalize(b"").duplicate(), canonicalize(b""));
}

#[test]
fn refusals_keep_version_and_method_of_the_request() {
    let text = "POST /x HTTP/1.0\r\n\r\n";
    let request = HttpRequest::new(text.as_bytes(), text.len()).unwrap();
    let not_found = FileServer::refusal(&request, PathError::NotFound);
    assert_eq!((not_found.status, not_found.method.as_str()), (404, "POST"));
    assert_eq!(not_found.http_version, "HTTP/1.0");
    assert_eq!(FileServer::refusal(&request, PathError::Forbidden).status, 403);
    assert_eq!(FileServer::refusal(&request, PathError::ServerError).status, 500);
}
