//! A concurrent static-file HTTP server core: request parsing, path
//! confinement, response building and the work queue that feeds the workers.

pub mod command_line;
pub mod file_resolver;
pub mod file_server;
pub mod handle_request;
pub mod http_request;
pub mod http_response;
pub mod mime;
pub mod paths;
pub mod responder;
pub mod text;
pub mod text_map;
pub mod util;
pub mod work_queue;

pub use handle_request::handle_request;
pub use http_request::HttpRequest;
pub use http_response::HttpResponse;
pub use responder::Responder;
