//! Media types by file extension.

use crate::paths::extension;
use crate::paths::extension_of;
use crate::text::str_eq;
use vstd::prelude::*;
use vstd::slice::slice_to_vec;
use vstd::string::StrSliceExecFns;
use vstd::string::StringExecFns;
use vstd::utf8::decode_utf8;
use vstd::utf8::valid_utf8;

verus! {

/// Media type of a file whose extension says nothing.
pub const OCTET_STREAM: &'static str = "application/octet-stream";

/// What marks a media type as text.
pub const TEXT_PREFIX: &'static str = "text/";

/// What a textual media type is given behind its name.
pub const CHARSET_SUFFIX: &'static str = "; charset=utf-8";

/// The media type that an extension stands for. Extensions are told apart
/// by case; one that the table does not hold stands for arbitrary bytes.
pub open spec fn media_type_of(ext: Seq<char>) -> Seq<char> {
    if ext == "aac"@ {
        "audio/aac"@
    } else if ext == "abw"@ {
        "application/x-abiword"@
    } else if ext == "arc"@ {
        "application/x-freearc"@
    } else if ext == "avif"@ {
        "image/avif"@
    } else if ext == "avi"@ {
        "video/x-msvideo"@
    } else if ext == "azw"@ {
        "application/vnd.amazon.ebook"@
    } else if ext == "bmp"@ {
        "image/bmp"@
    } else if ext == "bz"@ {
        "application/x-bzip"@
    } else if ext == "bz2"@ {
        "application/x-bzip2"@
    } else if ext == "cda"@ {
        "application/x-cdf"@
    } else if ext == "csh"@ {
        "application/x-csh"@
    } else if ext == "css"@ {
        "text/css"@
    } else if ext == "csv"@ {
        "text/csv"@
    } else if ext == "doc"@ {
        "application/msword"@
    } else if ext == "docx"@ {
        "application/vnd.openxmlformats-officedocument.wordprocessingml.document"@
    } else if ext == "eot"@ {
        "application/vnd.ms-fontobject"@
    } else if ext == "epub"@ {
        "application/epub+zip"@
    } else if ext == "gz"@ {
        "application/gzip"@
    } else if ext == "gif"@ {
        "image/gif"@
    } else if ext == "htm"@ {
        "text/html"@
    } else if ext == "html"@ {
        "text/html"@
    } else if ext == "ico"@ {
        "image/vnd.microsoft.icon"@
    } else if ext == "ics"@ {
        "text/calendar"@
    } else if ext == "jar"@ {
        "application/java-archive"@
    } else if ext == "jpg"@ {
        "image/jpeg"@
    } else if ext == "jpeg"@ {
        "image/jpeg"@
    } else if ext == "js"@ {
        "text/javascript"@
    } else if ext == "mjs"@ {
        "text/javascript"@
    } else if ext == "json"@ {
        "application/json"@
    } else if ext == "jsonld"@ {
        "application/ld+json"@
    } else if ext == "mid"@ {
        "audio/midi"@
    } else if ext == "midi"@ {
        "audio/midi"@
    } else if ext == "mp3"@ {
        "audio/mpeg"@
    } else if ext == "mp4"@ {
        "video/mp4"@
    } else if ext == "mpg"@ {
        "video/mpeg"@
    } else if ext == "mpeg"@ {
        "video/mpeg"@
    } else if ext == "mpkg"@ {
        "application/vnd.apple.installer+xml"@
    } else if ext == "odp"@ {
        "application/vnd.oasis.opendocument.presentation"@
    } else if ext == "ods"@ {
        "application/vnd.oasis.opendocument.spreadsheet"@
    } else if ext == "odt"@ {
        "application/vnd.oasis.opendocument.text"@
    } else if ext == "oga"@ {
        "audio/ogg"@
    } else if ext == "ogg"@ {
        "audio/ogg"@
    } else if ext == "ogv"@ {
        "video/ogg"@
    } else if ext == "ogx"@ {
        "application/ogg"@
    } else if ext == "opus"@ {
        "audio/opus"@
    } else if ext == "otf"@ {
        "font/otf"@
    } else if ext == "png"@ {
        "image/png"@
    } else if ext == "pdf"@ {
        "application/pdf"@
    } else if ext == "php"@ {
        "application/x-httpd-php"@
    } else if ext == "ppt"@ {
        "application/vnd.ms-powerpoint"@
    } else if ext == "pptx"@ {
        "application/vnd.openxmlformats-officedocument.presentationml.presentation"@
    } else if ext == "rar"@ {
        "application/vnd.rar"@
    } else if ext == "rtf"@ {
        "application/rtf"@
    } else if ext == "sh"@ {
        "application/x-sh"@
    } else if ext == "svg"@ {
        "image/svg+xml"@
    } else if ext == "tar"@ {
        "application/x-tar"@
    } else if ext == "tif"@ {
        "image/tiff"@
    } else if ext == "tiff"@ {
        "image/tiff"@
    } else if ext == "ts"@ {
        "video/mp2t"@
    } else if ext == "ttf"@ {
        "font/ttf"@
    } else if ext == "txt"@ {
        "text/plain"@
    } else if ext == "vsd"@ {
        "application/vnd.visio"@
    } else if ext == "wasm"@ {
        "application/wasm"@
    } else if ext == "wav"@ {
        "audio/wav"@
    } else if ext == "weba"@ {
        "audio/webm"@
    } else if ext == "webm"@ {
        "video/webm"@
    } else if ext == "webp"@ {
        "image/webp"@
    } else if ext == "woff"@ {
        "font/woff"@
    } else if ext == "woff2"@ {
        "font/woff2"@
    } else if ext == "xhtml"@ {
        "application/xhtml+xml"@
    } else if ext == "xls"@ {
        "application/vnd.ms-excel"@
    } else if ext == "xlsx"@ {
        "application/vnd.openxmlformats-officedocument.spreadsheetml.sheet"@
    } else if ext == "xml"@ {
        "application/xml"@
    } else if ext == "xul"@ {
        "application/vnd.mozilla.xul+xml"@
    } else if ext == "zip"@ {
        "application/zip"@
    } else if ext == "7z"@ {
        "application/x-7z-compressed"@
    } else {
        OCTET_STREAM@
    }
}

/// Whether a media type is textual: its name begins with `text/`.
pub open spec fn is_textual(media_type: Seq<char>) -> bool {
    media_type.len() >= TEXT_PREFIX@.len() && media_type.subrange(0, TEXT_PREFIX@.len() as int)
        == TEXT_PREFIX@
}

/// A media type as the content-type header gives it: a textual one names
/// UTF-8 as its character set.
pub open spec fn with_charset(media_type: Seq<char>) -> Seq<char> {
    if is_textual(media_type) {
        media_type + CHARSET_SUFFIX@
    } else {
        media_type
    }
}

/// The content type of a file with the given extension.
pub open spec fn content_type_of(ext: Option<Seq<char>>) -> Seq<char> {
    match ext {
        Some(ext) => with_charset(media_type_of(ext)),
        None => with_charset(OCTET_STREAM@),
    }
}

/// The extension of a path as text; none where it is not UTF-8.
pub open spec fn extension_text(path: Seq<u8>) -> Option<Seq<char>> {
    match extension(path) {
        Some(bytes) => if valid_utf8(bytes) {
            Some(decode_utf8(bytes))
        } else {
            None
        },
        None => None,
    }
}

/// Looks an extension up in the table of media types.
pub fn media_type(ext: &str) -> (name: &'static str)
    ensures
        name@ == media_type_of(ext@),
{
    if str_eq(ext, "aac") {
        "audio/aac"
    } else if str_eq(ext, "abw") {
        "application/x-abiword"
    } else if str_eq(ext, "arc") {
        "application/x-freearc"
    } else if str_eq(ext, "avif") {
        "image/avif"
    } else if str_eq(ext, "avi") {
        "video/x-msvideo"
    } else if str_eq(ext, "azw") {
        "application/vnd.amazon.ebook"
    } else if str_eq(ext, "bmp") {
        "image/bmp"
    } else if str_eq(ext, "bz") {
        "application/x-bzip"
    } else if str_eq(ext, "bz2") {
        "application/x-bzip2"
    } else if str_eq(ext, "cda") {
        "application/x-cdf"
    } else if str_eq(ext, "csh") {
        "application/x-csh"
    } else if str_eq(ext, "css") {
        "text/css"
    } else if str_eq(ext, "csv") {
        "text/csv"
    } else if str_eq(ext, "doc") {
        "application/msword"
    } else if str_eq(ext, "docx") {
        "application/vnd.openxmlformats-officedocument.wordprocessingml.document"
    } else if str_eq(ext, "eot") {
        "application/vnd.ms-fontobject"
    } else if str_eq(ext, "epub") {
        "application/epub+zip"
    } else if str_eq(ext, "gz") {
        "application/gzip"
    } else if str_eq(ext, "gif") {
        "image/gif"
    } else if str_eq(ext, "htm") {
        "text/html"
    } else if str_eq(ext, "html") {
        "text/html"
    } else if str_eq(ext, "ico") {
        "image/vnd.microsoft.icon"
    } else if str_eq(ext, "ics") {
        "text/calendar"
    } else if str_eq(ext, "jar") {
        "application/java-archive"
    } else if str_eq(ext, "jpg") {
        "image/jpeg"
    } else if str_eq(ext, "jpeg") {
        "image/jpeg"
    } else if str_eq(ext, "js") {
        "text/javascript"
    } else if str_eq(ext, "mjs") {
        "text/javascript"
    } else if str_eq(ext, "json") {
        "application/json"
    } else if str_eq(ext, "jsonld") {
        "application/ld+json"
    } else if str_eq(ext, "mid") {
        "audio/midi"
    } else if str_eq(ext, "midi") {
        "audio/midi"
    } else if str_eq(ext, "mp3") {
        "audio/mpeg"
    } else if str_eq(ext, "mp4") {
        "video/mp4"
    } else if str_eq(ext, "mpg") {
        "video/mpeg"
    } else if str_eq(ext, "mpeg") {
        "video/mpeg"
    } else if str_eq(ext, "mpkg") {
        "application/vnd.apple.installer+xml"
    } else if str_eq(ext, "odp") {
        "application/vnd.oasis.opendocument.presentation"
    } else if str_eq(ext, "ods") {
        "application/vnd.oasis.opendocument.spreadsheet"
    } else if str_eq(ext, "odt") {
        "application/vnd.oasis.opendocument.text"
    } else if str_eq(ext, "oga") {
        "audio/ogg"
    } else if str_eq(ext, "ogg") {
        "audio/ogg"
    } else if str_eq(ext, "ogv") {
        "video/ogg"
    } else if str_eq(ext, "ogx") {
        "application/ogg"
    } else if str_eq(ext, "opus") {
        "audio/opus"
    } else if str_eq(ext, "otf") {
        "font/otf"
    } else if str_eq(ext, "png") {
        "image/png"
    } else if str_eq(ext, "pdf") {
        "application/pdf"
    } else if str_eq(ext, "php") {
        "application/x-httpd-php"
    } else if str_eq(ext, "ppt") {
        "application/vnd.ms-powerpoint"
    } else if str_eq(ext, "pptx") {
        "application/vnd.openxmlformats-officedocument.presentationml.presentation"
    } else if str_eq(ext, "rar") {
        "application/vnd.rar"
    } else if str_eq(ext, "rtf") {
        "application/rtf"
    } else if str_eq(ext, "sh") {
        "application/x-sh"
    } else if str_eq(ext, "svg") {
        "image/svg+xml"
    } else if str_eq(ext, "tar") {
        "application/x-tar"
    } else if str_eq(ext, "tif") {
        "image/tiff"
    } else if str_eq(ext, "tiff") {
        "image/tiff"
    } else if str_eq(ext, "ts") {
        "video/mp2t"
    } else if str_eq(ext, "ttf") {
        "font/ttf"
    } else if str_eq(ext, "txt") {
        "text/plain"
    } else if str_eq(ext, "vsd") {
        "application/vnd.visio"
    } else if str_eq(ext, "wasm") {
        "application/wasm"
    } else if str_eq(ext, "wav") {
        "audio/wav"
    } else if str_eq(ext, "weba") {
        "audio/webm"
    } else if str_eq(ext, "webm") {
        "video/webm"
    } else if str_eq(ext, "webp") {
        "image/webp"
    } else if str_eq(ext, "woff") {
        "font/woff"
    } else if str_eq(ext, "woff2") {
        "font/woff2"
    } else if str_eq(ext, "xhtml") {
        "application/xhtml+xml"
    } else if str_eq(ext, "xls") {
        "application/vnd.ms-excel"
    } else if str_eq(ext, "xlsx") {
        "application/vnd.openxmlformats-officedocument.spreadsheetml.sheet"
    } else if str_eq(ext, "xml") {
        "application/xml"
    } else if str_eq(ext, "xul") {
        "application/vnd.mozilla.xul+xml"
    } else if str_eq(ext, "zip") {
        "application/zip"
    } else if str_eq(ext, "7z") {
        "application/x-7z-compressed"
    } else {
        OCTET_STREAM
    }
}

/// Gives a textual media type its character set.
pub fn add_charset(media_type: &str) -> (content_type: String)
    ensures
        content_type@ == with_charset(media_type@),
{
    proof {
        reveal_strlit("text/");
    }
    if media_type.unicode_len() >= 5 && str_eq(media_type.substring_char(0, 5), TEXT_PREFIX) {
        String::from_str(media_type).concat(CHARSET_SUFFIX)
    } else {
        String::from_str(media_type)
    }
}

/// The content type of a file with the given extension, or without one.
pub fn mime_for_extension(ext: Option<&str>) -> (content_type: String)
    ensures
        content_type@ == content_type_of(
            match ext {
                Some(text) => Some(text@),
                None => None,
            },
        ),
{
    match ext {
        Some(text) => add_charset(media_type(text)),
        None => add_charset(OCTET_STREAM),
    }
}

/// The content type of the file at `path`, by the extension of its name.
pub fn mime_for_file_ext(path: &[u8]) -> (content_type: String)
    ensures
        content_type@ == content_type_of(extension_text(path@)),
{
    match extension_of(path) {
        Some(bytes) => match String::from_utf8(slice_to_vec(bytes)) {
            Ok(text) => mime_for_extension(Some(text.as_str())),
            Err(_) => mime_for_extension(None),
        },
        None => mime_for_extension(None),
    }
}

} // verus!
