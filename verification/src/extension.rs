//! The table from declared content types to file-name extensions.

use crate::text::same_text;
use vstd::prelude::*;

verus! {

/// The extension given to a content type that the table does not list.
pub open spec fn default_extension() -> Seq<char> {
    "txt"@
}

/// The content types that have an extension of their own, each with that
/// extension: lower case, without a leading dot.
pub open spec fn extension_table() -> Map<Seq<char>, Seq<char>> {
    map![
        "text/html"@ => "html"@,
        "text/css"@ => "css"@,
        "text/javascript"@ => "js"@,
        "application/x-javascript"@ => "js"@,
        "application/json"@ => "json"@,
        "image/png"@ => "png"@,
        "image/jpg"@ => "jpg"@,
        "image/jpeg"@ => "jpg"@,
        "image/gif"@ => "gif"@,
        "image/svg+xml"@ => "svg"@,
        "image/x-icon"@ => "ico"@,
        "text/plain"@ => "txt"@,
        "application/pdf"@ => "pdf"@,
        "audio/mpeg"@ => "mp3"@,
        "video/mp4"@ => "mp4"@,
        "video/webm"@ => "webm"@,
        "application/xml"@ => "xml"@,
        "application/zip"@ => "zip"@,
        "application/gzip"@ => "gz"@,
        "application/x-tar"@ => "tar"@,
        "application/x-rar-compressed"@ => "rar"@,
        "application/x-7z-compressed"@ => "7z"@,
        "application/x-msdownload"@ => "exe"@,
        "application/octet-stream"@ => "bin"@,
        "font/ttf"@ => "ttf"@,
        "font/woff"@ => "woff"@,
        "font/woff2"@ => "woff2"@,
        "font/otf"@ => "otf"@,
        "application/vnd.ms-fontobject"@ => "eot"@,
        "audio/wav"@ => "wav"@,
        "image/webp"@ => "webp"@,
        "text/csv"@ => "csv"@,
        "application/vnd.ms-excel"@ => "xls"@,
        "application/vnd.openxmlformats-officedocument.spreadsheetml.sheet"@ => "xlsx"@,
        "application/msword"@ => "doc"@,
        "application/vnd.openxmlformats-officedocument.wordprocessingml.document"@ => "docx"@,
        "application/vnd.ms-powerpoint"@ => "ppt"@,
        "application/vnd.openxmlformats-officedocument.presentationml.presentation"@ => "pptx"@,
        "application/vnd.oasis.opendocument.text"@ => "odt"@,
        "application/vnd.oasis.opendocument.spreadsheet"@ => "ods"@,
        "application/vnd.oasis.opendocument.presentation"@ => "odp"@,
    ]
}

/// The extension for a declared content type: the table's entry where the
/// type is one of its keys, character for character, and the default
/// otherwise. A type that carries parameters is a different string from the
/// bare type and so is not found.
pub open spec fn resolve_extension(mime_type: Seq<char>) -> Seq<char> {
    if extension_table().contains_key(mime_type) {
        extension_table()[mime_type]
    } else {
        default_extension()
    }
}

/// Looks a content type up in the extension table.
pub fn type_to_extension(mime_type: &str) -> (extension: &'static str)
    ensures
        extension@ == resolve_extension(mime_type@),
{
    if same_text(mime_type, "application/vnd.oasis.opendocument.presentation") {
        "odp"
    } else if same_text(mime_type, "application/vnd.oasis.opendocument.spreadsheet") {
        "ods"
    } else if same_text(mime_type, "application/vnd.oasis.opendocument.text") {
        "odt"
    } else if same_text(mime_type, "application/vnd.openxmlformats-officedocument.presentationml.presentation") {
        "pptx"
    } else if same_text(mime_type, "application/vnd.ms-powerpoint") {
        "ppt"
    } else if same_text(mime_type, "application/vnd.openxmlformats-officedocument.wordprocessingml.document") {
        "docx"
    } else if same_text(mime_type, "application/msword") {
        "doc"
    } else if same_text(mime_type, "application/vnd.openxmlformats-officedocument.spreadsheetml.sheet") {
        "xlsx"
    } else if same_text(mime_type, "application/vnd.ms-excel") {
        "xls"
    } else if same_text(mime_type, "text/csv") {
        "csv"
    } else if same_text(mime_type, "image/webp") {
        "webp"
    } else if same_text(mime_type, "audio/wav") {
        "wav"
    } else if same_text(mime_type, "application/vnd.ms-fontobject") {
        "eot"
    } else if same_text(mime_type, "font/otf") {
        "otf"
    } else if same_text(mime_type, "font/woff2") {
        "woff2"
    } else if same_text(mime_type, "font/woff") {
        "woff"
    } else if same_text(mime_type, "font/ttf") {
        "ttf"
    } else if same_text(mime_type, "application/octet-stream") {
        "bin"
    } else if same_text(mime_type, "application/x-msdownload") {
        "exe"
    } else if same_text(mime_type, "application/x-7z-compressed") {
        "7z"
    } else if same_text(mime_type, "application/x-rar-compressed") {
        "rar"
    } else if same_text(mime_type, "application/x-tar") {
        "tar"
    } else if same_text(mime_type, "application/gzip") {
        "gz"
    } else if same_text(mime_type, "application/zip") {
        "zip"
    } else if same_text(mime_type, "application/xml") {
        "xml"
    } else if same_text(mime_type, "video/webm") {
        "webm"
    } else if same_text(mime_type, "video/mp4") {
        "mp4"
    } else if same_text(mime_type, "audio/mpeg") {
        "mp3"
    } else if same_text(mime_type, "application/pdf") {
        "pdf"
    } else if same_text(mime_type, "text/plain") {
        "txt"
    } else if same_text(mime_type, "image/x-icon") {
        "ico"
    } else if same_text(mime_type, "image/svg+xml") {
        "svg"
    } else if same_text(mime_type, "image/gif") {
        "gif"
    } else if same_text(mime_type, "image/jpeg") {
        "jpg"
    } else if same_text(mime_type, "image/jpg") {
        "jpg"
    } else if same_text(mime_type, "image/png") {
        "png"
    } else if same_text(mime_type, "application/json") {
        "json"
    } else if same_text(mime_type, "application/x-javascript") {
        "js"
    } else if same_text(mime_type, "text/javascript") {
        "js"
    } else if same_text(mime_type, "text/css") {
        "css"
    } else if same_text(mime_type, "text/html") {
        "html"
    } else {
        "txt"
    }
}

/// Whether a character may stand in an extension: a lower-case letter or a
/// digit.
pub open spec fn is_extension_char(c: char) -> bool {
    ('a' <= c && c <= 'z') || ('0' <= c && c <= '9')
}

/// Whatever the content type, its extension is a non-empty run of lower-case
/// letters and digits; in particular no dot leads it.
pub proof fn lemma_extensions_are_plain(mime_type: Seq<char>)
    ensures
        resolve_extension(mime_type).len() > 0,
        forall|i: int|
            0 <= i < resolve_extension(mime_type).len() ==> is_extension_char(
                #[trigger] resolve_extension(mime_type)[i],
            ),
{
    reveal_strlit("html");
    reveal_strlit("css");
    reveal_strlit("js");
    reveal_strlit("json");
    reveal_strlit("png");
    reveal_strlit("jpg");
    reveal_strlit("gif");
    reveal_strlit("svg");
    reveal_strlit("ico");
    reveal_strlit("txt");
    reveal_strlit("pdf");
    reveal_strlit("mp3");
    reveal_strlit("mp4");
    reveal_strlit("webm");
    reveal_strlit("xml");
    reveal_strlit("zip");
    reveal_strlit("gz");
    reveal_strlit("tar");
    reveal_strlit("rar");
    reveal_strlit("7z");
    reveal_strlit("exe");
    reveal_strlit("bin");
    reveal_strlit("ttf");
    reveal_strlit("woff");
    reveal_strlit("woff2");
    reveal_strlit("otf");
    reveal_strlit("eot");
    reveal_strlit("wav");
    reveal_strlit("webp");
    reveal_strlit("csv");
    reveal_strlit("xls");
    reveal_strlit("xlsx");
    reveal_strlit("doc");
    reveal_strlit("docx");
    reveal_strlit("ppt");
    reveal_strlit("pptx");
    reveal_strlit("odt");
    reveal_strlit("ods");
    reveal_strlit("odp");
}

/// No entry of the table hides another: every listed content type is found
/// with the extension written beside it.
pub proof fn lemma_table_as_listed()
    ensures
        resolve_extension("text/html"@) == "html"@,
        resolve_extension("text/css"@) == "css"@,
        resolve_extension("text/javascript"@) == "js"@,
        resolve_extension("application/x-javascript"@) == "js"@,
        resolve_extension("application/json"@) == "json"@,
        resolve_extension("image/png"@) == "png"@,
        resolve_extension("image/jpg"@) == "jpg"@,
        resolve_extension("image/jpeg"@) == "jpg"@,
        resolve_extension("image/gif"@) == "gif"@,
        resolve_extension("image/svg+xml"@) == "svg"@,
        resolve_extension("image/x-icon"@) == "ico"@,
        resolve_extension("text/plain"@) == "txt"@,
        resolve_extension("application/pdf"@) == "pdf"@,
        resolve_extension("audio/mpeg"@) == "mp3"@,
        resolve_extension("video/mp4"@) == "mp4"@,
        resolve_extension("video/webm"@) == "webm"@,
        resolve_extension("application/xml"@) == "xml"@,
        resolve_extension("application/zip"@) == "zip"@,
        resolve_extension("application/gzip"@) == "gz"@,
        resolve_extension("application/x-tar"@) == "tar"@,
        resolve_extension("application/x-rar-compressed"@) == "rar"@,
        resolve_extension("application/x-7z-compressed"@) == "7z"@,
        resolve_extension("application/x-msdownload"@) == "exe"@,
        resolve_extension("application/octet-stream"@) == "bin"@,
        resolve_extension("font/ttf"@) == "ttf"@,
        resolve_extension("font/woff"@) == "woff"@,
        resolve_extension("font/woff2"@) == "woff2"@,
        resolve_extension("font/otf"@) == "otf"@,
        resolve_extension("application/vnd.ms-fontobject"@) == "eot"@,
        resolve_extension("audio/wav"@) == "wav"@,
        resolve_extension("image/webp"@) == "webp"@,
        resolve_extension("text/csv"@) == "csv"@,
        resolve_extension("application/vnd.ms-excel"@) == "xls"@,
        resolve_extension("application/vnd.openxmlformats-officedocument.spreadsheetml.sheet"@) == "xlsx"@,
        resolve_extension("application/msword"@) == "doc"@,
        resolve_extension("application/vnd.openxmlformats-officedocument.wordprocessingml.document"@) == "docx"@,
        resolve_extension("application/vnd.ms-powerpoint"@) == "ppt"@,
        resolve_extension("application/vnd.openxmlformats-officedocument.presentationml.presentation"@) == "pptx"@,
        resolve_extension("application/vnd.oasis.opendocument.text"@) == "odt"@,
        resolve_extension("application/vnd.oasis.opendocument.spreadsheet"@) == "ods"@,
        resolve_extension("application/vnd.oasis.opendocument.presentation"@) == "odp"@,
{
    reveal_strlit("text/html");
    reveal_strlit("text/css");
    reveal_strlit("text/javascript");
    reveal_strlit("application/x-javascript");
    reveal_strlit("application/json");
    reveal_strlit("image/png");
    reveal_strlit("image/jpg");
    reveal_strlit("image/jpeg");
    reveal_strlit("image/gif");
    reveal_strlit("image/svg+xml");
    reveal_strlit("image/x-icon");
    reveal_strlit("text/plain");
    reveal_strlit("application/pdf");
    reveal_strlit("audio/mpeg");
    reveal_strlit("video/mp4");
    reveal_strlit("video/webm");
    reveal_strlit("application/xml");
    reveal_strlit("application/zip");
    reveal_strlit("application/gzip");
    reveal_strlit("application/x-tar");
    reveal_strlit("application/x-rar-compressed");
    reveal_strlit("application/x-7z-compressed");
    reveal_strlit("application/x-msdownload");
    reveal_strlit("application/octet-stream");
    reveal_strlit("font/ttf");
    reveal_strlit("font/woff");
    reveal_strlit("font/woff2");
    reveal_strlit("font/otf");
    reveal_strlit("application/vnd.ms-fontobject");
    reveal_strlit("audio/wav");
    reveal_strlit("image/webp");
    reveal_strlit("text/csv");
    reveal_strlit("application/vnd.ms-excel");
    reveal_strlit("application/vnd.openxmlformats-officedocument.spreadsheetml.sheet");
    reveal_strlit("application/msword");
    reveal_strlit("application/vnd.openxmlformats-officedocument.wordprocessingml.document");
    reveal_strlit("application/vnd.ms-powerpoint");
    reveal_strlit("application/vnd.openxmlformats-officedocument.presentationml.presentation");
    reveal_strlit("application/vnd.oasis.opendocument.text");
    reveal_strlit("application/vnd.oasis.opendocument.spreadsheet");
    reveal_strlit("application/vnd.oasis.opendocument.presentation");
    // Two keys differ in length or in the character asserted for both.
    assert("text/html"@.len() == 9);
    assert("text/css"@.len() == 8);
    assert("text/javascript"@.len() == 15);
    assert("application/x-javascript"@.len() == 24);
    assert("application/json"@.len() == 16);
    assert("image/png"@.len() == 9);
    assert("image/jpg"@.len() == 9);
    assert("image/jpeg"@.len() == 10);
    assert("image/gif"@.len() == 9);
    assert("image/svg+xml"@.len() == 13);
    assert("image/x-icon"@.len() == 12);
    assert("text/plain"@.len() == 10);
    assert("application/pdf"@.len() == 15);
    assert("audio/mpeg"@.len() == 10);
    assert("video/mp4"@.len() == 9);
    assert("video/webm"@.len() == 10);
    assert("application/xml"@.len() == 15);
    assert("application/zip"@.len() == 15);
    assert("application/gzip"@.len() == 16);
    assert("application/x-tar"@.len() == 17);
    assert("application/x-rar-compressed"@.len() == 28);
    assert("application/x-7z-compressed"@.len() == 27);
    assert("application/x-msdownload"@.len() == 24);
    assert("application/octet-stream"@.len() == 24);
    assert("font/ttf"@.len() == 8);
    assert("font/woff"@.len() == 9);
    assert("font/woff2"@.len() == 10);
    assert("font/otf"@.len() == 8);
    assert("application/vnd.ms-fontobject"@.len() == 29);
    assert("audio/wav"@.len() == 9);
    assert("image/webp"@.len() == 10);
    assert("text/csv"@.len() == 8);
    assert("application/vnd.ms-excel"@.len() == 24);
    assert("application/vnd.openxmlformats-officedocument.spreadsheetml.sheet"@.len() == 65);
    assert("application/msword"@.len() == 18);
    assert("application/vnd.openxmlformats-officedocument.wordprocessingml.document"@.len() == 71);
    assert("application/vnd.ms-powerpoint"@.len() == 29);
    assert("application/vnd.openxmlformats-officedocument.presentationml.presentation"@.len() == 73);
    assert("application/vnd.oasis.opendocument.text"@.len() == 39);
    assert("application/vnd.oasis.opendocument.spreadsheet"@.len() == 46);
    assert("application/vnd.oasis.opendocument.presentation"@.len() == 47);
    assert("text/html"@[0] == 't');
    assert("image/png"@[0] == 'i');
    assert("image/jpg"@[0] == 'i');
    assert("image/gif"@[0] == 'i');
    assert("video/mp4"@[0] == 'v');
    assert("font/woff"@[0] == 'f');
    assert("audio/wav"@[0] == 'a');
    assert("text/css"@[0] == 't');
    assert("font/ttf"@[0] == 'f');
    assert("font/otf"@[0] == 'f');
    assert("text/css"@[7] == 's');
    assert("text/csv"@[7] == 'v');
    assert("text/javascript"@[0] == 't');
    assert("application/pdf"@[0] == 'a');
    assert("application/xml"@[0] == 'a');
    assert("application/zip"@[0] == 'a');
    assert("application/x-javascript"@[14] == 'j');
    assert("application/x-msdownload"@[14] == 'm');
    assert("application/x-javascript"@[12] == 'x');
    assert("application/octet-stream"@[12] == 'o');
    assert("application/vnd.ms-excel"@[12] == 'v');
    assert("application/json"@[12] == 'j');
    assert("application/gzip"@[12] == 'g');
    assert("image/png"@[6] == 'p');
    assert("image/jpg"@[6] == 'j');
    assert("image/gif"@[6] == 'g');
    assert("image/jpeg"@[0] == 'i');
    assert("text/plain"@[0] == 't');
    assert("audio/mpeg"@[0] == 'a');
    assert("video/webm"@[0] == 'v');
    assert("font/woff2"@[0] == 'f');
    assert("image/jpeg"@[6] == 'j');
    assert("image/webp"@[6] == 'w');
    assert("image/webp"@[0] == 'i');
    assert("application/pdf"@[12] == 'p');
    assert("application/xml"@[12] == 'x');
    assert("application/zip"@[12] == 'z');
    assert("application/x-msdownload"@[12] == 'x');
    assert("font/ttf"@[5] == 't');
    assert("font/otf"@[5] == 'o');
    assert("text/csv"@[0] == 't');
    assert("application/vnd.ms-fontobject"@[19] == 'f');
    assert("application/vnd.ms-powerpoint"@[19] == 'p');
}

} // verus!
