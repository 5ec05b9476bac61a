use httpget::extension::type_to_extension;
use httpget::output::resolve_output_path;

#[test]
fn every_listed_type_has_its_extension() {
    let table = [
        ("text/html", "html"),
        ("text/css", "css"),
        ("text/javascript", "js"),
        ("application/x-javascript", "js"),
        ("application/json", "json"),
        ("image/png", "png"),
        ("image/jpg", "jpg"),
        ("image/jpeg", "jpg"),
        ("image/gif", "gif"),
        ("image/svg+xml", "svg"),
        ("image/x-icon", "ico"),
        ("text/plain", "txt"),
        ("application/pdf", "pdf"),
        ("audio/mpeg", "mp3"),
        ("video/mp4", "mp4"),
        ("video/webm", "webm"),
        ("application/xml", "xml"),
        ("application/zip", "zip"),
        ("application/gzip", "gz"),
        ("application/x-tar", "tar"),
        ("application/x-rar-compressed", "rar"),
        ("application/x-7z-compressed", "7z"),
        ("application/x-msdownload", "exe"),
        ("application/octet-stream", "bin"),
        ("font/ttf", "ttf"),
        ("font/woff", "woff"),
        ("font/woff2", "woff2"),
        ("font/otf", "otf"),
        ("application/vnd.ms-fontobject", "eot"),
        ("audio/wav", "wav"),
        ("image/webp", "webp"),
        ("text/csv", "csv"),
        ("application/vnd.ms-excel", "xls"),
        ("application/vnd.openxmlformats-officedocument.spreadsheetml.sheet", "xlsx"),
        ("application/msword", "doc"),
        ("application/vnd.openxmlformats-officedocument.wordprocessingml.document", "docx"),
        ("application/vnd.ms-powerpoint", "ppt"),
        ("application/vnd.openxmlformats-officedocument.presentationml.presentation", "pptx"),
        ("application/vnd.oasis.opendocument.text", "odt"),
        ("application/vnd.oasis.opendocument.spreadsheet", "ods"),
        ("application/vnd.oasis.opendocument.presentation", "odp"),
    ];
    for (mime, extension) in table {
        assert_eq!(type_to_extension(mime), extension, "{}", mime);
    }
}

#[test]
fn unlisted_types_are_text() {
    assert_eq!(type_to_extension("application/x-unknown"), "txt");
    assert_eq!(type_to_extension(""), "txt");
    assert_eq!(type_to_extension("TEXT/HTML"), "txt");
    assert_eq!(type_to_extension("text/html "), "txt");
    assert_eq!(type_to_extension("image/pn"), "txt");
    assert_eq!(type_to_extension("image/pngg"), "txt");
}

#[test]
fn parameters_defeat_the_lookup() {
    assert_eq!(type_to_extension("text/html; charset=utf-8"), "txt");
    assert_eq!(type_to_extension("application/json; charset=utf-8"), "txt");
}

#[test]
fn json_response_without_output_goes_to_output_json() {
    assert_eq!(resolve_output_path(None, Some("application/json")), "output.json");
}

#[test]
fn explicit_output_is_used_verbatim() {
    assert_eq!(
        resolve_output_path(Some("result.dat".to_string()), Some("application/json")),
        "result.dat"
    );
    assert_eq!(resolve_output_path(Some("result.dat".to_string()), None), "result.dat");
    assert_eq!(
        resolve_output_path(Some("dir/no_extension".to_string()), Some("image/png")),
        "dir/no_extension"
    );
    assert_eq!(resolve_output_path(Some(String::new()), Some("image/png")), "");
}

#[test]
fn parameterised_html_goes_to_output_txt() {
    assert_eq!(resolve_output_path(None, Some("text/html; charset=utf-8")), "output.txt");
}

#[test]
fn missing_content_type_goes_to_output_txt() {
    assert_eq!(resolve_output_path(None, None), "output.txt");
}

#[test]
fn listed_types_name_the_output_file() {
    assert_eq!(resolve_output_path(None, Some("text/html")), "output.html");
    assert_eq!(resolve_output_path(None, Some("application/gzip")), "output.gz");
    assert_eq!(resolve_output_path(None, Some("font/woff2")), "output.woff2");
    assert_eq!(resolve_output_path(None, Some("text/plain")), "output.txt");
}
