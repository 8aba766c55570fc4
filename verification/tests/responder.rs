use websii::media::{is_html, MediaType};
use websii::reload::RELOAD_SCRIPT;
use websii::respond::{
    file_reply, html_bytes_reply, html_reply, http_status, page_reply, raw_reply, Body, Reply,
    HTML_CONTENT_TYPE, STATUS_OK,
};
use websii::state::ServeError;

fn media(kind: &str, subtype: &str, text: &str) -> MediaType {
    MediaType { kind: kind.to_string(), subtype: subtype.to_string(), text: text.to_string() }
}

fn page(text: String) -> Reply {
    Reply { status: 200, content_type: "text/html; charset=utf-8".to_string(), body: Body::Text(text) }
}

fn raw(content_type: &str, bytes: &[u8]) -> Reply {
    Reply { status: 200, content_type: content_type.to_string(), body: Body::Bytes(bytes.to_vec()) }
}

#[test]
fn errors_map_to_their_status() {
    assert_eq!(http_status(ServeError::NotFound), 404);
    assert_eq!(http_status(ServeError::Forbidden), 403);
    assert_eq!(http_status(ServeError::InternalIO), 500);
    assert_eq!(http_status(ServeError::NotADirectory), 500);
    assert_eq!(http_status(ServeError::NotAFile), 500);
    assert_eq!(http_status(ServeError::NoParentDirectory), 500);
    assert_eq!(http_status(ServeError::WatchBindFailure), 500);
    assert_eq!(STATUS_OK, 200);
}

#[test]
fn only_text_html_is_html() {
    assert!(is_html(&media("text", "html", "text/html")));
    assert!(!is_html(&media("text", "plain", "text/plain")));
    assert!(!is_html(&media("application", "html", "application/html")));
    assert!(!is_html(&media("application", "xhtml", "application/xhtml+xml")));
    assert!(!is_html(&media("TEXT", "HTML", "TEXT/HTML")));
}

#[test]
fn a_page_is_sent_as_html_in_utf8() {
    assert_eq!(HTML_CONTENT_TYPE, "text/html; charset=utf-8");
    assert_eq!(page_reply("<p>x</p>".to_string()), page("<p>x</p>".to_string()));
}

#[test]
fn an_html_document_is_sent_with_the_script() {
    assert_eq!(
        html_reply("<body>x</body>"),
        page(format!("<body>x{}</body>", RELOAD_SCRIPT))
    );
    assert_eq!(html_reply("x"), page(format!("x{}", RELOAD_SCRIPT)));
}

#[test]
fn other_files_are_sent_as_they_are() {
    let m = media("image", "png", "image/png");
    assert_eq!(raw_reply(&m, vec![0, 159, 255]), raw("image/png", &[0, 159, 255]));
    assert_eq!(raw_reply(&m, Vec::new()), raw("image/png", &[]));
}

#[test]
fn html_bytes_are_read_as_text() {
    assert_eq!(
        html_bytes_reply(&"<body>\u{e9}</body>".as_bytes().to_vec()),
        page(format!("<body>\u{e9}{}</body>", RELOAD_SCRIPT))
    );
}

#[test]
fn bytes_that_are_not_utf8_are_replaced_in_html() {
    let bytes = vec![b'a', 0xff, b'b', 0xc3, b'<', b'/', b'b', b'o', b'd', b'y', b'>'];
    assert_eq!(
        html_bytes_reply(&bytes),
        page(format!("a\u{fffd}b\u{fffd}{}</body>", RELOAD_SCRIPT))
    );
}

#[test]
fn an_html_file_is_served_with_the_script_injected() {
    let reply = file_reply("/tmp/site/index.html", b"<html><body>hi</body></html>".to_vec());
    assert_eq!(reply, page(format!("<html><body>hi{}</body></html>", RELOAD_SCRIPT)));
    let reply = file_reply("/tmp/site/page.HTM", b"x".to_vec());
    assert_eq!(reply, page(format!("x{}", RELOAD_SCRIPT)));
}

#[test]
fn a_text_file_is_served_raw_with_the_type_of_its_extension() {
    assert_eq!(file_reply("/tmp/site/readme.txt", b"hello".to_vec()), raw("text/plain", b"hello"));
    assert_eq!(file_reply("/tmp/site/style.css", b"a{}".to_vec()), raw("text/css", b"a{}"));
    assert_eq!(file_reply("/x/data.json", b"{}".to_vec()), raw("application/json", b"{}"));
    assert_eq!(file_reply("/x/logo.png", vec![137, 80]), raw("image/png", &[137, 80]));
}

#[test]
fn a_file_without_known_extension_is_served_as_arbitrary_bytes() {
    assert_eq!(file_reply("/x/Makefile", b"all:".to_vec()), raw("application/octet-stream", b"all:"));
    assert_eq!(
        file_reply("/x/file.zzzunknown", b"</body>".to_vec()),
        raw("application/octet-stream", b"</body>")
    );
    assert_eq!(file_reply("/x/html", b"<b>".to_vec()), raw("application/octet-stream", b"<b>"));
}

#[test]
fn a_raw_file_is_not_touched_even_where_it_holds_the_tag() {
    let reply = file_reply("/x/notes.txt", b"<body></body>".to_vec());
    assert_eq!(reply, raw("text/plain", b"<body></body>"));
}
