//! What is sent for a file or a page: the status, the content type and the body.

use vstd::prelude::*;
use vstd::string::*;
use vstd::utf8::{decode_utf8, valid_utf8};
use crate::media::{guess_media_type, is_html, is_html_media, media_of, MediaType, MediaView};
use crate::reload::{
    closing_body_tag, inject_reload_script, injection_point, last_closing_body_tag,
    law_one_script_after_injection, reload_script, script_element, with_reload_script,
};
use crate::state::ServeError;
use crate::text::{has_occurrence, occurs_at, occurs_in_any_case};

verus! {

/// The content type of every HTML page that is sent.
pub const HTML_CONTENT_TYPE: &'static str = "text/html; charset=utf-8";

/// The status of a reply that carries content.
pub const STATUS_OK: u16 = 200;

/// The body of a reply.
#[derive(Debug, Clone, PartialEq, Eq)]
pub enum Body {
    /// A page, as text.
    Text(String),
    /// A file's bytes as they are.
    Bytes(Vec<u8>),
}

/// A reply that carries content: its HTTP status, its content type and its body.
#[derive(Debug, Clone, PartialEq, Eq)]
pub struct Reply {
    pub status: u16,
    pub content_type: String,
    pub body: Body,
}

/// A body in contracts.
pub enum BodyView {
    Text(Seq<char>),
    Bytes(Seq<u8>),
}

/// A reply in contracts.
pub struct ReplyView {
    pub status: u16,
    pub content_type: Seq<char>,
    pub body: BodyView,
}

impl View for Body {
    type V = BodyView;

    open spec fn view(&self) -> BodyView {
        match self {
            Body::Text(page) => BodyView::Text(page@),
            Body::Bytes(bytes) => BodyView::Bytes(bytes@),
        }
    }
}

impl View for Reply {
    type V = ReplyView;

    open spec fn view(&self) -> ReplyView {
        ReplyView { status: self.status, content_type: self.content_type@, body: self.body@ }
    }
}

/// The HTTP status that stands for an error: 404 for a missing path, 403 for
/// one that leaves the root, 500 for everything else.
pub open spec fn status_of(error: ServeError) -> u16 {
    match error {
        ServeError::NotFound => 404,
        ServeError::Forbidden => 403,
        _ => 500,
    }
}

/// The HTTP status that stands for an error.
pub fn http_status(error: ServeError) -> (status: u16)
    ensures
        status == status_of(error),
{
    match error {
        ServeError::NotFound => 404,
        ServeError::Forbidden => 403,
        _ => 500,
    }
}

/// The reply that sends `page` as HTML.
pub open spec fn page_reply_of(page: Seq<char>) -> ReplyView {
    ReplyView { status: STATUS_OK, content_type: HTML_CONTENT_TYPE@, body: BodyView::Text(page) }
}

/// The reply that sends an HTML document: the document with the reload script.
pub open spec fn html_reply_of(document: Seq<char>) -> ReplyView {
    page_reply_of(with_reload_script(document))
}

/// The reply that sends a file's bytes as they are, under its media type.
pub open spec fn raw_reply_of(media: MediaView, contents: Seq<u8>) -> ReplyView {
    ReplyView { status: STATUS_OK, content_type: media.text, body: BodyView::Bytes(contents) }
}

/// The reply that sends a file of the media type `media`, whose bytes are
/// `contents` and read as text are `document`.
pub open spec fn file_reply_of(
    media: MediaView,
    contents: Seq<u8>,
    document: Seq<char>,
) -> ReplyView {
    if is_html_media(media) {
        html_reply_of(document)
    } else {
        raw_reply_of(media, contents)
    }
}

/// The text that bytes stand for, with the replacement character in the place
/// of every part that is not UTF-8.
pub uninterp spec fn utf8_lossy(bytes: Seq<u8>) -> Seq<char>;

/// The text that a file's bytes are read as: the text that they encode where
/// they are UTF-8, and else that text with the replacement character in the
/// place of every part that is not.
pub open spec fn read_as_text(bytes: Seq<u8>) -> Seq<char> {
    if valid_utf8(bytes) {
        decode_utf8(bytes)
    } else {
        utf8_lossy(bytes)
    }
}

/// Calls std's `String::from_utf8_lossy`. The contract gives the result a
/// name, and claims of bytes that are UTF-8 that the result is the text they
/// encode, with nothing replaced.
#[verifier::external_body]
pub(crate) fn lossy_text(bytes: &Vec<u8>) -> (text: String)
    ensures
        text@ == utf8_lossy(bytes@),
        valid_utf8(bytes@) ==> text@ == decode_utf8(bytes@),
{
    String::from_utf8_lossy(bytes).into_owned()
}

/// The reply that sends `page` as HTML.
pub fn page_reply(page: String) -> (reply: Reply)
    ensures
        reply@ == page_reply_of(page@),
{
    Reply {
        status: STATUS_OK,
        content_type: String::from_str(HTML_CONTENT_TYPE),
        body: Body::Text(page),
    }
}

/// The reply that sends an HTML document: the document with the reload script
/// in it, as HTML.
pub fn html_reply(document: &str) -> (reply: Reply)
    ensures
        reply@ == html_reply_of(document@),
{
    page_reply(inject_reload_script(document))
}

/// The reply that sends a file's bytes as they are, under its media type.
pub fn raw_reply(media: &MediaType, contents: Vec<u8>) -> (reply: Reply)
    ensures
        reply@ == raw_reply_of(media@, contents@),
{
    Reply { status: STATUS_OK, content_type: media.text.clone(), body: Body::Bytes(contents) }
}

/// The reply that sends the bytes `contents` read as an HTML document: bytes
/// that are UTF-8 as the text they encode.
pub fn html_bytes_reply(contents: &Vec<u8>) -> (reply: Reply)
    ensures
        reply@ == html_reply_of(read_as_text(contents@)),
{
    let document = lossy_text(contents);
    html_reply(document.as_str())
}

/// The reply that sends the file at `path` with the bytes `contents`: an HTML
/// file as a page with the reload script, any other file as it is, under the
/// media type that the extension of `path` stands for. An HTML file whose
/// bytes are UTF-8 is sent as the text they encode.
pub fn file_reply(path: &str, contents: Vec<u8>) -> (reply: Reply)
    ensures
        reply@ == file_reply_of(media_of(path@), contents@, read_as_text(contents@)),
{
    let media = guess_media_type(path);
    if is_html(&media) {
        html_bytes_reply(&contents)
    } else {
        raw_reply(&media, contents)
    }
}

/// An HTML document that does not hold the script element yet is sent with
/// exactly one: it stands behind the line break that opens the reload script,
/// and the reload script stands directly in front of the last closing body
/// tag where the document has one.
pub proof fn law_served_html_holds_one_script(document: Seq<char>)
    requires
        !has_occurrence(document, script_element()),
    ensures
        html_reply_of(document).body == BodyView::Text(with_reload_script(document)),
        occurs_at(with_reload_script(document), reload_script(), injection_point(document)),
        forall|q: int|
            occurs_at(with_reload_script(document), script_element(), q) <==> q == injection_point(
                document,
            ) + 1,
        last_closing_body_tag(document) is Some ==> occurs_in_any_case(
            with_reload_script(document),
            closing_body_tag(),
            injection_point(document) + reload_script().len(),
        ),
{
    law_one_script_after_injection(document);
}

} // verus!
