//! The media type of a file, guessed from the extension of its name.

use vstd::prelude::*;
use vstd::string::*;

verus! {

/// A media type: its top-level type, its subtype, and the whole as it is
/// written in a `Content-Type` header.
#[derive(Debug, Clone, PartialEq, Eq)]
pub struct MediaType {
    pub kind: String,
    pub subtype: String,
    pub text: String,
}

/// A media type in contracts.
pub struct MediaView {
    pub kind: Seq<char>,
    pub subtype: Seq<char>,
    pub text: Seq<char>,
}

impl View for MediaType {
    type V = MediaView;

    open spec fn view(&self) -> MediaView {
        MediaView { kind: self.kind@, subtype: self.subtype@, text: self.text@ }
    }
}

/// The media type that the table of known extensions gives for a path:
/// top-level type, subtype and full text. A path without a known extension has
/// the type of arbitrary bytes.
pub uninterp spec fn guessed_media_type(path: Seq<char>) -> (Seq<char>, Seq<char>, Seq<char>);

/// The guess for a path as a media type.
pub open spec fn media_of(path: Seq<char>) -> MediaView {
    let guess = guessed_media_type(path);
    MediaView { kind: guess.0, subtype: guess.1, text: guess.2 }
}

/// Calls `mime_guess::from_path` and takes the first guess, or the type of
/// arbitrary bytes where there is none (`first_or_octet_stream`). The three
/// texts are read off the result with `type_`, `subtype` and `as_ref`. The
/// contract gives the result a name and claims that it depends on the
/// characters of `path` alone: the crate looks the extension up in a fixed
/// table and touches no file.
#[verifier::external_body]
pub(crate) fn guess_media_type(path: &str) -> (media: MediaType)
    ensures
        (media.kind@, media.subtype@, media.text@) == guessed_media_type(path@),
{
    let mime = mime_guess::from_path(path).first_or_octet_stream();
    MediaType {
        kind: mime.type_().as_str().to_string(),
        subtype: mime.subtype().as_str().to_string(),
        text: mime.as_ref().to_string(),
    }
}

/// The media type is HTML: top-level type `text`, subtype `html`.
pub open spec fn is_html_media(media: MediaView) -> bool {
    media.kind == "text"@ && media.subtype == "html"@
}

/// Whether the media type is HTML.
pub fn is_html(media: &MediaType) -> (html: bool)
    ensures
        html == is_html_media(media@),
{
    let text = String::from_str("text");
    let html = String::from_str("html");
    media.kind == text && media.subtype == html
}

} // verus!
