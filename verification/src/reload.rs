//! The script that makes a served page reload itself, and where it goes in a page.

use vstd::prelude::*;
use vstd::string::*;
use crate::text::{
    ascii_lowered, chars_of, find_last, has_occurrence, last_occurrence,
    lemma_last_occurrence_is_last, lower_chars, occurs_at, occurs_in_any_case,
};

verus! {

/// The script element that is put into every HTML page that is served: it listens
/// on the reload stream and reloads the page when a signal arrives, or five
/// seconds after the stream fails.
pub const RELOAD_SCRIPT: &'static str = "\n\
<script>\n\
(function() {\n\
\x20   const evtSource = new EventSource('/__reload__');\n\
\x20   evtSource.onmessage = function(event) {\n\
\x20       if (event.data === 'reload') {\n\
\x20           console.log('File change detected, reloading...');\n\
\x20           window.location.reload();\n\
\x20       }\n\
\x20   };\n\
\x20   evtSource.onerror = function(err) {\n\
\x20       console.error('EventSource error:', err);\n\
\x20       evtSource.close();\n\
\x20       setTimeout(() => window.location.reload(), 5000);\n\
\x20   };\n\
})();\n\
</script>\n\
";

/// The tag in front of which the script is put, in small letters. In a page
/// its letters may be written in either case.
pub const CLOSING_BODY_TAG: &'static str = "</body>";

/// The text of the reload script.
pub open spec fn reload_script() -> Seq<char> {
    RELOAD_SCRIPT@
}

/// The text of the closing body tag.
pub open spec fn closing_body_tag() -> Seq<char> {
    CLOSING_BODY_TAG@
}

/// Where the last closing body tag stands in `html`, in whatever case its
/// letters are written, if the page has one.
pub open spec fn last_closing_body_tag(html: Seq<char>) -> Option<int> {
    last_occurrence(ascii_lowered(html), closing_body_tag())
}

/// Where the script goes in `html`: at the last closing body tag, or at the end
/// where the page has none.
pub open spec fn injection_point(html: Seq<char>) -> int {
    match last_closing_body_tag(html) {
        Some(k) => k,
        None => html.len() as int,
    }
}

/// `html` with `script` put in at `k`.
pub open spec fn inserted_at(html: Seq<char>, script: Seq<char>, k: int) -> Seq<char> {
    html.subrange(0, k) + script + html.subrange(k, html.len() as int)
}

/// `html` with the reload script at its injection point.
pub open spec fn with_reload_script(html: Seq<char>) -> Seq<char> {
    inserted_at(html, reload_script(), injection_point(html))
}

/// The injection point lies inside the page.
pub proof fn lemma_injection_point_in_range(html: Seq<char>)
    ensures
        0 <= injection_point(html) <= html.len(),
{
    lemma_last_occurrence_is_last(ascii_lowered(html), closing_body_tag());
}

/// The reload script.
pub fn get_reload_script() -> (script: String)
    ensures
        script@ == reload_script(),
{
    String::from_str(RELOAD_SCRIPT)
}

/// `html` with the reload script in front of its last closing body tag, in
/// whatever case the letters of the tag are written, or at its end where it
/// has no such tag.
pub fn inject_reload_script(html: &str) -> (page: String)
    ensures
        page@ == with_reload_script(html@),
{
    let chars = chars_of(html);
    let tag = chars_of(CLOSING_BODY_TAG);
    let script = get_reload_script();
    let at: usize = match find_last(&lower_chars(&chars), &tag) {
        Some(k) => k,
        None => chars.len(),
    };
    let mut page = String::from_str(html.substring_char(0, at));
    page.append(script.as_str());
    page.append(html.substring_char(at, chars.len()));
    page
}

/// The script element alone: the reload script without the line break in
/// front of it and the one behind it.
pub open spec fn script_element() -> Seq<char> {
    reload_script().subrange(1, reload_script().len() - 1)
}

/// What the text of the reload script is made of, as far as the proofs below
/// need it: its length, its ends, and where its two tags begin.
proof fn lemma_script_shape()
    ensures
        reload_script().len() == 477,
        reload_script()[0] == '\n',
        reload_script()[1] == '<',
        reload_script()[2] == 's',
        reload_script()[467] == '<',
        reload_script()[468] == '/',
        reload_script()[475] == '>',
        reload_script()[476] == '\n',
        forall|i: int| 0 <= i < 477 && reload_script()[i] == '<' ==> i == 1 || i == 467,
{
    reveal_strlit(
"\n\
<script>\n\
(function() {\n\
\x20   const evtSource = new EventSource('/__reload__');\n\
\x20   evtSource.onmessage = function(event) {\n\
\x20       if (event.data === 'reload') {\n\
\x20           console.log('File change detected, reloading...');\n\
\x20           window.location.reload();\n\
\x20       }\n\
\x20   };\n\
\x20   evtSource.onerror = function(err) {\n\
\x20       console.error('EventSource error:', err);\n\
\x20       evtSource.close();\n\
\x20       setTimeout(() => window.location.reload(), 5000);\n\
\x20   };\n\
})();\n\
</script>\n\
",
    );
}

/// A page that does not hold the script element yet holds it exactly once
/// after the injection: as part of the whole script, which stands at the
/// injection point, directly in front of the last closing body tag where the
/// page has one.
pub proof fn law_one_script_after_injection(html: Seq<char>)
    requires
        !has_occurrence(html, script_element()),
    ensures
        occurs_at(with_reload_script(html), reload_script(), injection_point(html)),
        forall|q: int|
            occurs_at(with_reload_script(html), script_element(), q) <==> q == injection_point(html)
                + 1,
        last_closing_body_tag(html) is Some ==> occurs_in_any_case(
            with_reload_script(html),
            closing_body_tag(),
            injection_point(html) + reload_script().len(),
        ),
{
    lemma_script_shape();
    lemma_injection_point_in_range(html);
    lemma_last_occurrence_is_last(ascii_lowered(html), closing_body_tag());
    let s = reload_script();
    let c = script_element();
    let k = injection_point(html);
    let page = with_reload_script(html);
    assert(page.subrange(k, k + 477) =~= s);
    assert(page.subrange(k + 1, k + 1 + 475) =~= c);
    assert forall|q: int| occurs_at(page, c, q) implies q == k + 1 by {
        let w = page.subrange(q, q + 475);
        if q + 475 <= k {
            assert(html.subrange(q, q + 475) =~= w);
            assert(occurs_at(html, c, q));
        } else if q >= k + 477 {
            assert(html.subrange(q - 477, q - 477 + 475) =~= w);
            assert(occurs_at(html, c, q - 477));
        } else if q >= k {
            assert(w[0] == c[0]);
            if q - k == 467 {
                assert(w[1] == c[1]);
            }
        } else {
            let j = k - q;
            assert(w[j] == c[j]);
            if j < 474 {
                assert(w[j + 1] == c[j + 1]);
                assert(w[j + 2] == c[j + 2]);
            }
        }
    }
    match last_closing_body_tag(html) {
        Some(at) => {
            let m = closing_body_tag().len() as int;
            assert(ascii_lowered(page).subrange(k + 477, k + 477 + m) =~= ascii_lowered(
                html,
            ).subrange(k, k + m));
        },
        None => {},
    }
}

/// What came of waiting for the next reload signal.
#[derive(Debug, Clone, Copy, PartialEq, Eq, Structural)]
pub enum Received {
    /// A signal.
    Signal,
    /// Signals were missed: the subscriber fell behind.
    Lagged,
    /// No sender is left.
    Closed,
}

/// The data of the event that tells a page to reload.
pub const RELOAD_EVENT: &'static str = "reload";

/// The comment that keeps an idle stream open.
pub const KEEP_ALIVE_TEXT: &'static str = "keep-alive";

/// Seconds between two keep-alive comments.
pub const KEEP_ALIVE_SECS: u64 = 15;

/// How many signals the channel holds for a subscriber that is behind.
pub const CHANNEL_CAPACITY: usize = 100;

/// The path of the control endpoint.
pub const CONTROL_PATH: &'static str = "/control";

/// The path of the reload stream.
pub const RELOAD_PATH: &'static str = "/__reload__";

/// What a reload stream sends after waiting for a signal, or nothing where it
/// ends. A signal gives the reload event. So does falling behind: the signals
/// that were missed are lost, but they stand for changes, so one reload is sent
/// in their place and the stream goes on. Only a closed channel ends it.
pub open spec fn stream_event(received: Received) -> Option<Seq<char>> {
    if received == Received::Closed {
        None
    } else {
        Some(RELOAD_EVENT@)
    }
}

/// What a reload stream sends next before it waits again, or nothing where it
/// ends.
pub fn next_stream_event(received: Received) -> (event: Option<&'static str>)
    ensures
        match event {
            Some(data) => stream_event(received) == Some(data@),
            None => stream_event(received) is None,
        },
{
    if received == Received::Closed {
        None
    } else {
        Some(RELOAD_EVENT)
    }
}

/// A subscriber that fell behind keeps its stream: the stream ends for a closed
/// channel and for nothing else.
pub proof fn law_only_a_closed_channel_ends_the_stream(received: Received)
    ensures
        stream_event(received) is None <==> received == Received::Closed,
        received == Received::Lagged ==> stream_event(received) == Some(RELOAD_EVENT@),
{
}

} // verus!
