//! The file browser that steers the server: what a key means, which entry is
//! selected, what the log holds and how an answer of the server is taken.

use std::collections::VecDeque;
use vstd::prelude::*;
use vstd::string::*;
use crate::cli::DEFAULT_PORT;
use crate::control::ResponseView;
use crate::ipc::Response;
use crate::listing::{names_of, names_where, DirEntry};
use crate::order::{in_name_order, sort_names};
use crate::path::{is_component, CanonicalPath};
use crate::text::{chars_of, concat2, contains_text, has_occurrence, texts};

verus! {

/// How many lines the log keeps.
pub const LOG_CAPACITY: usize = 100;

/// The name of the entry that leads to the directory above.
pub const PARENT_NAME: &'static str = "..";

/// A key.
#[derive(Debug, Clone, Copy, PartialEq, Eq, Structural)]
pub enum Key {
    Char(char),
    Up,
    Down,
    Enter,
    Other,
}

/// What a key asks for.
#[derive(Debug, Clone, Copy, PartialEq, Eq, Structural)]
pub enum KeyAction {
    /// Stop the server and leave.
    Quit,
    /// Select the entry above.
    MoveUp,
    /// Select the entry below.
    MoveDown,
    /// Open the selected entry.
    Open,
    /// Start the server.
    StartServer,
    /// Stop the server.
    StopServer,
    /// Have the server serve the directory that is shown.
    PushDirectory,
    /// Have the server serve the selected file.
    PushFile,
    /// Ask the server for its status.
    CheckStatus,
    /// Nothing.
    Nothing,
}

/// How a line of the log is shown.
#[derive(Debug, Clone, Copy, PartialEq, Eq, Structural)]
pub enum Tone {
    /// Something failed.
    Bad,
    /// Something went well.
    Good,
    /// Neither.
    Plain,
}

/// What a key asks for: letters count in both cases.
pub open spec fn action_of(key: Key) -> KeyAction {
    match key {
        Key::Char(c) => if c == 'q' || c == 'Q' {
            KeyAction::Quit
        } else if c == 's' || c == 'S' {
            KeyAction::StartServer
        } else if c == 'x' || c == 'X' {
            KeyAction::StopServer
        } else if c == 'p' || c == 'P' {
            KeyAction::PushDirectory
        } else if c == 'f' || c == 'F' {
            KeyAction::PushFile
        } else if c == 'c' || c == 'C' {
            KeyAction::CheckStatus
        } else {
            KeyAction::Nothing
        },
        Key::Up => KeyAction::MoveUp,
        Key::Down => KeyAction::MoveDown,
        Key::Enter => KeyAction::Open,
        Key::Other => KeyAction::Nothing,
    }
}

/// What a key asks for.
pub fn key_action(key: Key) -> (action: KeyAction)
    ensures
        action == action_of(key),
{
    match key {
        Key::Char(c) => if c == 'q' || c == 'Q' {
            KeyAction::Quit
        } else if c == 's' || c == 'S' {
            KeyAction::StartServer
        } else if c == 'x' || c == 'X' {
            KeyAction::StopServer
        } else if c == 'p' || c == 'P' {
            KeyAction::PushDirectory
        } else if c == 'f' || c == 'F' {
            KeyAction::PushFile
        } else if c == 'c' || c == 'C' {
            KeyAction::CheckStatus
        } else {
            KeyAction::Nothing
        },
        Key::Up => KeyAction::MoveUp,
        Key::Down => KeyAction::MoveDown,
        Key::Enter => KeyAction::Open,
        Key::Other => KeyAction::Nothing,
    }
}

/// How a line of the log is shown: bad where it holds `ERROR` or a cross, else
/// good where it holds a check mark or `started`, else plain.
pub open spec fn tone_of(line: Seq<char>) -> Tone {
    if has_occurrence(line, "ERROR"@) || has_occurrence(line, "\u{2717}"@) {
        Tone::Bad
    } else if has_occurrence(line, "\u{2713}"@) || has_occurrence(line, "started"@) {
        Tone::Good
    } else {
        Tone::Plain
    }
}

/// How a line of the log is shown.
pub fn log_tone(line: &str) -> (tone: Tone)
    ensures
        tone == tone_of(line@),
{
    let chars = chars_of(line);
    if contains_text(&chars, &chars_of("ERROR")) || contains_text(&chars, &chars_of("\u{2717}")) {
        Tone::Bad
    } else if contains_text(&chars, &chars_of("\u{2713}")) || contains_text(
        &chars,
        &chars_of("started"),
    ) {
        Tone::Good
    } else {
        Tone::Plain
    }
}

/// An entry that the browser shows.
#[derive(Debug, Clone, PartialEq, Eq)]
pub struct DirItem {
    pub name: String,
    pub is_dir: bool,
}

/// An entry in contracts.
pub struct DirItemView {
    pub name: Seq<char>,
    pub is_dir: bool,
}

impl View for DirItem {
    type V = DirItemView;

    open spec fn view(&self) -> DirItemView {
        DirItemView { name: self.name@, is_dir: self.is_dir }
    }
}

/// The entries in contracts, one for one.
pub open spec fn item_views(items: Seq<DirItem>) -> Seq<DirItemView> {
    Seq::new(items.len(), |i: int| items[i]@)
}

/// The entries with the names `names`, all directories or all not.
pub open spec fn items_named(names: Seq<Seq<char>>, is_dir: bool) -> Seq<DirItemView> {
    Seq::new(names.len(), |i: int| DirItemView { name: names[i], is_dir })
}

/// What the browser shows of a directory: the way up, then the directories in
/// the order of names, then everything else in the order of names.
pub open spec fn shown_items(entries: Seq<DirEntry>) -> Seq<DirItemView> {
    seq![DirItemView { name: PARENT_NAME@, is_dir: true }] + items_named(
        in_name_order(names_where(entries, true)),
        true,
    ) + items_named(in_name_order(names_where(entries, false)), false)
}

/// Puts the entries named `names` behind `items`.
fn append_named(items: &mut Vec<DirItem>, names: Vec<String>, is_dir: bool)
    ensures
        item_views(final(items)@) == item_views(old(items)@) + items_named(texts(names@), is_dir),
{
    let ghost start = item_views(items@);
    let mut i: usize = 0;
    while i < names.len()
        invariant
            i <= names.len(),
            item_views(items@) == start + items_named(texts(names@).subrange(0, i as int), is_dir),
        decreases names.len() - i,
    {
        let ghost before = item_views(items@);
        items.push(DirItem { name: names[i].clone(), is_dir });
        assert(item_views(items@) =~= before.push(
            DirItemView { name: names@[i as int]@, is_dir },
        ));
        assert(items_named(texts(names@).subrange(0, i + 1), is_dir) =~= items_named(
            texts(names@).subrange(0, i as int),
            is_dir,
        ).push(DirItemView { name: names@[i as int]@, is_dir }));
        i += 1;
    }
}

/// What the browser shows of a directory with the entries `entries`.
pub fn directory_items(entries: &Vec<DirEntry>) -> (items: Vec<DirItem>)
    ensures
        item_views(items@) == shown_items(entries@),
{
    let mut items: Vec<DirItem> = Vec::new();
    items.push(DirItem { name: String::from_str(PARENT_NAME), is_dir: true });
    append_named(&mut items, sort_names(&names_of(entries, true)), true);
    append_named(&mut items, sort_names(&names_of(entries, false)), false);
    items
}

/// Where an entry of the directory `current` leads: the way up leads to the
/// directory above, or stays where there is none; any other entry leads to
/// the path of that name in `current`, where the name is a component.
pub open spec fn target_of(current: Seq<Seq<char>>, name: Seq<char>) -> Option<Seq<Seq<char>>> {
    if name == PARENT_NAME@ {
        if current.len() > 0 {
            Some(current.drop_last())
        } else {
            Some(current)
        }
    } else if is_component(name) {
        Some(current.push(name))
    } else {
        None
    }
}

/// Where the entry `name` of the directory `current` leads.
pub fn item_target(current: &CanonicalPath, name: &str) -> (target: Option<CanonicalPath>)
    ensures
        match target {
            Some(path) => target_of(current@, name@) == Some(path@),
            None => target_of(current@, name@) is None,
        },
{
    if String::from_str(name) == String::from_str(PARENT_NAME) {
        match current.parent() {
            Some(up) => Some(up),
            None => Some(current.duplicate()),
        }
    } else {
        current.child(name)
    }
}

/// The selection after a step up: the entry above, or the same at the top.
pub open spec fn selection_above(selected: usize) -> usize {
    if selected > 0 {
        (selected - 1) as usize
    } else {
        selected
    }
}

/// The selection after a step down among `count` entries: the entry below, or
/// the same at the last entry and beyond.
pub open spec fn selection_below(selected: usize, count: nat) -> usize {
    if selected + 1 < count {
        (selected + 1) as usize
    } else {
        selected
    }
}

/// The log after `line` was written: `line` first, the older lines behind it,
/// and the oldest dropped where the log was full.
pub open spec fn log_after(log: Seq<Seq<char>>, line: Seq<char>) -> Seq<Seq<char>> {
    if log.len() >= LOG_CAPACITY {
        (seq![line] + log).drop_last()
    } else {
        seq![line] + log
    }
}

/// A line of the log: the time in brackets, then the message.
pub open spec fn log_line(time: Seq<char>, message: Seq<char>) -> Seq<char> {
    "["@ + time + "] "@ + message
}

/// The texts of the log, newest first.
pub open spec fn log_texts(log: Seq<String>) -> Seq<Seq<char>> {
    texts(log)
}

/// What the browser knows and shows.
#[derive(Debug, Clone, PartialEq, Eq)]
pub struct Browser {
    /// The entries of the directory that is shown.
    pub items: Vec<DirItem>,
    /// The place of the selected entry.
    pub selected: usize,
    /// The log, newest line first.
    pub logs: VecDeque<String>,
    /// Whether the server is taken to be running.
    pub connected: bool,
    /// The port that the server is taken to listen on.
    pub port: u16,
}

/// Calls chrono's `Local::now` and writes the time of day with `format`, as
/// hours, minutes and seconds. Nothing is claimed of the text: it depends on
/// the clock and the time zone of the machine.
#[verifier::external_body]
fn clock_text() -> String {
    chrono::Local::now().format("%H:%M:%S").to_string()
}

impl Browser {
    /// A browser that shows `items`, with the first of them selected, an empty
    /// log and no server.
    pub fn new(items: Vec<DirItem>) -> (browser: Browser)
        ensures
            browser.items == items,
            browser.selected == 0,
            browser.logs@.len() == 0,
            !browser.connected,
            browser.port == DEFAULT_PORT,
    {
        Browser { items, selected: 0, logs: VecDeque::new(), connected: false, port: DEFAULT_PORT }
    }

    /// Selects the entry above.
    pub fn move_up(&mut self)
        ensures
            final(self).selected == selection_above(old(self).selected),
            final(self).items == old(self).items,
            final(self).logs == old(self).logs,
            final(self).connected == old(self).connected,
            final(self).port == old(self).port,
    {
        if self.selected > 0 {
            self.selected -= 1;
        }
    }

    /// Selects the entry below.
    pub fn move_down(&mut self)
        ensures
            final(self).selected == selection_below(old(self).selected, old(self).items@.len()),
            final(self).items == old(self).items,
            final(self).logs == old(self).logs,
            final(self).connected == old(self).connected,
            final(self).port == old(self).port,
    {
        if self.items.len() > 0 && self.selected < self.items.len() - 1 {
            self.selected += 1;
        }
    }

    /// Shows another directory: its entries, with the first of them selected.
    pub fn show_directory(&mut self, items: Vec<DirItem>)
        ensures
            final(self).items == items,
            final(self).selected == 0,
            final(self).logs == old(self).logs,
            final(self).connected == old(self).connected,
            final(self).port == old(self).port,
    {
        self.items = items;
        self.selected = 0;
    }

    /// The selected entry, where the selection points at one.
    pub fn selected_item(&self) -> (item: Option<DirItem>)
        ensures
            item is Some <==> self.selected < self.items@.len(),
            item is Some ==> item->0@ == self.items@[self.selected as int]@,
    {
        if self.selected < self.items.len() {
            let found = &self.items[self.selected];
            Some(DirItem { name: found.name.clone(), is_dir: found.is_dir })
        } else {
            None
        }
    }

    /// Writes a line into the log with the time `time`.
    pub fn add_log_at(&mut self, time: &str, message: &str)
        ensures
            log_texts(final(self).logs@) == log_after(
                log_texts(old(self).logs@),
                log_line(time@, message@),
            ),
            final(self).items == old(self).items,
            final(self).selected == old(self).selected,
            final(self).connected == old(self).connected,
            final(self).port == old(self).port,
    {
        let mut line = String::from_str("[");
        line.append(time);
        line.append("] ");
        line.append(message);
        self.logs.push_front(line);
        if self.logs.len() > LOG_CAPACITY {
            self.logs.pop_back();
        }
    }

    /// Writes a line into the log with the time of the clock. Whatever the
    /// clock says, the message ends the newest line, and the log has grown by
    /// that line or, where it was full, has dropped its oldest for it.
    pub fn add_log(&mut self, message: &str)
        ensures
            exists|time: Seq<char>|
                log_texts(final(self).logs@) == log_after(
                    log_texts(old(self).logs@),
                    #[trigger] log_line(time, message@),
                ),
            final(self).items == old(self).items,
            final(self).selected == old(self).selected,
            final(self).connected == old(self).connected,
            final(self).port == old(self).port,
    {
        let time = clock_text();
        self.add_log_at(time.as_str(), message);
    }
}

/// The line that reports an answer of the server: a check mark and the message
/// of one that succeeded, a cross and the message otherwise.
pub open spec fn answer_line(response: ResponseView) -> Seq<char> {
    if response.success {
        "\u{2713} "@ + response.message
    } else {
        "\u{2717} "@ + response.message
    }
}

/// The line that reports an answer of the server.
pub fn answer_text(response: &Response) -> (line: String)
    ensures
        line@ == answer_line(response@),
{
    if response.success {
        concat2("\u{2713} ", response.message.as_str())
    } else {
        concat2("\u{2717} ", response.message.as_str())
    }
}

/// The line that reports the directory that the server serves, where its
/// status says so.
pub open spec fn serving_line(response: ResponseView) -> Option<Seq<char>> {
    if response.success && response.current_path is Some {
        Some("Server serving: "@ + response.current_path->0)
    } else {
        None
    }
}

/// The line that reports the directory that the server serves.
pub fn serving_text(response: &Response) -> (line: Option<String>)
    ensures
        match line {
            Some(text) => serving_line(response@) == Some(text@),
            None => serving_line(response@) is None,
        },
{
    if response.success {
        match &response.current_path {
            Some(path) => Some(concat2("Server serving: ", path.as_str())),
            None => None,
        }
    } else {
        None
    }
}

/// Whether the server is taken to be running after it answered: an answer
/// that reports success says that it is, any other leaves what was known.
pub open spec fn connected_after(connected: bool, response: ResponseView) -> bool {
    connected || response.success
}

/// The port that the server is taken to listen on after its status: the port
/// of a status that reports success and names one, else the port known before.
pub open spec fn port_after(port: u16, response: ResponseView) -> u16 {
    if response.success && response.port is Some {
        response.port->0
    } else {
        port
    }
}

impl Browser {
    /// Takes the answer to a pushed directory or file: the server counts as
    /// running once it reports success.
    pub fn note_answer(&mut self, response: &Response)
        ensures
            final(self).connected == connected_after(old(self).connected, response@),
            final(self).items == old(self).items,
            final(self).selected == old(self).selected,
            final(self).logs == old(self).logs,
            final(self).port == old(self).port,
    {
        if response.success {
            self.connected = true;
        }
    }

    /// Takes the answer to a status request: the server counts as running once
    /// it reports success, and its port is taken from the answer.
    pub fn note_status(&mut self, response: &Response)
        ensures
            final(self).connected == connected_after(old(self).connected, response@),
            final(self).port == port_after(old(self).port, response@),
            final(self).items == old(self).items,
            final(self).selected == old(self).selected,
            final(self).logs == old(self).logs,
    {
        if response.success {
            self.connected = true;
            match response.port {
                Some(port) => {
                    self.port = port;
                },
                None => {},
            }
        }
    }
}

/// What a key that pushes comes to.
#[derive(Debug, Clone, PartialEq, Eq)]
pub enum PushPlan {
    /// The key asks for no push.
    Nothing,
    /// Nothing is sent; `lines` go into the log, in their order.
    Refuse { lines: Vec<String> },
    /// `line` goes into the log, then the directory that is shown is sent.
    SendDirectory { line: String },
    /// `line` goes into the log, then the file `name` of the directory that is
    /// shown is sent.
    SendFile { line: String, name: String },
}

/// A plan in contracts.
pub enum PushPlanView {
    Nothing,
    Refuse { lines: Seq<Seq<char>> },
    SendDirectory { line: Seq<char> },
    SendFile { line: Seq<char>, name: Seq<char> },
}

impl View for PushPlan {
    type V = PushPlanView;

    open spec fn view(&self) -> PushPlanView {
        match self {
            PushPlan::Nothing => PushPlanView::Nothing,
            PushPlan::Refuse { lines } => PushPlanView::Refuse { lines: texts(lines@) },
            PushPlan::SendDirectory { line } => PushPlanView::SendDirectory { line: line@ },
            PushPlan::SendFile { line, name } => PushPlanView::SendFile { line: line@, name: name@ },
        }
    }
}

/// The entry at the place `selected`, where there is one.
pub open spec fn selected_of(items: Seq<DirItem>, selected: usize) -> Option<DirItemView> {
    if selected < items.len() {
        Some(items[selected as int]@)
    } else {
        None
    }
}

/// What a key comes to as a push. Nothing is sent while no server is taken to
/// be running; a directory is sent as soon as one is; a file is sent where the
/// selection points at an entry that is no directory.
pub open spec fn push_plan_of(
    connected: bool,
    selected: Option<DirItemView>,
    action: KeyAction,
) -> PushPlanView {
    if action == KeyAction::PushDirectory {
        if !connected {
            PushPlanView::Refuse {
                lines: seq!["\u{2717} Server not running! Press 'S' to start"@],
            }
        } else {
            PushPlanView::SendDirectory { line: "Pushing directory to server..."@ }
        }
    } else if action == KeyAction::PushFile {
        if !connected {
            PushPlanView::Refuse {
                lines: seq!["\u{2717} Server not running! Press 'S' to start"@],
            }
        } else {
            match selected {
                None => PushPlanView::Refuse { lines: seq!["Pushing file to server..."@] },
                Some(item) => if item.is_dir {
                    PushPlanView::Refuse {
                        lines: seq![
                            "Pushing file to server..."@,
                            "\u{2717} Please select a file, not a directory"@,
                        ],
                    }
                } else {
                    PushPlanView::SendFile { line: "Pushing file to server..."@, name: item.name }
                },
            }
        }
    } else {
        PushPlanView::Nothing
    }
}

/// The lines that report the answer to a pushed file: the answer with its
/// mark, and where it succeeded, where the file is to be found.
pub open spec fn file_answer_lines(response: ResponseView) -> Seq<Seq<char>> {
    if response.success {
        seq![answer_line(response), "Access at: http://localhost:3000/"@]
    } else {
        seq![answer_line(response)]
    }
}

/// The lines that report the answer to a pushed file.
pub fn file_answer_texts(response: &Response) -> (lines: Vec<String>)
    ensures
        texts(lines@) == file_answer_lines(response@),
{
    let mut lines: Vec<String> = Vec::new();
    lines.push(answer_text(response));
    if response.success {
        lines.push(String::from_str("Access at: http://localhost:3000/"));
    }
    assert(texts(lines@) =~= file_answer_lines(response@));
    lines
}

impl Browser {
    /// What the key action comes to as a push.
    pub fn push_plan(&self, action: KeyAction) -> (plan: PushPlan)
        ensures
            plan@ == push_plan_of(
                self.connected,
                selected_of(self.items@, self.selected),
                action,
            ),
    {
        if action == KeyAction::PushDirectory {
            if !self.connected {
                let mut lines: Vec<String> = Vec::new();
                lines.push(String::from_str("\u{2717} Server not running! Press 'S' to start"));
                assert(texts(lines@) =~= seq![
                    "\u{2717} Server not running! Press 'S' to start"@,
                ]);
                PushPlan::Refuse { lines }
            } else {
                PushPlan::SendDirectory { line: String::from_str("Pushing directory to server...") }
            }
        } else if action == KeyAction::PushFile {
            let mut lines: Vec<String> = Vec::new();
            if !self.connected {
                lines.push(String::from_str("\u{2717} Server not running! Press 'S' to start"));
                assert(texts(lines@) =~= seq![
                    "\u{2717} Server not running! Press 'S' to start"@,
                ]);
                return PushPlan::Refuse { lines };
            }
            let line = String::from_str("Pushing file to server...");
            match self.selected_item() {
                None => {
                    lines.push(line);
                    assert(texts(lines@) =~= seq!["Pushing file to server..."@]);
                    PushPlan::Refuse { lines }
                },
                Some(item) => {
                    if item.is_dir {
                        lines.push(line);
                        lines.push(String::from_str("\u{2717} Please select a file, not a directory"));
                        assert(texts(lines@) =~= seq![
                            "Pushing file to server..."@,
                            "\u{2717} Please select a file, not a directory"@,
                        ]);
                        PushPlan::Refuse { lines }
                    } else {
                        PushPlan::SendFile { line, name: item.name }
                    }
                },
            }
        } else {
            PushPlan::Nothing
        }
    }
}

} // verus!
