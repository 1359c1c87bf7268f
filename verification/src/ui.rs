//! The state of the terminal front end and how key presses change it.
//!
//! The front end itself draws and reads the terminal; what it draws is the
//! [`Screen`] kept here, and every key press goes through
//! [`Screen::press`], which says how the screen changes and whether a
//! message is to be sent.

use crate::text::{is_blank, pop_char, push_char, trim, trimmed};
use vstd::prelude::*;
use vstd::string::StringExecFns;

verus! {

/// The part of the screen that receives key presses.
#[derive(Debug, Clone, Copy, PartialEq, Eq, Structural)]
pub enum Focus {
    /// The list of messages.
    Messages,
    /// The input line.
    Input,
    /// The list of contacts.
    SidebarArea,
}

impl Focus {
    /// The focus after this one: input, messages, sidebar, and round again.
    pub open spec fn next(self) -> Focus {
        match self {
            Focus::Input => Focus::Messages,
            Focus::Messages => Focus::SidebarArea,
            Focus::SidebarArea => Focus::Input,
        }
    }

    /// Moves the focus on by one.
    pub fn next_focus(self) -> (following: Focus)
        ensures
            following == self.next(),
    {
        match self {
            Focus::Input => Focus::Messages,
            Focus::Messages => Focus::SidebarArea,
            Focus::SidebarArea => Focus::Input,
        }
    }

    /// The hint shown in the status bar while this part has the focus.
    pub open spec fn status_text(self) -> Seq<char> {
        match self {
            Focus::Messages => " 模式: 浏览消息 (↑/↓选择)"@,
            Focus::Input => " 模式: 输入文本 (Enter发送，Tab切换焦点，Esc退出应用)"@,
            Focus::SidebarArea => " 模式:选择聊天对象↑/↓选择"@,
        }
    }

    /// The hint to show in the status bar.
    pub fn status_line(self) -> (hint: &'static str)
        ensures
            hint@ == self.status_text(),
    {
        match self {
            Focus::Messages => " 模式: 浏览消息 (↑/↓选择)",
            Focus::Input => " 模式: 输入文本 (Enter发送，Tab切换焦点，Esc退出应用)",
            Focus::SidebarArea => " 模式:选择聊天对象↑/↓选择",
        }
    }
}

/// The focus comes back to where it started after three steps, and not
/// before.
pub proof fn lemma_focus_cycle(focus: Focus)
    ensures
        focus.next() != focus,
        focus.next().next() != focus,
        focus.next().next().next() == focus,
{
}

/// A key press, reduced to what the front end distinguishes.
#[derive(Debug, Clone, Copy, PartialEq, Eq, Structural)]
pub enum Key {
    /// Arrow up.
    Up,
    /// Arrow down.
    Down,
    /// The enter key.
    Enter,
    /// A character key.
    Char(char),
    /// The backspace key.
    Backspace,
    /// The tab key.
    Tab,
    /// The escape key.
    Esc,
    /// Any other key.
    Other,
}

/// What a [`Screen`] is, mathematically.
pub struct ScreenState {
    /// Where key presses go.
    pub focus: Focus,
    /// The lines of the message list, oldest first.
    pub messages: Seq<Seq<char>>,
    /// The highlighted line of the message list, if any.
    pub selected: Option<usize>,
    /// The text typed so far.
    pub input: Seq<char>,
    /// Whether the user asked to leave.
    pub should_quit: bool,
}

/// The text that a reply to `message` starts with.
pub open spec fn reply_text(message: Seq<char>) -> Seq<char> {
    "回复「"@ + message + "」: "@
}

/// The line under which a text from the network is listed.
pub open spec fn network_line(text: Seq<char>) -> Seq<char> {
    "\n[网络]  "@ + text
}

impl ScreenState {
    /// The line that the selection starts from: the selected one, or the
    /// first where none is selected.
    pub open spec fn cursor(self) -> int {
        match self.selected {
            Some(line) => line as int,
            None => 0,
        }
    }

    /// The selection after moving up: one line up, stopping at the first.
    /// An empty list has no selection to move.
    pub open spec fn select_up(self) -> ScreenState {
        if self.messages.len() > 0 {
            let line = if self.cursor() > 0 {
                self.cursor() - 1
            } else {
                0
            };
            ScreenState { selected: Some(line as usize), ..self }
        } else {
            self
        }
    }

    /// The selection after moving down: one line down, stopping at the
    /// last.  An empty list has no selection to move.
    pub open spec fn select_down(self) -> ScreenState {
        if self.messages.len() > 0 {
            let line = if self.cursor() + 1 < self.messages.len() {
                self.cursor() + 1
            } else {
                self.messages.len() - 1
            };
            ScreenState { selected: Some(line as usize), ..self }
        } else {
            self
        }
    }

    /// Starting a reply: the input becomes the reply to the selected line
    /// and takes the focus.  Without a selected line nothing changes.
    pub open spec fn start_reply(self) -> ScreenState {
        match self.selected {
            Some(line) if line < self.messages.len() => ScreenState {
                input: reply_text(self.messages[line as int]),
                focus: Focus::Input,
                ..self
            },
            _ => self,
        }
    }

    /// Submitting the input: unless it is blank, it joins the message list,
    /// becomes the selected line and is cleared.
    pub open spec fn submit(self) -> ScreenState {
        if is_blank(self.input) {
            self
        } else {
            ScreenState {
                messages: self.messages.push(self.input),
                selected: Some(self.messages.len() as usize),
                input: Seq::<char>::empty(),
                ..self
            }
        }
    }

    /// The message that submitting the input sends: the input, unless it is
    /// blank.
    pub open spec fn outgoing(self) -> Option<Seq<char>> {
        if is_blank(self.input) {
            None
        } else {
            Some(self.input)
        }
    }

    /// The screen after a key press while the message list has the focus.
    pub open spec fn press_in_messages(self, key: Key) -> ScreenState {
        match key {
            Key::Up => self.select_up(),
            Key::Down => self.select_down(),
            Key::Enter => self.start_reply(),
            _ => self,
        }
    }

    /// The screen after a key press while the input line has the focus.
    pub open spec fn press_in_input(self, key: Key) -> ScreenState {
        match key {
            Key::Enter => self.submit(),
            Key::Char(c) => ScreenState { input: self.input.push(c), ..self },
            Key::Backspace => if self.input.len() > 0 {
                ScreenState { input: self.input.drop_last(), ..self }
            } else {
                self
            },
            _ => self,
        }
    }

    /// The screen after a key press.  Escape asks to leave, tab moves the
    /// focus on, and every other key goes to the part that has the focus;
    /// the sidebar ignores all keys.
    pub open spec fn press(self, key: Key) -> ScreenState {
        match key {
            Key::Esc => ScreenState { should_quit: true, ..self },
            Key::Tab => ScreenState { focus: self.focus.next(), ..self },
            _ => match self.focus {
                Focus::Messages => self.press_in_messages(key),
                Focus::Input => self.press_in_input(key),
                Focus::SidebarArea => self,
            },
        }
    }

    /// The message that a key press sends: the input, where enter is
    /// pressed in the input line and the input is not blank.
    pub open spec fn sent_by(self, key: Key) -> Option<Seq<char>> {
        if key == Key::Enter && self.focus == Focus::Input {
            self.outgoing()
        } else {
            None
        }
    }

    /// The screen that the front end starts with: three lines of welcome,
    /// the first of them selected, and the focus on the empty input line.
    pub open spec fn initial() -> ScreenState {
        ScreenState {
            focus: Focus::Input,
            messages: seq![
                "欢迎使用 chat cli"@,
                "按 Ctrl+Tab 切换焦点，↑↓ 选择消息"@,
                "按 Esc或Ctrl+C 退出应用，在输入框中Ctrl+Enter 发送"@,
            ],
            selected: Some(0usize),
            input: Seq::<char>::empty(),
            should_quit: false,
        }
    }

    /// The screen after a text arrived from the network: the text is listed
    /// and selected.
    pub open spec fn receive(self, text: Seq<char>) -> ScreenState {
        ScreenState {
            messages: self.messages.push(network_line(text)),
            selected: Some(self.messages.len() as usize),
            ..self
        }
    }
}

impl ScreenState {
    /// The selection, if there is one, points at a line of the list.
    pub open spec fn selection_in_range(self) -> bool {
        match self.selected {
            Some(line) => line < self.messages.len(),
            None => true,
        }
    }
}

/// A key press never loses a message and never moves the selection off the
/// list, as long as the list is short enough to be counted.
pub proof fn lemma_press_keeps_selection_in_range(screen: ScreenState, key: Key)
    requires
        screen.selection_in_range(),
        screen.messages.len() < usize::MAX,
    ensures
        screen.press(key).selection_in_range(),
        screen.press(key).messages.len() >= screen.messages.len(),
        forall|line: int|
            0 <= line < screen.messages.len() ==> screen.press(key).messages[line]
                == screen.messages[line],
{
}

/// Listing a text from the network keeps the selection on the list, as
/// long as the list is short enough to be counted.
pub proof fn lemma_receive_selects_the_new_line(screen: ScreenState, text: Seq<char>)
    requires
        screen.messages.len() < usize::MAX,
    ensures
        screen.receive(text).selection_in_range(),
        screen.receive(text).messages.last() == network_line(text),
        screen.receive(text).selected == Some(screen.messages.len() as usize),
{
}

/// The model behind the terminal front end.
pub struct Screen {
    /// Where key presses go.
    pub focus: Focus,
    /// The lines of the message list, oldest first.
    pub messages: Vec<String>,
    /// The highlighted line of the message list, if any.
    pub selected: Option<usize>,
    /// The text typed so far.
    pub input: String,
    /// Whether the user asked to leave.
    pub should_quit: bool,
}

impl View for Screen {
    type V = ScreenState;

    open spec fn view(&self) -> ScreenState {
        ScreenState {
            focus: self.focus,
            messages: self.messages.deep_view(),
            selected: self.selected,
            input: self.input@,
            should_quit: self.should_quit,
        }
    }
}

/// Where the cursor stands in the input box: one cell inside the box's
/// corner, moved right by the length of the typed text as far as a terminal
/// coordinate can count it.
pub open spec fn cursor_cell(area_x: u16, area_y: u16, typed: usize) -> (int, int) {
    (area_x + typed % 0x1_0000 + 1, area_y + 1)
}

/// Computes where to put the cursor in an input box whose corner is at
/// (`area_x`, `area_y`) and which holds `typed` bytes of text.  The cell
/// must lie on the coordinate grid.
pub fn cursor_position(area_x: u16, area_y: u16, typed: usize) -> (cell: (u16, u16))
    requires
        cursor_cell(area_x, area_y, typed).0 <= u16::MAX,
        cursor_cell(area_x, area_y, typed).1 <= u16::MAX,
    ensures
        cell.0 == cursor_cell(area_x, area_y, typed).0,
        cell.1 == cursor_cell(area_x, area_y, typed).1,
{
    let counted = (typed % 0x1_0000) as u16;
    (area_x + counted + 1, area_y + 1)
}

/// The names listed in the sidebar.
pub open spec fn contact_list() -> Seq<Seq<char>> {
    seq!["a"@, "b"@]
}

/// The names to list in the sidebar.
pub fn contact_names() -> (names: Vec<String>)
    ensures
        names.deep_view() == contact_list(),
{
    let mut names: Vec<String> = Vec::new();
    names.push(String::from_str("a"));
    names.push(String::from_str("b"));
    names
}

/// What the line-by-line front end sends for a line the user typed: the
/// line without its surrounding whitespace, and nothing for a blank line.
pub fn line_to_send(line: &str) -> (sent: Option<&str>)
    ensures
        match sent {
            Some(text) => !is_blank(line@) && text@ == trimmed(line@),
            None => is_blank(line@),
        },
{
    let text = trim(line);
    if text.is_empty() {
        None
    } else {
        Some(text)
    }
}

/// A message to be sent, taken by its text.
pub open spec fn sent_text(sent: Option<String>) -> Option<Seq<char>> {
    match sent {
        Some(text) => Some(text@),
        None => None,
    }
}

impl Screen {
    /// The screen that the front end starts with.
    pub fn new() -> (screen: Screen)
        ensures
            screen@ == ScreenState::initial(),
    {
        let mut messages: Vec<String> = Vec::new();
        messages.push(String::from_str("欢迎使用 chat cli"));
        messages.push(String::from_str("按 Ctrl+Tab 切换焦点，↑↓ 选择消息"));
        messages.push(String::from_str("按 Esc或Ctrl+C 退出应用，在输入框中Ctrl+Enter 发送"));
        let screen = Screen {
            focus: Focus::Input,
            messages,
            selected: Some(0),
            input: String::new(),
            should_quit: false,
        };
        assert(screen@.messages =~= ScreenState::initial().messages);
        screen
    }

    /// Handles a key press: changes the screen as [`ScreenState::press`]
    /// says and returns the message to send, if the key press sends one.
    pub fn press(&mut self, key: Key) -> (sent: Option<String>)
        ensures
            final(self)@ == old(self)@.press(key),
            sent_text(sent) == old(self)@.sent_by(key),
    {
        match key {
            Key::Esc => {
                self.should_quit = true;
                None
            },
            Key::Tab => {
                self.focus = self.focus.next_focus();
                None
            },
            _ => match self.focus {
                Focus::Messages => {
                    self.press_in_messages(key);
                    None
                },
                Focus::Input => self.press_in_input(key),
                Focus::SidebarArea => None,
            },
        }
    }

    /// Handles a key press while the message list has the focus.
    fn press_in_messages(&mut self, key: Key)
        ensures
            final(self)@ == old(self)@.press_in_messages(key),
    {
        let lines = self.messages.len();
        match key {
            Key::Up => {
                if lines > 0 {
                    let line = match self.selected {
                        Some(line) => line,
                        None => 0,
                    };
                    self.selected = Some(if line > 0 {
                        line - 1
                    } else {
                        0
                    });
                }
            },
            Key::Down => {
                if lines > 0 {
                    let line = match self.selected {
                        Some(line) => line,
                        None => 0,
                    };
                    self.selected = Some(if line < lines - 1 {
                        line + 1
                    } else {
                        lines - 1
                    });
                }
            },
            Key::Enter => {
                if let Some(line) = self.selected {
                    if line < lines {
                        let reply = String::from_str("回复「").concat(
                            self.messages[line].as_str(),
                        ).concat("」: ");
                        self.input = reply;
                        self.focus = Focus::Input;
                    }
                }
            },
            _ => {},
        }
    }

    /// Handles a key press while the input line has the focus.
    fn press_in_input(&mut self, key: Key) -> (sent: Option<String>)
        ensures
            final(self)@ == old(self)@.press_in_input(key),
            sent_text(sent) == if key == Key::Enter {
                old(self)@.outgoing()
            } else {
                None
            },
    {
        match key {
            Key::Enter => {
                if trim(self.input.as_str()).is_empty() {
                    None
                } else {
                    let sent = self.input.clone();
                    let listed = self.input.clone();
                    self.messages.push(listed);
                    self.input = String::new();
                    self.selected = Some(self.messages.len() - 1);
                    assert(self@.messages =~= old(self)@.messages.push(old(self)@.input));
                    Some(sent)
                }
            },
            Key::Char(c) => {
                push_char(&mut self.input, c);
                None
            },
            Key::Backspace => {
                let _ = pop_char(&mut self.input);
                None
            },
            _ => None,
        }
    }

    /// Lists a text that arrived from the network and selects it.
    pub fn receive(&mut self, text: &str)
        ensures
            final(self)@ == old(self)@.receive(text@),
    {
        self.messages.push(String::from_str("\n[网络]  ").concat(text));
        self.selected = Some(self.messages.len() - 1);
        assert(self@.messages =~= old(self)@.messages.push(network_line(text@)));
    }
}

} // verus!
