//! What the screen shows, decided from the client's state: the lines of the
//! conversation, the input bar, the command palette and where the cursor goes.

use vstd::prelude::*;

use crate::app::App;
use crate::message::{messages_model, MessageModel, MessageRole};

verus! {

/// A line of the conversation pane.
pub enum TranscriptLine {
    /// An empty line before a message.
    Blank,
    /// The heading of a message of the user.
    UserHeader,
    /// The heading of a message of the assistant.
    AssistantHeader,
    /// The text of a message of the user or the assistant.
    Body(String),
    /// A note of the system, on one line of its own.
    SystemNote(String),
}

/// What a line of the conversation pane is.
pub enum LineModel {
    Blank,
    UserHeader,
    AssistantHeader,
    Body(Seq<char>),
    SystemNote(Seq<char>),
}

impl View for TranscriptLine {
    type V = LineModel;

    open spec fn view(&self) -> LineModel {
        match self {
            TranscriptLine::Blank => LineModel::Blank,
            TranscriptLine::UserHeader => LineModel::UserHeader,
            TranscriptLine::AssistantHeader => LineModel::AssistantHeader,
            TranscriptLine::Body(text) => LineModel::Body(text@),
            TranscriptLine::SystemNote(text) => LineModel::SystemNote(text@),
        }
    }
}

/// The lines that show one message.
pub open spec fn message_lines(m: MessageModel) -> Seq<LineModel> {
    match m.role {
        MessageRole::User => seq![LineModel::Blank, LineModel::UserHeader, LineModel::Body(m.content)],
        MessageRole::Assistant => seq![
            LineModel::Blank,
            LineModel::AssistantHeader,
            LineModel::Body(m.content),
        ],
        MessageRole::System => seq![LineModel::SystemNote(m.content)],
    }
}

/// The lines that show `messages`, in order.
pub open spec fn conversation_lines(messages: Seq<MessageModel>) -> Seq<LineModel>
    decreases messages.len(),
{
    if messages.len() == 0 {
        Seq::empty()
    } else {
        conversation_lines(messages.drop_last()) + message_lines(messages.last())
    }
}

/// The lines of the conversation pane: the messages, then the reply being
/// streamed, shown as an assistant's message.
pub open spec fn transcript_of(messages: Seq<MessageModel>, streaming: Option<Seq<char>>) -> Seq<LineModel> {
    conversation_lines(messages) + match streaming {
        Some(text) => seq![LineModel::Blank, LineModel::AssistantHeader, LineModel::Body(text)],
        None => Seq::empty(),
    }
}

/// The models of a list of lines.
pub open spec fn lines_model(lines: Seq<TranscriptLine>) -> Seq<LineModel> {
    lines.map_values(|l: TranscriptLine| l@)
}

/// Appends to `lines` the lines that show a message of role `role` and text `content`.
fn push_message_lines(lines: &mut Vec<TranscriptLine>, role: MessageRole, content: String)
    ensures
        lines_model(final(lines)@) == lines_model(old(lines)@) + message_lines(
            MessageModel { role, content: content@ },
        ),
{
    match role {
        MessageRole::User => {
            lines.push(TranscriptLine::Blank);
            lines.push(TranscriptLine::UserHeader);
            lines.push(TranscriptLine::Body(content));
        },
        MessageRole::Assistant => {
            lines.push(TranscriptLine::Blank);
            lines.push(TranscriptLine::AssistantHeader);
            lines.push(TranscriptLine::Body(content));
        },
        MessageRole::System => {
            lines.push(TranscriptLine::SystemNote(content));
        },
    }
    assert(lines_model(lines@) =~= lines_model(old(lines)@) + message_lines(
        MessageModel { role, content: content@ },
    ));
}

/// The lines of the conversation pane of `app`.
pub fn transcript(app: &App) -> (lines: Vec<TranscriptLine>)
    ensures
        lines_model(lines@) == transcript_of(app@.messages, app@.streaming),
{
    let mut lines: Vec<TranscriptLine> = Vec::new();
    let mut i: usize = 0;
    while i < app.messages.len()
        invariant
            i <= app.messages.len(),
            lines_model(lines@) == conversation_lines(messages_model(app.messages@).take(i as int)),
        decreases app.messages.len() - i,
    {
        let ghost shown = messages_model(app.messages@).take(i + 1);
        assert(shown.drop_last() =~= messages_model(app.messages@).take(i as int));
        push_message_lines(&mut lines, app.messages[i].role, app.messages[i].content.clone());
        i = i + 1;
    }
    assert(messages_model(app.messages@).take(app.messages.len() as int) =~= messages_model(app.messages@));
    match &app.streaming_message {
        Some(text) => {
            push_message_lines(&mut lines, MessageRole::Assistant, text.clone());
        },
        None => {
            assert(lines_model(lines@) + Seq::<LineModel>::empty() =~= lines_model(lines@));
        },
    }
    lines
}

/// What the input bar shows.
pub enum InputLine {
    /// The hint shown when nothing is typed.
    Placeholder,
    /// What is typed.
    Typed(String),
}

/// What the input bar of `app` shows: the hint when nothing is typed, else
/// the typed text.
pub fn input_line(app: &App) -> (line: InputLine)
    ensures
        app@.input.len() == 0 ==> line is Placeholder,
        app@.input.len() > 0 ==> (line matches InputLine::Typed(text) && text@ == app@.input),
{
    if app.input.as_str().is_empty() {
        InputLine::Placeholder
    } else {
        InputLine::Typed(app.input.clone())
    }
}

/// A row of the command palette.
pub struct Suggestion {
    pub selected: bool,
    pub label: String,
}

/// The mark in front of the selected suggestion.
pub open spec fn selected_mark() -> Seq<char> {
    "› "@
}

/// The space in front of the other suggestions.
pub open spec fn unselected_mark() -> Seq<char> {
    "  "@
}

/// The rows of the command palette of `app`: one per suggestion, in order;
/// the selected one marked, the others indented by as much.
pub fn suggestions(app: &App) -> (rows: Vec<Suggestion>)
    ensures
        rows@.len() == app@.filtered.len(),
        forall|i: int|
            0 <= i < rows@.len() ==> {
                &&& #[trigger] rows@[i].selected == (i == app@.selected)
                &&& rows@[i].label@ == (if i == app@.selected {
                    selected_mark()
                } else {
                    unselected_mark()
                }) + app@.filtered[i]
            },
{
    let mut rows: Vec<Suggestion> = Vec::new();
    let mut i: usize = 0;
    while i < app.filtered_commands.len()
        invariant
            i <= app.filtered_commands.len(),
            rows@.len() == i,
            forall|j: int|
                0 <= j < i ==> {
                    &&& #[trigger] rows@[j].selected == (j == app@.selected)
                    &&& rows@[j].label@ == (if j == app@.selected {
                        selected_mark()
                    } else {
                        unselected_mark()
                    }) + app@.filtered[j]
                },
        decreases app.filtered_commands.len() - i,
    {
        let selected = i == app.selected_command;
        let mut label = if selected {
            String::from_str("› ")
        } else {
            String::from_str("  ")
        };
        label.append(app.filtered_commands[i].as_str());
        assert(app@.filtered[i as int] == app.filtered_commands@[i as int]@);
        rows.push(Suggestion { selected, label });
        assert(rows@[i as int].label@ == (if i == app@.selected {
            selected_mark()
        } else {
            unselected_mark()
        }) + app@.filtered[i as int]);
        i = i + 1;
    }
    rows
}

/// Whether the command palette is drawn: only when there are suggestions.
pub fn palette_shown(app: &App) -> (shown: bool)
    ensures
        shown == (app@.filtered.len() > 0),
{
    app.filtered_commands.len() > 0
}

/// The most suggestions that the palette shows at once.
pub open spec fn palette_rows() -> int {
    8
}

/// The height of the command palette for `count` suggestions: the rows shown
/// and two border rows.
pub fn popup_height(count: usize) -> (height: u16)
    ensures
        height == (if count < palette_rows() { count as int } else { palette_rows() }) + 2,
{
    let shown: usize = if count < 8 { count } else { 8 };
    shown as u16 + 2
}

/// The top row of the command palette, just above the input bar whose top row
/// is `input_top`, and no higher than the top of the screen.
pub fn popup_top(input_top: u16, height: u16) -> (top: u16)
    ensures
        top == (if input_top >= height { input_top - height } else { 0 }),
{
    if input_top >= height {
        input_top - height
    } else {
        0
    }
}

/// Where the cursor stands in the input bar whose top left corner is
/// `(left, top)`: after the typed text, counted in bytes and reduced to 16
/// bits, inside the border.
pub fn cursor_position(left: u16, top: u16, input: &str) -> (position: (u16, u16))
    requires
        left + (input.len() as u16) + 1 <= u16::MAX,
        top + 1 <= u16::MAX,
    ensures
        position == (((left + (input.len() as u16) + 1) as u16, (top + 1) as u16)),
{
    let width = input.len() as u16;
    (left + width + 1, top + 1)
}

} // verus!
