//! What each key and each stream event does to the client's state, stated
//! field by field in terms of the state before.

use vstd::prelude::*;

use crate::app::{after_event, after_key, command_filter, AppModel, Key};
use crate::message::{MessageModel, MessageRole, RuntimeEvent};

verus! {

/// No key changes the commands or the reply being streamed; only Esc touches
/// `should_quit`, leaving it false; only Enter with text typed changes the
/// conversation, by appending that text as the user's message, and only then
/// is a prompt sent.
pub proof fn keys_keep_the_reply(m: AppModel, key: Key)
    ensures
        after_key(m, key).0.streaming == m.streaming,
        after_key(m, key).0.commands == m.commands,
        key is Esc ==> !after_key(m, key).0.should_quit,
        !(key is Esc) ==> after_key(m, key).0.should_quit == m.should_quit,
        key is Enter && m.input.len() > 0 ==> after_key(m, key).0.messages == m.messages.push(
            MessageModel { role: MessageRole::User, content: m.input },
        ),
        key is Enter && m.input.len() > 0 ==> after_key(m, key).1 == Some(m.input),
        !(key is Enter && m.input.len() > 0) ==> after_key(m, key).0.messages == m.messages,
        !(key is Enter && m.input.len() > 0) ==> after_key(m, key).1 is None,
{
}

/// With the selection on a suggestion, Tab puts that suggestion in the input
/// and changes nothing else; otherwise Tab changes nothing.
pub proof fn tab_takes_the_selected_suggestion(m: AppModel)
    ensures
        0 <= m.selected < m.filtered.len() ==> {
            &&& after_key(m, Key::Tab).0.input == m.filtered[m.selected]
            &&& after_key(m, Key::Tab).0.filtered == m.filtered
            &&& after_key(m, Key::Tab).0.selected == m.selected
            &&& after_key(m, Key::Tab).0.messages == m.messages
        },
        !(0 <= m.selected < m.filtered.len()) ==> after_key(m, Key::Tab).0 == m,
{
}

/// A typed character is appended to the input, and a backspace removes the
/// last one (nothing when the input is empty); both keep the selection and
/// make the suggestions those of the new input.
pub proof fn typing_edits_the_input(m: AppModel, c: char)
    ensures
        after_key(m, Key::Char(c)).0.input == m.input.push(c),
        after_key(m, Key::Char(c)).0.input.len() == m.input.len() + 1,
        after_key(m, Key::Char(c)).0.input.last() == c,
        after_key(m, Key::Char(c)).0.selected == m.selected,
        after_key(m, Key::Char(c)).0.filtered == command_filter(m.commands, m.input.push(c)),
        m.input.len() > 0 ==> after_key(m, Key::Backspace).0.input == m.input.subrange(
            0,
            m.input.len() - 1,
        ),
        m.input.len() == 0 ==> after_key(m, Key::Backspace).0.input.len() == 0,
        after_key(m, Key::Backspace).0.selected == m.selected,
        after_key(m, Key::Backspace).0.filtered == command_filter(
            m.commands,
            after_key(m, Key::Backspace).0.input,
        ),
{
}

/// Down and Up move the selection by one through the suggestions, wrapping at
/// either end, and change nothing else; with no suggestions they change
/// nothing. Down always lands on a suggestion.
pub proof fn arrows_move_the_selection(m: AppModel)
    requires
        m.selected >= 0,
    ensures
        m.filtered.len() > 0 ==> 0 <= after_key(m, Key::Down).0.selected < m.filtered.len(),
        m.filtered.len() > 0 ==> after_key(m, Key::Down).0.selected == (m.selected + 1) % (
        m.filtered.len() as int),
        m.filtered.len() > 0 && m.selected > 0 ==> after_key(m, Key::Up).0.selected == m.selected
            - 1,
        m.filtered.len() == 0 ==> after_key(m, Key::Down).0 == m && after_key(m, Key::Up).0 == m,
        0 <= m.selected && m.selected + 1 < m.filtered.len() ==> after_key(m, Key::Down).0.selected
            == m.selected + 1,
        m.filtered.len() > 0 && m.selected == m.filtered.len() - 1 ==> after_key(
            m,
            Key::Down,
        ).0.selected == 0,
        0 < m.selected < m.filtered.len() ==> after_key(m, Key::Up).0.selected == m.selected - 1,
        m.filtered.len() > 0 && m.selected == 0 ==> after_key(m, Key::Up).0.selected
            == m.filtered.len() - 1,
        after_key(m, Key::Down).0.input == m.input && after_key(m, Key::Up).0.input == m.input,
        after_key(m, Key::Down).0.filtered == m.filtered && after_key(m, Key::Up).0.filtered
            == m.filtered,
{
    let n = m.filtered.len() as int;
    if n > 0 {
        assert(0 <= (m.selected + 1) % n < n) by (nonlinear_arith)
            requires
                n > 0,
                m.selected >= 0,
        ;
    }
    if 0 <= m.selected && m.selected + 1 < n {
        assert((m.selected + 1) % n == m.selected + 1) by (nonlinear_arith)
            requires
                0 <= m.selected + 1 < n,
        ;
    }
    if n > 0 && m.selected == n - 1 {
        assert((m.selected + 1) % n == 0) by (nonlinear_arith)
            requires
                m.selected + 1 == n,
                n > 0,
        ;
    }
}

/// Enter empties the input and the palette and resets the selection, whether
/// or not text was typed.
pub proof fn enter_clears_the_input(m: AppModel)
    ensures
        after_key(m, Key::Enter).0.input.len() == 0,
        after_key(m, Key::Enter).0.filtered.len() == 0,
        after_key(m, Key::Enter).0.selected == 0,
        m.input.len() == 0 ==> after_key(m, Key::Enter).1 is None,
{
}

/// Esc and any other key leave everything but `should_quit` as it was.
pub proof fn other_keys_change_nothing(m: AppModel)
    ensures
        after_key(m, Key::Other).0 == m,
        after_key(m, Key::Esc).0 == (AppModel { should_quit: false, ..m }),
{
}

/// A failure adds one note to the conversation, `Error: ` and its text, and
/// leaves the reply being streamed, the input and the palette as they were.
pub proof fn error_keeps_the_reply(m: AppModel, error: String)
    ensures
        after_event(m, RuntimeEvent::Error(error)).streaming == m.streaming,
        after_event(m, RuntimeEvent::Error(error)).messages == m.messages.push(
            MessageModel {
                role: MessageRole::System,
                content: seq!['E', 'r', 'r', 'o', 'r', ':', ' '] + error@,
            },
        ),
        after_event(m, RuntimeEvent::Error(error)).input == m.input,
        after_event(m, RuntimeEvent::Error(error)).filtered == m.filtered,
{
}

/// A piece of text is appended to the reply being streamed (or starts it) and
/// leaves the conversation as it was.
pub proof fn token_extends_the_reply(m: AppModel, token: String)
    ensures
        after_event(m, RuntimeEvent::Token(token)).messages == m.messages,
        m.streaming is None ==> after_event(m, RuntimeEvent::Token(token)).streaming == Some(token@),
        m.streaming matches Some(text) ==> after_event(m, RuntimeEvent::Token(token)).streaming
            == Some(text + token@),
{
}

/// The end of a reply moves the reply being streamed into the conversation as
/// the assistant's message and leaves nothing streaming; with no reply
/// streaming it changes nothing.
pub proof fn finished_moves_the_reply(m: AppModel)
    ensures
        after_event(m, RuntimeEvent::Finished).streaming is None,
        m.streaming is None ==> after_event(m, RuntimeEvent::Finished) == m,
        m.streaming matches Some(text) ==> after_event(m, RuntimeEvent::Finished).messages
            == m.messages.push(MessageModel { role: MessageRole::Assistant, content: text }),
{
}

} // verus!
