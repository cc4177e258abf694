//! What the conversation pane shows, stated line by line in terms of the
//! messages.

use vstd::prelude::*;

use crate::message::{MessageModel, MessageRole};
use crate::ui::{conversation_lines, message_lines, transcript_of, LineModel};

verus! {

/// How many lines show a message of role `role`: one for a note of the
/// system, three (a blank line, a heading and the text) otherwise.
pub open spec fn lines_for(role: MessageRole) -> int {
    match role {
        MessageRole::System => 1,
        _ => 3,
    }
}

/// How many lines show `messages`.
pub open spec fn lines_for_all(messages: Seq<MessageModel>) -> int
    decreases messages.len(),
{
    if messages.len() == 0 {
        0
    } else {
        lines_for_all(messages.drop_last()) + lines_for(messages.last().role)
    }
}

proof fn lines_of_one(m: MessageModel)
    ensures
        message_lines(m).len() == lines_for(m.role),
{
}

proof fn conversation_length(messages: Seq<MessageModel>)
    ensures
        conversation_lines(messages).len() == lines_for_all(messages),
    decreases messages.len(),
{
    if messages.len() > 0 {
        conversation_length(messages.drop_last());
        lines_of_one(messages.last());
    }
}

proof fn conversation_concat(a: Seq<MessageModel>, b: Seq<MessageModel>)
    ensures
        conversation_lines(a + b) == conversation_lines(a) + conversation_lines(b),
    decreases b.len(),
{
    if b.len() == 0 {
        assert(a + b =~= a);
        assert(conversation_lines(a) + conversation_lines(b) =~= conversation_lines(a));
    } else {
        conversation_concat(a, b.drop_last());
        assert((a + b).drop_last() =~= a + b.drop_last());
        assert((a + b).last() == b.last());
        assert(conversation_lines(a + b) =~= conversation_lines(a) + conversation_lines(b));
    }
}

/// The pane holds the lines of every message and then, while a reply is
/// streaming, three more: its length is the lines of all messages plus three
/// when a reply streams, and those last three are a blank line, the
/// assistant's heading and the reply so far.
pub proof fn transcript_length(messages: Seq<MessageModel>, streaming: Option<Seq<char>>)
    ensures
        transcript_of(messages, streaming).len() == lines_for_all(messages) + if streaming is Some {
            3int
        } else {
            0int
        },
        streaming matches Some(text) ==> {
            let t = transcript_of(messages, streaming);
            &&& t[t.len() - 3] == LineModel::Blank
            &&& t[t.len() - 2] == LineModel::AssistantHeader
            &&& t[t.len() - 1] == LineModel::Body(text)
        },
{
    conversation_length(messages);
}

/// Every message is shown, in order: the lines of message `i` start after the
/// lines of the messages before it; a user's or the assistant's message is a
/// blank line, its heading and its text, and a note of the system is one line
/// with its text.
pub proof fn transcript_shows_every_message(
    messages: Seq<MessageModel>,
    streaming: Option<Seq<char>>,
    i: int,
)
    requires
        0 <= i < messages.len(),
    ensures
        ({
            let t = transcript_of(messages, streaming);
            let at = lines_for_all(messages.take(i));
            let m = messages[i];
            &&& m.role == MessageRole::User ==> t[at] == LineModel::Blank && t[at + 1]
                == LineModel::UserHeader && t[at + 2] == LineModel::Body(m.content)
            &&& m.role == MessageRole::Assistant ==> t[at] == LineModel::Blank && t[at + 1]
                == LineModel::AssistantHeader && t[at + 2] == LineModel::Body(m.content)
            &&& m.role == MessageRole::System ==> t[at] == LineModel::SystemNote(m.content)
        }),
{
    let before = messages.take(i);
    let one = seq![messages[i]];
    let after = messages.skip(i + 1);
    assert(messages =~= before + one + after);
    conversation_concat(before + one, after);
    conversation_concat(before, one);
    assert(one.drop_last() =~= Seq::<MessageModel>::empty());
    assert(conversation_lines(one.drop_last()) =~= Seq::<LineModel>::empty());
    assert(one.last() == messages[i]);
    assert(conversation_lines(one) =~= message_lines(messages[i]));
    conversation_length(before);
    lines_of_one(messages[i]);
    let t = transcript_of(messages, streaming);
    let c = conversation_lines(messages);
    assert(c == conversation_lines(before) + message_lines(messages[i]) + conversation_lines(after));
    let at = lines_for_all(before);
    assert forall|k: int| 0 <= k < lines_for(messages[i].role) implies #[trigger] t[at + k]
        == message_lines(messages[i])[k] by {
        assert(t[at + k] == c[at + k]);
    }
    if messages[i].role != MessageRole::System {
        assert(t[at + 1] == message_lines(messages[i])[1]);
        assert(t[at + 2] == message_lines(messages[i])[2]);
    }
    assert(t[at + 0] == message_lines(messages[i])[0]);
}

} // verus!
