//! Properties of the client that span several keys or stream events.

use vstd::prelude::*;

use crate::app::{after_event, after_events, after_key, command_filter, completes, AppModel, Key};
use crate::message::{MessageModel, MessageRole, RuntimeEvent};
use crate::relay::{relay_run, StreamOutcome};

verus! {

/// The text of the stream pieces among `events`, joined in order.
pub open spec fn streamed_text(events: Seq<RuntimeEvent>) -> Seq<char>
    decreases events.len(),
{
    if events.len() == 0 {
        Seq::empty()
    } else {
        streamed_text(events.drop_last()) + match events.last() {
            RuntimeEvent::Token(token) => token@,
            _ => Seq::empty(),
        }
    }
}

/// Whether every event of `events` is a piece of text.
pub open spec fn all_tokens(events: Seq<RuntimeEvent>) -> bool {
    forall|i: int| 0 <= i < events.len() ==> #[trigger] events[i] is Token
}

/// Every suggestion is one of the commands and begins with the typed text;
/// when the typed text starts with `/`, every command that begins with it is
/// suggested; otherwise nothing is.
pub proof fn suggestions_are_matching_commands(commands: Seq<Seq<char>>, input: Seq<char>)
    ensures
        forall|i: int|
            0 <= i < command_filter(commands, input).len() ==> {
                &&& input.is_prefix_of(#[trigger] command_filter(commands, input)[i])
                &&& commands.contains(command_filter(commands, input)[i])
            },
        seq!['/'].is_prefix_of(input) ==> forall|j: int|
            0 <= j < commands.len() && input.is_prefix_of(#[trigger] commands[j])
                ==> command_filter(commands, input).contains(commands[j]),
        !seq!['/'].is_prefix_of(input) ==> command_filter(commands, input).len() == 0,
{
    broadcast use vstd::seq_lib::group_filter_ensures;

    let pred = completes(input);
    if seq!['/'].is_prefix_of(input) {
        assert forall|i: int| 0 <= i < command_filter(commands, input).len() implies {
            &&& input.is_prefix_of(#[trigger] command_filter(commands, input)[i])
            &&& commands.contains(command_filter(commands, input)[i])
        } by {
            let f = commands.filter(pred);
            assert(pred(f[i]));
            assert(f.contains(f[i]));
            commands.lemma_filter_contains_rev(pred, f[i]);
        }
        assert forall|j: int| 0 <= j < commands.len() && input.is_prefix_of(#[trigger] commands[j])
            implies command_filter(commands, input).contains(commands[j]) by {
            assert(pred(commands[j]));
        }
    }
}

/// With a suggestion selected, Up undoes Down, and both keep the selection
/// on a suggestion.
pub proof fn up_undoes_down(m: AppModel)
    requires
        0 <= m.selected < m.filtered.len(),
    ensures
        0 <= after_key(m, Key::Down).0.selected < m.filtered.len(),
        after_key(after_key(m, Key::Down).0, Key::Up).0 == m,
{
    let n = m.filtered.len() as int;
    if m.selected + 1 < n {
        assert((m.selected + 1) % n == m.selected + 1) by (nonlinear_arith)
            requires 0 <= m.selected + 1 < n;
    } else {
        assert((m.selected + 1) % n == 0) by (nonlinear_arith)
            requires m.selected + 1 == n, n > 0;
    }
    assert(after_key(after_key(m, Key::Down).0, Key::Up).0 =~= m);
}

/// With a suggestion selected, Down undoes Up, and both keep the selection
/// on a suggestion.
pub proof fn down_undoes_up(m: AppModel)
    requires
        0 <= m.selected < m.filtered.len(),
    ensures
        0 <= after_key(m, Key::Up).0.selected < m.filtered.len(),
        after_key(after_key(m, Key::Up).0, Key::Down).0 == m,
{
    let n = m.filtered.len() as int;
    let up = after_key(m, Key::Up).0.selected;
    if m.selected == 0 {
        assert((up + 1) % n == 0) by (nonlinear_arith)
            requires up + 1 == n, n > 0;
    } else {
        assert((up + 1) % n == up + 1) by (nonlinear_arith)
            requires 0 <= up + 1 < n;
    }
    assert(after_key(after_key(m, Key::Up).0, Key::Down).0 =~= m);
}

/// Backspace undoes a typed character, when the suggestions match the input.
pub proof fn backspace_undoes_typing(m: AppModel, c: char)
    requires
        m.filtered == command_filter(m.commands, m.input),
    ensures
        after_key(after_key(m, Key::Char(c)).0, Key::Backspace).0 == m,
{
    assert(m.input.push(c).drop_last() =~= m.input);
    assert(after_key(after_key(m, Key::Char(c)).0, Key::Backspace).0 =~= m);
}

/// Stream events change only the conversation and the reply being streamed.
pub proof fn events_keep_the_input(m: AppModel, events: Seq<RuntimeEvent>)
    ensures
        after_events(m, events).input == m.input,
        after_events(m, events).commands == m.commands,
        after_events(m, events).filtered == m.filtered,
        after_events(m, events).selected == m.selected,
        after_events(m, events).should_quit == m.should_quit,
    decreases events.len(),
{
    if events.len() > 0 {
        events_keep_the_input(m, events.drop_last());
    }
}

/// Pieces of text extend the reply being streamed by their joined text, and
/// leave the conversation as it is.
pub proof fn tokens_extend_the_reply(m: AppModel, events: Seq<RuntimeEvent>)
    requires
        events.len() > 0,
        all_tokens(events),
    ensures
        after_events(m, events) == (AppModel {
            streaming: Some(
                match m.streaming {
                    Some(text) => text,
                    None => Seq::empty(),
                } + streamed_text(events),
            ),
            ..m
        }),
    decreases events.len(),
{
    let prefix = match m.streaming {
        Some(text) => text,
        None => Seq::<char>::empty(),
    };
    assert(events[events.len() - 1] is Token);
    if events.len() == 1 {
        assert(events.drop_last() =~= Seq::<RuntimeEvent>::empty());
        assert(prefix + streamed_text(events) =~= match m.streaming {
            Some(text) => text + events[0]->Token_0@,
            None => events[0]->Token_0@,
        });
    } else {
        assert forall|i: int| 0 <= i < events.drop_last().len() implies #[trigger] events.drop_last()[i] is Token by {
            assert(events[i] is Token);
        }
        tokens_extend_the_reply(m, events.drop_last());
        assert(prefix + streamed_text(events) =~= (prefix + streamed_text(events.drop_last()))
            + events.last()->Token_0@);
    }
    assert(after_events(m, events) =~= AppModel { streaming: Some(prefix + streamed_text(events)), ..m });
}

/// A reply streamed as pieces of text and then finished becomes one assistant
/// message whose text is the pieces joined in order, and nothing is left
/// streaming.
pub proof fn streamed_reply_is_joined(m: AppModel, events: Seq<RuntimeEvent>)
    requires
        m.streaming is None,
        events.len() > 1,
        all_tokens(events.drop_last()),
        events.last() is Finished,
    ensures
        after_events(m, events) == (AppModel {
            messages: m.messages.push(
                MessageModel { role: MessageRole::Assistant, content: streamed_text(events.drop_last()) },
            ),
            streaming: None,
            ..m
        }),
{
    tokens_extend_the_reply(m, events.drop_last());
    assert(Seq::<char>::empty() + streamed_text(events.drop_last()) =~= streamed_text(events.drop_last()));
    let before = after_events(m, events.drop_last());
    assert(after_events(m, events) == after_event(before, events.last()));
    assert(after_events(m, events) =~= AppModel {
        messages: m.messages.push(
            MessageModel { role: MessageRole::Assistant, content: streamed_text(events.drop_last()) },
        ),
        streaming: None,
        ..m
    });
}


/// Tab replaces the input by the selected suggestion, which is a command that
/// begins with what was typed, when the suggestions match the input.
pub proof fn tab_completes_the_input(m: AppModel)
    requires
        m.filtered == command_filter(m.commands, m.input),
        0 <= m.selected < m.filtered.len(),
    ensures
        m.input.is_prefix_of(after_key(m, Key::Tab).0.input),
        m.commands.contains(after_key(m, Key::Tab).0.input),
{
    suggestions_are_matching_commands(m.commands, m.input);
    assert(input_begins(m, m.selected));
}

/// Whether the suggestion at `i` begins with the input.
spec fn input_begins(m: AppModel, i: int) -> bool {
    m.input.is_prefix_of(m.filtered[i])
}

/// Enter with text typed sends that text, records it as the user's message
/// and empties the input and the palette.
pub proof fn enter_sends_the_input(m: AppModel)
    requires
        m.input.len() > 0,
    ensures
        after_key(m, Key::Enter).1 == Some(m.input),
        after_key(m, Key::Enter).0.messages
            == m.messages.push(MessageModel { role: MessageRole::User, content: m.input }),
        after_key(m, Key::Enter).0.input.len() == 0,
        after_key(m, Key::Enter).0.filtered.len() == 0,
        after_key(m, Key::Enter).0.selected == 0,
{
}

/// A turn of the conversation: Enter with text typed, then a reply streamed as
/// pieces of text and finished, leaves the conversation ending with the user's
/// message and the assistant's reply, the pieces joined in order.
pub proof fn turn_records_prompt_and_reply(m: AppModel, events: Seq<RuntimeEvent>)
    requires
        m.input.len() > 0,
        m.streaming is None,
        events.len() > 1,
        all_tokens(events.drop_last()),
        events.last() is Finished,
    ensures
        after_events(after_key(m, Key::Enter).0, events).messages == m.messages
            .push(MessageModel { role: MessageRole::User, content: m.input })
            .push(MessageModel { role: MessageRole::Assistant, content: streamed_text(events.drop_last()) }),
        after_events(after_key(m, Key::Enter).0, events).streaming is None,
{
    streamed_reply_is_joined(after_key(m, Key::Enter).0, events);
}


/// Stream events give the same state whether they are applied in two batches
/// or all at once, however the batches are cut.
pub proof fn batches_compose(m: AppModel, first: Seq<RuntimeEvent>, second: Seq<RuntimeEvent>)
    ensures
        after_events(after_events(m, first), second) == after_events(m, first + second),
    decreases second.len(),
{
    if second.len() == 0 {
        assert(first + second =~= first);
    } else {
        batches_compose(m, first, second.drop_last());
        assert((first + second).drop_last() =~= first + second.drop_last());
        assert((first + second).last() == second.last());
    }
}


/// The relay of one prompt sends a piece of text for each piece the stream
/// gives before its first failure or end, then exactly one event for that
/// failure (an error with its text) or end (the end of the reply), and nothing
/// after it.
pub proof fn relay_sends_pieces_then_one_end(outcomes: Seq<StreamOutcome>, k: int)
    requires
        0 <= k < outcomes.len(),
        forall|i: int| 0 <= i < k ==> #[trigger] outcomes[i] is Piece,
        !(outcomes[k] is Piece),
    ensures
        relay_run(outcomes).len() == k + 1,
        forall|i: int|
            0 <= i < k ==> #[trigger] relay_run(outcomes)[i] == RuntimeEvent::Token(outcomes[i]->Piece_0),
        outcomes[k] is Failed ==> relay_run(outcomes)[k] == RuntimeEvent::Error(outcomes[k]->Failed_0),
        outcomes[k] is Ended ==> relay_run(outcomes)[k] is Finished,
    decreases k,
{
    if k > 0 {
        let rest = outcomes.drop_first();
        assert forall|i: int| 0 <= i < k - 1 implies #[trigger] rest[i] is Piece by {
            assert(outcomes[i + 1] is Piece);
        }
        relay_sends_pieces_then_one_end(rest, k - 1);
        assert(outcomes[0] is Piece);
        assert(relay_run(outcomes) == seq![RuntimeEvent::Token(outcomes[0]->Piece_0)] + relay_run(rest));
        assert forall|i: int| 0 <= i < k implies #[trigger] relay_run(outcomes)[i]
            == RuntimeEvent::Token(outcomes[i]->Piece_0) by {
            if i > 0 {
                assert(relay_run(outcomes)[i] == relay_run(rest)[i - 1]);
                assert(rest[i - 1] == outcomes[i]);
            }
        }
    }
}


/// Whether `event` adds a message to the conversation in state `m`: an error
/// always does; an end does while a reply is streaming.
pub open spec fn adds_message(m: AppModel, event: RuntimeEvent) -> bool {
    event is Error || (event is Finished && m.streaming is Some)
}

/// How many messages `events` add to the conversation, from state `m`.
pub open spec fn messages_added(m: AppModel, events: Seq<RuntimeEvent>) -> nat
    decreases events.len(),
{
    if events.len() == 0 {
        0
    } else {
        messages_added(m, events.drop_last()) + if adds_message(
            after_events(m, events.drop_last()),
            events.last(),
        ) {
            1nat
        } else {
            0nat
        }
    }
}

/// Stream events only append to the conversation: the earlier messages stay
/// as they were, in front, and the conversation grows by one message for each
/// error and for each end met while a reply is streaming.
pub proof fn events_only_append(m: AppModel, events: Seq<RuntimeEvent>)
    ensures
        m.messages.is_prefix_of(after_events(m, events).messages),
        after_events(m, events).messages.len() == m.messages.len() + messages_added(m, events),
    decreases events.len(),
{
    if events.len() == 0 {
        assert(m.messages.subrange(0, m.messages.len() as int) =~= m.messages);
    } else {
        events_only_append(m, events.drop_last());
        let before = after_events(m, events.drop_last()).messages;
        let after = after_events(m, events).messages;
        assert(after.len() >= before.len());
        assert(after.subrange(0, before.len() as int) =~= before);
        assert(after.subrange(0, m.messages.len() as int) =~= before.subrange(0, m.messages.len() as int));
    }
}

/// Filtering by a narrower test after a wider one is filtering by the narrower.
proof fn filter_narrows(items: Seq<Seq<char>>, wide: spec_fn(Seq<char>) -> bool, narrow: spec_fn(Seq<char>) -> bool)
    requires
        forall|x: Seq<char>| #[trigger] narrow(x) ==> wide(x),
    ensures
        items.filter(narrow) == items.filter(wide).filter(narrow),
    decreases items.len(),
{
    reveal(Seq::filter);
    if items.len() > 0 {
        filter_narrows(items.drop_last(), wide, narrow);
        let earlier = items.drop_last().filter(wide);
        if wide(items.last()) {
            assert(earlier.push(items.last()).drop_last() =~= earlier);
        }
    }
}

/// Typing more after `/` never adds a suggestion: the suggestions for the
/// longer input are those for the shorter one that the longer one completes,
/// in the same order.
pub proof fn typing_more_never_adds_suggestions(
    commands: Seq<Seq<char>>,
    shorter: Seq<char>,
    longer: Seq<char>,
)
    requires
        seq!['/'].is_prefix_of(shorter),
        shorter.is_prefix_of(longer),
    ensures
        command_filter(commands, longer) == command_filter(commands, shorter).filter(completes(longer)),
        forall|i: int|
            0 <= i < command_filter(commands, longer).len() ==> command_filter(commands, shorter).contains(
                #[trigger] command_filter(commands, longer)[i],
            ),
{
    broadcast use vstd::seq_lib::group_filter_ensures;

    assert(seq!['/'].is_prefix_of(longer)) by {
        assert(longer.subrange(0, 1) =~= shorter.subrange(0, 1));
    }
    assert forall|x: Seq<char>| #[trigger] completes(longer)(x) implies completes(shorter)(x) by {
        assert(x.subrange(0, shorter.len() as int) =~= longer.subrange(0, shorter.len() as int));
    }
    filter_narrows(commands, completes(shorter), completes(longer));
    let wide = command_filter(commands, shorter);
    assert forall|i: int| 0 <= i < command_filter(commands, longer).len() implies wide.contains(
        #[trigger] command_filter(commands, longer)[i],
    ) by {
        wide.lemma_filter_contains_rev(completes(longer), command_filter(commands, longer)[i]);
    }
}

} // verus!
