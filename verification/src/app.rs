//! The chat client's state: what is typed, the conversation, the reply being
//! streamed, and the command palette; and how keys and stream events change it.

use vstd::prelude::*;

use crate::message::{messages_model, ChatMessage, MessageModel, MessageRole, RuntimeEvent};
use crate::text::{pop_char, push_char, starts_with};

verus! {

/// A key the user pressed, as far as the client tells keys apart.
#[derive(Clone, Copy, Debug, PartialEq, Eq, Structural)]
pub enum Key {
    Char(char),
    Backspace,
    Down,
    Up,
    Tab,
    Enter,
    Esc,
    Other,
}

/// The state of the client.
pub struct App {
    pub input: String,
    pub messages: Vec<ChatMessage>,
    pub streaming_message: Option<String>,
    pub should_quit: bool,
    pub commands: Vec<String>,
    pub filtered_commands: Vec<String>,
    pub selected_command: usize,
}

/// What the state of the client is, as values.
#[verifier::ext_equal]
pub struct AppModel {
    pub input: Seq<char>,
    pub messages: Seq<MessageModel>,
    pub streaming: Option<Seq<char>>,
    pub should_quit: bool,
    pub commands: Seq<Seq<char>>,
    pub filtered: Seq<Seq<char>>,
    pub selected: int,
}

impl View for App {
    type V = AppModel;

    open spec fn view(&self) -> AppModel {
        AppModel {
            input: self.input@,
            messages: messages_model(self.messages@),
            streaming: self.streaming_message.deep_view(),
            should_quit: self.should_quit,
            commands: self.commands.deep_view(),
            filtered: self.filtered_commands.deep_view(),
            selected: self.selected_command as int,
        }
    }
}

/// The commands that the palette offers.
pub open spec fn initial_commands() -> Seq<Seq<char>> {
    seq!["/help"@, "/clear"@, "/exit"@, "/model"@, "/tools"@, "/session"@, "/theme"@]
}

/// The text of the note that opens every conversation.
pub open spec fn greeting() -> Seq<char> {
    "Friday runtime initialized"@
}

/// The text that starts the note about a failed reply.
pub open spec fn error_prefix() -> Seq<char> {
    seq!['E', 'r', 'r', 'o', 'r', ':', ' ']
}

/// Whether `command` completes `input`.
pub open spec fn completes(input: Seq<char>) -> spec_fn(Seq<char>) -> bool {
    |command: Seq<char>| input.is_prefix_of(command)
}

/// The suggestions for `input`: when it starts with `/`, the commands that begin
/// with it, in order; otherwise none.
pub open spec fn command_filter(commands: Seq<Seq<char>>, input: Seq<char>) -> Seq<Seq<char>> {
    if seq!['/'].is_prefix_of(input) {
        commands.filter(completes(input))
    } else {
        Seq::empty()
    }
}

/// The state after one stream event.
pub open spec fn after_event(m: AppModel, event: RuntimeEvent) -> AppModel {
    match event {
        RuntimeEvent::Token(token) => AppModel {
            streaming: Some(
                match m.streaming {
                    Some(text) => text + token@,
                    None => token@,
                },
            ),
            ..m
        },
        RuntimeEvent::Finished => match m.streaming {
            Some(text) => AppModel {
                messages: m.messages.push(MessageModel { role: MessageRole::Assistant, content: text }),
                streaming: None,
                ..m
            },
            None => m,
        },
        RuntimeEvent::Error(error) => AppModel {
            messages: m.messages.push(
                MessageModel { role: MessageRole::System, content: error_prefix() + error@ },
            ),
            ..m
        },
    }
}

/// The state after the stream events `events`, in order.
pub open spec fn after_events(m: AppModel, events: Seq<RuntimeEvent>) -> AppModel
    decreases events.len(),
{
    if events.len() == 0 {
        m
    } else {
        after_event(after_events(m, events.drop_last()), events.last())
    }
}

/// `m` with `input` typed, and the suggestions for it.
pub open spec fn with_input(m: AppModel, input: Seq<char>) -> AppModel {
    AppModel { input, filtered: command_filter(m.commands, input), ..m }
}

/// The state after one key, and the prompt that the key sends, if any.
pub open spec fn after_key(m: AppModel, key: Key) -> (AppModel, Option<Seq<char>>) {
    match key {
        Key::Char(c) => (with_input(m, m.input.push(c)), None),
        Key::Backspace => (
            with_input(m, if m.input.len() > 0 { m.input.drop_last() } else { m.input }),
            None,
        ),
        Key::Down => (
            if m.filtered.len() > 0 {
                AppModel { selected: (m.selected + 1) % (m.filtered.len() as int), ..m }
            } else {
                m
            },
            None,
        ),
        Key::Up => (
            if m.filtered.len() > 0 {
                AppModel {
                    selected: if m.selected == 0 { m.filtered.len() - 1 } else { m.selected - 1 },
                    ..m
                }
            } else {
                m
            },
            None,
        ),
        Key::Tab => (
            if 0 <= m.selected < m.filtered.len() {
                AppModel { input: m.filtered[m.selected], ..m }
            } else {
                m
            },
            None,
        ),
        Key::Enter => {
            let sent = m.input.len() > 0;
            (
                AppModel {
                    input: Seq::empty(),
                    messages: if sent {
                        m.messages.push(MessageModel { role: MessageRole::User, content: m.input })
                    } else {
                        m.messages
                    },
                    filtered: Seq::empty(),
                    selected: 0,
                    ..m
                },
                if sent { Some(m.input) } else { None },
            )
        },
        Key::Esc => (AppModel { should_quit: false, ..m }, None),
        Key::Other => (m, None),
    }
}

/// The string `"Error: "`.
fn error_prefix_string() -> (s: String)
    ensures
        s@ == error_prefix(),
{
    let mut s = String::new();
    push_char(&mut s, 'E');
    push_char(&mut s, 'r');
    push_char(&mut s, 'r');
    push_char(&mut s, 'o');
    push_char(&mut s, 'r');
    push_char(&mut s, ':');
    push_char(&mut s, ' ');
    s
}

impl App {
    /// A client with the greeting as its only message, nothing typed and no
    /// suggestions.
    pub fn new() -> (app: App)
        ensures
            app@ == (AppModel {
                input: Seq::empty(),
                messages: seq![MessageModel { role: MessageRole::System, content: greeting() }],
                streaming: None,
                should_quit: false,
                commands: initial_commands(),
                filtered: Seq::empty(),
                selected: 0,
            }),
    {
        let mut commands: Vec<String> = Vec::new();
        commands.push(String::from_str("/help"));
        commands.push(String::from_str("/clear"));
        commands.push(String::from_str("/exit"));
        commands.push(String::from_str("/model"));
        commands.push(String::from_str("/tools"));
        commands.push(String::from_str("/session"));
        commands.push(String::from_str("/theme"));
        let mut messages: Vec<ChatMessage> = Vec::new();
        messages.push(
            ChatMessage {
                role: MessageRole::System,
                content: String::from_str("Friday runtime initialized"),
            },
        );
        let app = App {
            input: String::new(),
            messages,
            streaming_message: None,
            should_quit: false,
            commands,
            filtered_commands: Vec::new(),
            selected_command: 0,
        };
        assert(app@.commands =~= initial_commands());
        assert(app@.messages =~= seq![MessageModel { role: MessageRole::System, content: greeting() }]);
        app
    }

    /// Sets the suggestions to the commands that begin with the input, when the
    /// input starts with `/`, and to none otherwise.
    pub fn update_command_filter(&mut self)
        ensures
            final(self)@ == with_input(old(self)@, old(self)@.input),
    {
        let ghost pred = completes(self.input@);
        if starts_with(self.input.as_str(), "/") {
            proof {
                reveal_strlit("/");
                assert("/"@ =~= seq!['/']);
            }
            let mut filtered: Vec<String> = Vec::new();
            let mut i: usize = 0;
            while i < self.commands.len()
                invariant
                    i <= self.commands.len(),
                    pred == completes(self.input@),
                    filtered.deep_view() == self.commands.deep_view().take(i as int).filter(pred),
                decreases self.commands.len() - i,
            {
                proof {
                    reveal(Seq::filter);
                    assert(self.commands.deep_view().take(i + 1).drop_last()
                        =~= self.commands.deep_view().take(i as int));
                }
                if starts_with(self.commands[i].as_str(), self.input.as_str()) {
                    filtered.push(self.commands[i].clone());
                }
                i = i + 1;
            }
            assert(self.commands.deep_view().take(self.commands.len() as int)
                =~= self.commands.deep_view());
            self.filtered_commands = filtered;
        } else {
            proof {
                reveal_strlit("/");
                assert("/"@ =~= seq!['/']);
            }
            self.filtered_commands = Vec::new();
        }
    }

    /// Applies one stream event: a piece of text extends the reply being
    /// streamed (starting one if none is), the end of the reply moves it into
    /// the conversation as the assistant's message, and a failure adds a note
    /// `Error: ` followed by its text.
    pub fn apply_runtime_event(&mut self, event: RuntimeEvent)
        ensures
            final(self)@ == after_event(old(self)@, event),
    {
        match event {
            RuntimeEvent::Token(token) => {
                let mut text = match self.streaming_message.take() {
                    Some(text) => text,
                    None => String::new(),
                };
                text.append(token.as_str());
                self.streaming_message = Some(text);
            },
            RuntimeEvent::Finished => {
                if let Some(text) = self.streaming_message.take() {
                    self.messages.push(ChatMessage { role: MessageRole::Assistant, content: text });
                    assert(messages_model(self.messages@) =~= messages_model(old(self).messages@).push(
                        MessageModel { role: MessageRole::Assistant, content: old(self).streaming_message.deep_view()->0 },
                    ));
                }
            },
            RuntimeEvent::Error(error) => {
                let mut content = error_prefix_string();
                content.append(error.as_str());
                self.messages.push(ChatMessage { role: MessageRole::System, content });
                assert(messages_model(self.messages@) =~= messages_model(old(self).messages@).push(
                    MessageModel { role: MessageRole::System, content: error_prefix() + error@ },
                ));
            },
        }
    }

    /// Applies the stream events that have arrived, in order.
    pub fn process_runtime_events(&mut self, events: Vec<RuntimeEvent>)
        ensures
            final(self)@ == after_events(old(self)@, events@),
    {
        let ghost all = events@;
        let mut rest = events;
        let total = rest.len();
        let mut done: usize = 0;
        while rest.len() > 0
            invariant
                all.len() == total,
                done + rest@.len() == all.len(),
                rest@ == all.skip(done as int),
                self@ == after_events(old(self)@, all.take(done as int)),
            decreases rest.len(),
        {
            let event = rest.remove(0);
            assert(all.take(done + 1).drop_last() =~= all.take(done as int));
            assert(all.skip(done as int)[0] == all[done as int]);
            self.apply_runtime_event(event);
            done = done + 1;
            assert(all.skip(done as int) =~= all.skip(done - 1).remove(0));
        }
        assert(all.take(all.len() as int) =~= all);
    }

    /// Applies one key: a character is typed and a backspace removes the last
    /// one (both refresh the suggestions); Down and Up move the selection
    /// through the suggestions, wrapping around; Tab copies the selected
    /// suggestion into the input; Enter sends a non-empty input as the user's
    /// message, returns it as the prompt to send, and clears the input, the
    /// suggestions and the selection; Esc leaves `should_quit` false.
    pub fn handle_key(&mut self, key: Key) -> (prompt: Option<String>)
        requires
            key is Down && old(self).filtered_commands.len() > 0
                ==> old(self).selected_command < usize::MAX,
        ensures
            (final(self)@, prompt.deep_view()) == after_key(old(self)@, key),
    {
        match key {
            Key::Char(c) => {
                push_char(&mut self.input, c);
                self.update_command_filter();
                None
            },
            Key::Backspace => {
                let _ = pop_char(&mut self.input);
                self.update_command_filter();
                None
            },
            Key::Down => {
                if self.filtered_commands.len() > 0 {
                    self.selected_command = (self.selected_command + 1) % self.filtered_commands.len();
                }
                None
            },
            Key::Up => {
                if self.filtered_commands.len() > 0 {
                    if self.selected_command == 0 {
                        self.selected_command = self.filtered_commands.len() - 1;
                    } else {
                        self.selected_command = self.selected_command - 1;
                    }
                }
                None
            },
            Key::Tab => {
                if self.selected_command < self.filtered_commands.len() {
                    self.input = self.filtered_commands[self.selected_command].clone();
                }
                None
            },
            Key::Enter => {
                let input = self.input.clone();
                let mut prompt: Option<String> = None;
                if !input.as_str().is_empty() {
                    self.messages.push(ChatMessage { role: MessageRole::User, content: input.clone() });
                    assert(messages_model(self.messages@) =~= messages_model(old(self).messages@).push(
                        MessageModel { role: MessageRole::User, content: old(self).input@ },
                    ));
                    prompt = Some(input);
                }
                self.input = String::new();
                self.filtered_commands = Vec::new();
                self.selected_command = 0;
                assert(self.filtered_commands.deep_view() =~= Seq::<Seq<char>>::empty());
                prompt
            },
            Key::Esc => {
                self.should_quit = false;
                None
            },
            Key::Other => None,
        }
    }
}

} // verus!
