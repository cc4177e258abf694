use friday::app::{App, Key};
use friday::message::{ChatMessage, MessageRole, RuntimeEvent};

fn typed(app: &mut App, text: &str) {
    for c in text.chars() {
        assert_eq!(app.handle_key(Key::Char(c)), None);
    }
}

fn roles(app: &App) -> Vec<MessageRole> {
    app.messages.iter().map(|m| m.role).collect()
}

#[test]
fn new_app_starts_with_greeting_and_commands() {
    let app = App::new();
    assert_eq!(app.input, "");
    assert_eq!(app.messages.len(), 1);
    assert_eq!(app.messages[0].role, MessageRole::System);
    assert_eq!(app.messages[0].content, "Friday runtime initialized");
    assert_eq!(app.streaming_message, None);
    assert!(!app.should_quit);
    assert_eq!(
        app.commands,
        vec!["/help", "/clear", "/exit", "/model", "/tools", "/session", "/theme"]
    );
    assert!(app.filtered_commands.is_empty());
    assert_eq!(app.selected_command, 0);
}

#[test]
fn slash_suggests_every_command() {
    let mut app = App::new();
    typed(&mut app, "/");
    assert_eq!(app.filtered_commands, app.commands);
}

#[test]
fn typing_narrows_the_suggestions() {
    let mut app = App::new();
    typed(&mut app, "/t");
    assert_eq!(app.filtered_commands, vec!["/tools", "/theme"]);
    typed(&mut app, "h");
    assert_eq!(app.filtered_commands, vec!["/theme"]);
    typed(&mut app, "x");
    assert!(app.filtered_commands.is_empty());
}

#[test]
fn text_without_slash_suggests_nothing() {
    let mut app = App::new();
    typed(&mut app, "help");
    assert_eq!(app.input, "help");
    assert!(app.filtered_commands.is_empty());
}

#[test]
fn update_command_filter_follows_the_input() {
    let mut app = App::new();
    app.input = "/se".to_string();
    app.update_command_filter();
    assert_eq!(app.filtered_commands, vec!["/session"]);
    app.input = "se".to_string();
    app.update_command_filter();
    assert!(app.filtered_commands.is_empty());
}

#[test]
fn backspace_removes_the_last_character_and_refilters() {
    let mut app = App::new();
    typed(&mut app, "/th");
    assert_eq!(app.handle_key(Key::Backspace), None);
    assert_eq!(app.input, "/t");
    assert_eq!(app.filtered_commands, vec!["/tools", "/theme"]);
    app.handle_key(Key::Backspace);
    app.handle_key(Key::Backspace);
    assert_eq!(app.input, "");
    assert!(app.filtered_commands.is_empty());
    app.handle_key(Key::Backspace);
    assert_eq!(app.input, "");
}

#[test]
fn down_and_up_wrap_around() {
    let mut app = App::new();
    typed(&mut app, "/t");
    assert_eq!(app.selected_command, 0);
    app.handle_key(Key::Down);
    assert_eq!(app.selected_command, 1);
    app.handle_key(Key::Down);
    assert_eq!(app.selected_command, 0);
    app.handle_key(Key::Up);
    assert_eq!(app.selected_command, 1);
    app.handle_key(Key::Up);
    assert_eq!(app.selected_command, 0);
}

#[test]
fn down_and_up_do_nothing_without_suggestions() {
    let mut app = App::new();
    app.handle_key(Key::Down);
    app.handle_key(Key::Up);
    assert_eq!(app.selected_command, 0);
}

#[test]
fn up_undoes_down_on_concrete_selection() {
    let mut app = App::new();
    typed(&mut app, "/");
    for _ in 0..3 {
        app.handle_key(Key::Down);
    }
    assert_eq!(app.selected_command, 3);
    app.handle_key(Key::Down);
    app.handle_key(Key::Up);
    assert_eq!(app.selected_command, 3);
}

#[test]
fn tab_copies_the_selected_suggestion() {
    let mut app = App::new();
    typed(&mut app, "/t");
    app.handle_key(Key::Down);
    assert_eq!(app.handle_key(Key::Tab), None);
    assert_eq!(app.input, "/theme");
    // the suggestions are not refreshed by Tab
    assert_eq!(app.filtered_commands, vec!["/tools", "/theme"]);
}

#[test]
fn tab_with_stale_selection_keeps_the_input() {
    let mut app = App::new();
    typed(&mut app, "/");
    for _ in 0..5 {
        app.handle_key(Key::Down);
    }
    assert_eq!(app.selected_command, 5);
    typed(&mut app, "t");
    assert_eq!(app.filtered_commands.len(), 2);
    app.handle_key(Key::Tab);
    assert_eq!(app.input, "/t");
}

#[test]
fn enter_sends_the_input() {
    let mut app = App::new();
    typed(&mut app, "/h");
    app.handle_key(Key::Down);
    let prompt = app.handle_key(Key::Enter);
    assert_eq!(prompt, Some("/h".to_string()));
    assert_eq!(app.messages.len(), 2);
    assert_eq!(app.messages[1].role, MessageRole::User);
    assert_eq!(app.messages[1].content, "/h");
    assert_eq!(app.input, "");
    assert!(app.filtered_commands.is_empty());
    assert_eq!(app.selected_command, 0);
}

#[test]
fn enter_with_nothing_typed_sends_nothing() {
    let mut app = App::new();
    app.selected_command = 4;
    assert_eq!(app.handle_key(Key::Enter), None);
    assert_eq!(app.messages.len(), 1);
    assert_eq!(app.selected_command, 0);
}

#[test]
fn esc_leaves_should_quit_false() {
    let mut app = App::new();
    app.should_quit = true;
    app.handle_key(Key::Esc);
    assert!(!app.should_quit);
    app.handle_key(Key::Other);
    assert!(!app.should_quit);
    assert_eq!(app.input, "");
}

#[test]
fn tokens_then_finished_make_one_assistant_message() {
    let mut app = App::new();
    app.process_runtime_events(vec![
        RuntimeEvent::Token("Hel".to_string()),
        RuntimeEvent::Token("lo".to_string()),
    ]);
    assert_eq!(app.streaming_message, Some("Hello".to_string()));
    assert_eq!(app.messages.len(), 1);
    app.process_runtime_events(vec![
        RuntimeEvent::Token("!".to_string()),
        RuntimeEvent::Finished,
    ]);
    assert_eq!(app.streaming_message, None);
    assert_eq!(roles(&app), vec![MessageRole::System, MessageRole::Assistant]);
    assert_eq!(app.messages[1].content, "Hello!");
}

#[test]
fn finished_without_a_reply_adds_nothing() {
    let mut app = App::new();
    app.process_runtime_events(vec![RuntimeEvent::Finished]);
    assert_eq!(app.messages.len(), 1);
    assert_eq!(app.streaming_message, None);
}

#[test]
fn error_adds_a_note_and_keeps_the_stream() {
    let mut app = App::new();
    app.apply_runtime_event(RuntimeEvent::Token("part".to_string()));
    app.apply_runtime_event(RuntimeEvent::Error("timeout".to_string()));
    assert_eq!(roles(&app), vec![MessageRole::System, MessageRole::System]);
    assert_eq!(app.messages[1].content, "Error: timeout");
    assert_eq!(app.streaming_message, Some("part".to_string()));
}

#[test]
fn a_turn_records_prompt_and_reply() {
    let mut app = App::new();
    typed(&mut app, "hi");
    let prompt = app.handle_key(Key::Enter);
    assert_eq!(prompt, Some("hi".to_string()));
    app.process_runtime_events(vec![
        RuntimeEvent::Token("Hi".to_string()),
        RuntimeEvent::Token(" there".to_string()),
        RuntimeEvent::Finished,
    ]);
    assert_eq!(
        roles(&app),
        vec![MessageRole::System, MessageRole::User, MessageRole::Assistant]
    );
    assert_eq!(app.messages[2].content, "Hi there");
    assert_eq!(app.input, "");
}

#[test]
fn stream_events_do_not_touch_the_input() {
    let mut app = App::new();
    typed(&mut app, "/m");
    app.process_runtime_events(vec![
        RuntimeEvent::Token("x".to_string()),
        RuntimeEvent::Error("e".to_string()),
    ]);
    assert_eq!(app.input, "/m");
    assert_eq!(app.filtered_commands, vec!["/model"]);
    let m = ChatMessage { role: MessageRole::User, content: "z".to_string() };
    assert_eq!(m.clone().content, "z");
}

#[test]
fn events_in_batches_equal_events_at_once() {
    let events = || {
        vec![
            RuntimeEvent::Token("a".to_string()),
            RuntimeEvent::Error("x".to_string()),
            RuntimeEvent::Token("b".to_string()),
            RuntimeEvent::Finished,
            RuntimeEvent::Token("c".to_string()),
        ]
    };
    let mut at_once = App::new();
    at_once.process_runtime_events(events());
    let mut batched = App::new();
    let mut all = events();
    let rest = all.split_off(2);
    batched.process_runtime_events(all);
    batched.process_runtime_events(vec![]);
    batched.process_runtime_events(rest);
    let contents = |app: &App| app.messages.iter().map(|m| (m.role, m.content.clone())).collect::<Vec<_>>();
    assert_eq!(contents(&at_once), contents(&batched));
    assert_eq!(at_once.streaming_message, batched.streaming_message);
    assert_eq!(at_once.streaming_message, Some("c".to_string()));
    assert_eq!(contents(&at_once)[2], (MessageRole::Assistant, "ab".to_string()));
}

#[test]
fn events_only_append_to_the_conversation() {
    let mut app = App::new();
    let before: Vec<String> = app.messages.iter().map(|m| m.content.clone()).collect();
    app.process_runtime_events(vec![
        RuntimeEvent::Finished,
        RuntimeEvent::Error("a".to_string()),
        RuntimeEvent::Token("t".to_string()),
        RuntimeEvent::Finished,
        RuntimeEvent::Finished,
    ]);
    // one error, and one end met while a reply was streaming
    assert_eq!(app.messages.len(), before.len() + 2);
    for (i, content) in before.iter().enumerate() {
        assert_eq!(&app.messages[i].content, content);
    }
}

#[test]
fn typing_more_never_adds_a_suggestion() {
    let mut app = App::new();
    typed(&mut app, "/");
    let mut previous = app.filtered_commands.clone();
    for c in "the".chars() {
        app.handle_key(Key::Char(c));
        let mut k = 0;
        for s in &app.filtered_commands {
            while k < previous.len() && &previous[k] != s {
                k += 1;
            }
            assert!(k < previous.len(), "{} was not suggested before", s);
            k += 1;
        }
        previous = app.filtered_commands.clone();
    }
    assert_eq!(previous, vec!["/theme"]);
}
