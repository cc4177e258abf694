use friday::message::RuntimeEvent;
use friday::provider::{
    prompt_messages, AssistantMessage, ChatResponse, Choice, OpenAIProvider, ProviderMessage,
};
use friday::relay::{relay, StreamOutcome};

#[test]
fn provider_defaults_to_the_mini_model() {
    let p = OpenAIProvider::new("SECRET-REDACTED".to_string());
    assert_eq!(p.api_key, "SECRET-REDACTED");
    assert_eq!(p.model, "gpt-4o-mini");
}

#[test]
fn prompt_is_one_user_message() {
    let m = prompt_messages("hello".to_string());
    assert_eq!(m.len(), 1);
    assert_eq!(m[0].role, "user");
    assert_eq!(m[0].content, "hello");
}

#[test]
fn request_keeps_messages_in_order() {
    let p = OpenAIProvider::new("k".to_string());
    let msgs = vec![
        ProviderMessage { role: "system".to_string(), content: "be brief".to_string() },
        ProviderMessage { role: "user".to_string(), content: "hi".to_string() },
    ];
    let r = p.chat_request(&msgs, true);
    assert_eq!(r.model, "gpt-4o-mini");
    assert!(r.stream);
    assert_eq!(r.messages.len(), 2);
    assert_eq!(r.messages[0].role, "system");
    assert_eq!(r.messages[0].content, "be brief");
    assert_eq!(r.messages[1].role, "user");
    assert_eq!(r.messages[1].content, "hi");
    assert!(!p.chat_request(&msgs, false).stream);
}

#[test]
fn reply_is_the_first_choice_or_empty() {
    let none = ChatResponse { choices: vec![] };
    assert_eq!(none.reply(), "");
    let two = ChatResponse {
        choices: vec![
            Choice { message: AssistantMessage { content: "first".to_string() } },
            Choice { message: AssistantMessage { content: "second".to_string() } },
        ],
    };
    assert_eq!(two.reply(), "first");
}

#[test]
fn relay_turns_outcomes_into_events() {
    match relay(StreamOutcome::Piece("a".to_string())) {
        (RuntimeEvent::Token(t), true) => assert_eq!(t, "a"),
        other => panic!("unexpected {:?}", other),
    }
    match relay(StreamOutcome::Failed("boom".to_string())) {
        (RuntimeEvent::Error(t), false) => assert_eq!(t, "boom"),
        other => panic!("unexpected {:?}", other),
    }
    assert!(matches!(relay(StreamOutcome::Ended), (RuntimeEvent::Finished, false)));
}

fn run_relay(outcomes: Vec<StreamOutcome>) -> Vec<RuntimeEvent> {
    let mut sent = Vec::new();
    for outcome in outcomes {
        let (event, go_on) = relay(outcome);
        sent.push(event);
        if !go_on {
            break;
        }
    }
    sent
}

#[test]
fn relay_sends_pieces_then_one_end() {
    let sent = run_relay(vec![
        StreamOutcome::Piece("a".to_string()),
        StreamOutcome::Piece("b".to_string()),
        StreamOutcome::Failed("lost".to_string()),
        StreamOutcome::Piece("c".to_string()),
        StreamOutcome::Ended,
    ]);
    assert_eq!(sent.len(), 3);
    assert!(matches!(&sent[0], RuntimeEvent::Token(t) if t == "a"));
    assert!(matches!(&sent[1], RuntimeEvent::Token(t) if t == "b"));
    assert!(matches!(&sent[2], RuntimeEvent::Error(t) if t == "lost"));
    let ended = run_relay(vec![StreamOutcome::Piece("x".to_string()), StreamOutcome::Ended]);
    assert_eq!(ended.len(), 2);
    assert!(matches!(ended[1], RuntimeEvent::Finished));
    let failed_open = run_relay(vec![StreamOutcome::Failed("no route".to_string())]);
    assert_eq!(failed_open.len(), 1);
    assert!(matches!(&failed_open[0], RuntimeEvent::Error(t) if t == "no route"));
}
