//! The messages sent to the model service, the request for a chat completion
//! and the reply read from the service's answer.

use vstd::prelude::*;

verus! {

/// A message as the model service is handed it: a role name and a text.
pub struct ProviderMessage {
    pub role: String,
    pub content: String,
}

impl View for ProviderMessage {
    type V = (Seq<char>, Seq<char>);

    open spec fn view(&self) -> (Seq<char>, Seq<char>) {
        (self.role@, self.content@)
    }
}

/// A message in the body of a chat-completion request.
pub struct OpenAIMessage {
    pub role: String,
    pub content: String,
}

impl View for OpenAIMessage {
    type V = (Seq<char>, Seq<char>);

    open spec fn view(&self) -> (Seq<char>, Seq<char>) {
        (self.role@, self.content@)
    }
}

/// The body of a chat-completion request.
pub struct ChatRequest {
    pub model: String,
    pub messages: Vec<OpenAIMessage>,
    pub stream: bool,
}

/// The message of one choice in a chat-completion answer.
pub struct AssistantMessage {
    pub content: String,
}

/// One choice in a chat-completion answer.
pub struct Choice {
    pub message: AssistantMessage,
}

/// A chat-completion answer.
pub struct ChatResponse {
    pub choices: Vec<Choice>,
}

/// The settings of the client of the chat-completion service.
pub struct OpenAIProvider {
    pub api_key: String,
    pub model: String,
}

/// The model that the client asks for.
pub open spec fn default_model() -> Seq<char> {
    "gpt-4o-mini"@
}

/// The texts of `messages`, in order.
pub open spec fn provider_texts(messages: Seq<ProviderMessage>) -> Seq<(Seq<char>, Seq<char>)> {
    messages.map_values(|m: ProviderMessage| m@)
}

/// The texts of `messages`, in order.
pub open spec fn request_texts(messages: Seq<OpenAIMessage>) -> Seq<(Seq<char>, Seq<char>)> {
    messages.map_values(|m: OpenAIMessage| m@)
}

/// The user's part of a conversation that holds the single prompt `input`.
pub open spec fn prompt_texts(input: Seq<char>) -> Seq<(Seq<char>, Seq<char>)> {
    seq![("user"@, input)]
}

/// The messages that carry `input` to the model service: one message of
/// the role `user` whose text is `input`.
pub fn prompt_messages(input: String) -> (messages: Vec<ProviderMessage>)
    ensures
        provider_texts(messages@) == prompt_texts(input@),
{
    let mut messages: Vec<ProviderMessage> = Vec::new();
    messages.push(ProviderMessage { role: String::from_str("user"), content: input });
    assert(provider_texts(messages@) =~= prompt_texts(input@));
    messages
}

impl OpenAIProvider {
    /// Settings with the given key and the default model.
    pub fn new(api_key: String) -> (provider: OpenAIProvider)
        ensures
            provider.api_key@ == api_key@,
            provider.model@ == default_model(),
    {
        OpenAIProvider { api_key, model: String::from_str("gpt-4o-mini") }
    }

    /// The request for a chat completion of `messages` by the configured
    /// model, streamed or not: the messages keep their roles, texts and order.
    pub fn chat_request(&self, messages: &Vec<ProviderMessage>, stream: bool) -> (request: ChatRequest)
        ensures
            request.model@ == self.model@,
            request_texts(request.messages@) == provider_texts(messages@),
            request.stream == stream,
    {
        let mut out: Vec<OpenAIMessage> = Vec::new();
        let mut i: usize = 0;
        while i < messages.len()
            invariant
                i <= messages.len(),
                out@.len() == i,
                forall|j: int| 0 <= j < i ==> #[trigger] out@[j]@ == messages@[j]@,
            decreases messages.len() - i,
        {
            out.push(OpenAIMessage { role: messages[i].role.clone(), content: messages[i].content.clone() });
            i = i + 1;
        }
        assert(request_texts(out@) =~= provider_texts(messages@));
        ChatRequest { model: self.model.clone(), messages: out, stream }
    }
}

impl ChatResponse {
    /// The text of the first choice, or the empty text when there is none.
    pub fn reply(&self) -> (text: String)
        ensures
            text@ == if self.choices.len() > 0 {
                self.choices@[0].message.content@
            } else {
                Seq::empty()
            },
    {
        if self.choices.len() > 0 {
            self.choices[0].message.content.clone()
        } else {
            String::new()
        }
    }
}

} // verus!
