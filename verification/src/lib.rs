//! Friday: the state and rules of a terminal chat client for a streaming
//! language-model service, with their contracts.
//!
//! - `text`: prefix tests, prefix stripping and line splitting on strings.
//! - `message`: the messages of a conversation and the stream events.
//! - `app`: the client's state and how keys and stream events change it.
//! - `laws`: properties that span several keys or events.
//! - `key_laws`: what each key and each stream event does, field by field.
//! - `sse`: reading streamed text out of server-sent-event chunks.
//! - `sse_laws`: what a chunk yields, in terms of its lines and payloads.
//! - `provider`: the messages, request and reply of the model service.
//! - `relay`: turning what the stream gives into stream events.
//! - `ui`: what the screen shows, decided from the state.
//! - `view_laws`: the conversation pane, line by line.

pub mod app;
pub mod key_laws;
pub mod laws;
pub mod message;
pub mod provider;
pub mod relay;
pub mod sse;
pub mod sse_laws;
pub mod text;
pub mod ui;
pub mod view_laws;
