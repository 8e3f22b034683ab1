//! The local agent runtime: it turns an agent request into an OpenAI-compatible
//! chat completion against an endpoint on this machine or on the private network,
//! and turns the completion back into the events that the client applies.
pub mod api;
pub mod channel;
pub mod completion;
pub mod conversation;
pub mod definitions;
pub mod destination;
pub mod error;
pub mod events;
pub mod ids;
pub mod json;
pub mod params;
pub mod request;
pub mod retry;
pub mod text;
pub mod tools;
