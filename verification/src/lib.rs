//! Core of a stateless Responses API service.
//!
//! Every request carries the complete conversation history and produces one
//! model generation. [`prepare`] turns a request into a chat request, and
//! [`stream`] turns the generation into a response or a stream of events.
//! [`marker`] matches the markers that delimit channels in generated text.

pub mod chat;
pub mod convert;
pub mod custom_tool;
pub mod error;
pub mod input;
pub mod json;
pub mod marker;
pub mod output;
pub mod prepare;
pub mod stream;
pub mod text;
pub mod types;
