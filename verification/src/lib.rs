//! Backend logic for a desktop assistant that turns natural-language
//! questions about tabular data into generated Python analysis code.
//!
//! The crate builds the chat-style prompt for two model providers (a hosted
//! chat-completion API and a local model server), and extracts the generated
//! code string out of each provider's reply. The HTTP plumbing itself lives
//! outside the library; everything here works on plain values and is verified.

pub mod chat;
pub mod json;
pub mod ollama;
pub mod openai;
pub mod prompt;
pub mod sanitize;
