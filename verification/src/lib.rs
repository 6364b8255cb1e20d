//! A conversational prompt-assembly and completion-request gateway.
//!
//! The library renders a conversation history and a new user utterance into a
//! single linear prompt, frames the completion request that is sent to a local
//! inference server, and extracts the generated reply from the server's JSON
//! response. It holds no session state: every value is supplied fresh on each
//! call. The HTTP transport and the host window controls live outside the
//! library.

pub mod error;
pub mod gateway;
pub mod jsonio;
pub mod render;
pub mod request;
pub mod text;
pub mod turn;
