//! Decision and conversion core of an AMQP 1.0 message server that hands
//! every received message to a user callback, accepting the message when the
//! callback approves it and rejecting it otherwise.
pub mod text;
pub mod entries;
pub mod message;
pub mod conversion;
pub mod callback;
pub mod runtime;
pub mod server;

pub use callback::CallbackProcessor;
pub use message::PyAmqpMessage;
pub use server::PyServer;
