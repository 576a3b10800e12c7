//! A minimal multi-client text chat: a connection registry and broadcast
//! fan-out for the server, and the prompt and history state of the client.
pub mod channel;
pub mod chat;
pub mod client;
pub mod fanout;
pub mod message;
pub mod registry;
pub mod screen;
pub mod server;
pub mod util;
pub mod window;

pub use client::Client;
pub use server::Server;
