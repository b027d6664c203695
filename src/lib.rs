pub mod client;
pub mod command;
pub mod endpoint;
pub mod identity;
pub mod server;
pub mod stream;
