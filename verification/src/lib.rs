//! A small Redis-style key-value service: the command interpreter of the
//! server, over one store for all connections, the accept-retry policy of its
//! listener, and the reply decisions of the client-side clerk.

pub mod clerk;
pub mod command;
pub mod frame;
pub mod listener;
pub mod report;
pub mod server;
pub mod store;
pub mod text;
