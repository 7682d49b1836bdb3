pub mod client;
pub mod client_inv;
pub mod client_laws;
pub mod config;
pub mod connection;
pub mod error;
pub mod message;
pub mod number;
pub mod outgoing;
pub mod text;
pub mod transport;
