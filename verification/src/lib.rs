//! A pooled chat client for a tag-extended IRC dialect: a strict line parser,
//! typed server messages, and the decision logic of the per-connection state
//! machine and of the connection pool.

pub mod irc;
