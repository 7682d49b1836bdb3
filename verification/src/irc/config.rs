//! The policy of a client, fixed when it is made.

use vstd::prelude::*;

verus! {

/// What a client logs in with, and the limits it keeps.
#[derive(Debug, Clone, PartialEq, Eq)]
pub struct ClientConfig {
    pub login: String,
    pub token: String,
    /// How many channels one connection may be asked to join.
    pub max_channels_per_connection: usize,
    /// How many outbound messages may wait on one connection.
    pub max_waiting_messages_per_connection: usize,
    /// How many connections may be in the making at a time.
    pub connection_rate_limit: usize,
    /// Seconds to let pass between two new connections.
    pub new_connection_every: u64,
    /// Seconds after which a connection attempt is given up.
    pub connect_timeout: u64,
}

impl ClientConfig {
    /// The policy with the usual limits: 90 channels and 5 waiting messages
    /// per connection, one connection in the making at a time, a new one
    /// every 2 seconds, 20 seconds to connect.
    pub fn new(login: String, token: String) -> (config: ClientConfig)
        ensures
            config.login == login,
            config.token == token,
            config.max_channels_per_connection == 90,
            config.max_waiting_messages_per_connection == 5,
            config.connection_rate_limit == 1,
            config.new_connection_every == 2,
            config.connect_timeout == 20,
    {
        ClientConfig {
            login,
            token,
            max_channels_per_connection: 90,
            max_waiting_messages_per_connection: 5,
            connection_rate_limit: 1,
            new_connection_every: 2,
            connect_timeout: 20,
        }
    }
}

} // verus!
