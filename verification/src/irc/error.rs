//! Why a connection closed.

use vstd::prelude::*;
use crate::irc::message::IrcParseError;

verus! {

/// The cause for which a connection closed. Every cause ends the connection
/// it is about, and none ends the client. Where the transport gave a
/// failure of its own, the variant holds its description.
#[derive(Debug, PartialEq, Eq)]
pub enum Error {
    /// Underlying transport failed to connect
    Connect(String),
    /// Underlying transport failed to connect in time
    ConnectTimeout,
    /// Error received from incoming stream of messages
    Incoming(String),
    /// Error received while trying to send message(s) out
    Outgoing(String),
    /// Incoming message was not valid IRC
    IrcParse(IrcParseError),
    /// Received RECONNECT command by IRC server
    ReconnectCmd,
    /// Did not receive a PONG back after sending PING
    PingTimeout,
    /// Remote server unexpectedly closed connection
    RemoteUnexpectedlyClosedConnection,
}

impl Clone for Error {
    fn clone(&self) -> (r: Self)
        ensures
            r == *self,
    {
        match self {
            Error::Connect(e) => Error::Connect(e.clone()),
            Error::ConnectTimeout => Error::ConnectTimeout,
            Error::Incoming(e) => Error::Incoming(e.clone()),
            Error::Outgoing(e) => Error::Outgoing(e.clone()),
            Error::IrcParse(e) => Error::IrcParse(*e),
            Error::ReconnectCmd => Error::ReconnectCmd,
            Error::PingTimeout => Error::PingTimeout,
            Error::RemoteUnexpectedlyClosedConnection => Error::RemoteUnexpectedlyClosedConnection,
        }
    }
}

impl Error {
    /// The sentence that introduces the cause; the description that a
    /// variant holds follows it.
    pub open spec fn headline(&self) -> Seq<char> {
        match *self {
            Error::Connect(_) => "Underlying transport failed to connect: "@,
            Error::ConnectTimeout => "Underlying transport failed to connect: Connect timed out"@,
            Error::Incoming(_) => "Error received from incoming stream of messages: "@,
            Error::Outgoing(_) => "Error received while trying to send message(s) out: "@,
            Error::IrcParse(_) => "Incoming message was not valid IRC: "@,
            Error::ReconnectCmd => "Received RECONNECT command by IRC server"@,
            Error::PingTimeout => "Did not receive a PONG back after sending PING"@,
            Error::RemoteUnexpectedlyClosedConnection => {
                "Remote server unexpectedly closed connection"@
            },
        }
    }

    /// A sentence that describes the cause.
    pub fn message(&self) -> (s: String)
        ensures
            s@ == self.headline() + (match *self {
                Error::Connect(e) => e@,
                Error::Incoming(e) => e@,
                Error::Outgoing(e) => e@,
                Error::IrcParse(e) => e.sentence(),
                _ => Seq::empty(),
            }),
    {
        let mut s = String::new();
        match self {
            Error::Connect(e) => {
                s.append("Underlying transport failed to connect: ");
                s.append(e.as_str());
            },
            Error::ConnectTimeout => {
                s.append("Underlying transport failed to connect: Connect timed out");
            },
            Error::Incoming(e) => {
                s.append("Error received from incoming stream of messages: ");
                s.append(e.as_str());
            },
            Error::Outgoing(e) => {
                s.append("Error received while trying to send message(s) out: ");
                s.append(e.as_str());
            },
            Error::IrcParse(e) => {
                s.append("Incoming message was not valid IRC: ");
                s.append(e.message());
            },
            Error::ReconnectCmd => {
                s.append("Received RECONNECT command by IRC server");
            },
            Error::PingTimeout => {
                s.append("Did not receive a PONG back after sending PING");
            },
            Error::RemoteUnexpectedlyClosedConnection => {
                s.append("Remote server unexpectedly closed connection");
            },
        }
        proof {
            assert(s@ =~= self.headline() + (match *self {
                Error::Connect(e) => e@,
                Error::Incoming(e) => e@,
                Error::Outgoing(e) => e@,
                Error::IrcParse(e) => e.sentence(),
                _ => Seq::empty(),
            }));
        }
        s
    }
}

} // verus!
