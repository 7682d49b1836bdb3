//! The state machine of one connection: what it does, and what it becomes,
//! on each command that reaches it.
//!
//! The machine decides; it performs nothing itself. Each step hands back the
//! actions to perform: lines to write, senders to answer, messages to
//! publish, tasks to start or stop. `R` is the handle by which a sender is
//! answered; the machine only carries it.

use vstd::prelude::*;
use crate::irc::error::Error;
use crate::irc::message::server::{is_known_command, server_message_fault, ServerMessage};
use crate::irc::message::{strings_view, IrcMessage, IrcMessageView};

verus! {

/// What a connection publishes to its owner.
#[derive(Debug)]
pub enum ConnectionIncomingMessage {
    /// A message of the server.
    IncomingMessage(Box<ServerMessage>),
    /// The connection has closed, and publishes nothing after this.
    StateClosed,
}

/// What reaches the state machine.
#[derive(Debug)]
pub enum ConnectionLoopCommand<R> {
    /// A line to send, and the handle to answer its sender by, if it waits.
    SendMessage(IrcMessage, Option<R>),
    /// The attempt to connect has ended: with login and token to log in
    /// with, or with the cause of its failure.
    TransportInitFinished(Result<(String, String), Error>),
    /// Writing to the transport failed; the description says how.
    SendError(String),
    /// What the transport read: a line, the cause for which reading failed,
    /// or nothing where the remote end closed.
    IncomingMessage(Option<Result<IrcMessage, Error>>),
    /// It is time to ask the server for a sign of life.
    SendPing,
    /// It is time to see whether the server gave one.
    CheckPong,
}

/// What the owner of the state machine is to do after a step.
#[derive(Debug)]
pub enum ConnectionAction<R> {
    /// Start the tasks that read from the transport, write to it, and keep
    /// time for the keepalive.
    StartTransportTasks,
    /// Stop the tasks that read from the transport and keep time.
    StopTransportTasks,
    /// Write the line; answer the sender, if one waits, with how that went.
    Write(IrcMessage, Option<R>),
    /// Answer the sender with the cause for which nothing was sent.
    Reply(R, Error),
    /// Hand on to the owner of the connection.
    Publish(ConnectionIncomingMessage),
}

/// The state of a connection. It only moves forward: from `Initializing` to
/// `Open` or `Closed`, from `Open` to `Closed`.
#[derive(Debug)]
pub enum ConnectionLoopState<R> {
    /// The transport is not ready; what is to be sent waits, in order.
    Initializing { commands_queue: Vec<(IrcMessage, Option<R>)> },
    /// Lines go out and come in. `pong_received` tells whether the server
    /// has answered since the last keepalive request.
    Open { pong_received: bool },
    /// The connection is over, for the given cause.
    Closed { reason_for_closure: Error },
}

/// The view of a message without tags and prefix.
pub open spec fn simple_view(command: Seq<char>, params: Seq<Seq<char>>) -> IrcMessageView {
    IrcMessageView { tags: Seq::empty(), prefix: None, command, params }
}

/// The line that asks the server for tags and commands.
pub open spec fn cap_request() -> IrcMessageView {
    simple_view("CAP"@, seq!["REQ"@, "twitch.tv/tags twitch.tv/commands"@])
}

/// The line that gives the token.
pub open spec fn pass_line(token: Seq<char>) -> IrcMessageView {
    simple_view("PASS"@, seq!["oauth:"@ + token])
}

/// The line that gives the login.
pub open spec fn nick_line(login: Seq<char>) -> IrcMessageView {
    simple_view("NICK"@, seq![login])
}

/// The keepalive request.
pub open spec fn ping_line() -> IrcMessageView {
    simple_view("PING"@, seq!["tmi.twitch.tv"@])
}

/// The answer to a keepalive request.
pub open spec fn pong_line() -> IrcMessageView {
    simple_view("PONG"@, seq!["tmi.twitch.tv"@])
}

/// The action writes the line `m`, with no sender waiting.
pub open spec fn writes<R>(a: ConnectionAction<R>, m: IrcMessageView) -> bool {
    a matches ConnectionAction::Write(msg, None) && msg@ == m
}

/// The action publishes that the connection has closed.
pub open spec fn publishes_closed<R>(a: ConnectionAction<R>) -> bool {
    a matches ConnectionAction::Publish(ConnectionIncomingMessage::StateClosed)
}

/// The action publishes the message that the raw message `m` stands for:
/// typed where its command is typed and it has no fault, the catch-all
/// otherwise.
pub open spec fn publishes<R>(a: ConnectionAction<R>, m: IrcMessageView) -> bool {
    a matches ConnectionAction::Publish(ConnectionIncomingMessage::IncomingMessage(t))
        && t.raw()@ == m && t.wf() && (*t is Generic <==> !is_known_command(m.command)
        || server_message_fault(m) is Some)
}

/// The answers to the queued senders that wait for one, in the order of the
/// queue.
pub open spec fn closing_replies<R>(
    queue: Seq<(IrcMessage, Option<R>)>,
    cause: Error,
) -> Seq<ConnectionAction<R>>
    decreases queue.len(),
{
    if queue.len() == 0 {
        Seq::empty()
    } else {
        let earlier = closing_replies(queue.drop_last(), cause);
        match queue.last().1 {
            Some(r) => earlier.push(ConnectionAction::Reply(r, cause)),
            None => earlier,
        }
    }
}

/// The writes of the queued lines, in the order of the queue.
pub open spec fn queued_writes<R>(queue: Seq<(IrcMessage, Option<R>)>) -> Seq<
    ConnectionAction<R>,
> {
    Seq::new(queue.len(), |i: int| ConnectionAction::Write(queue[i].0, queue[i].1))
}

/// Whether a command can reach a connection in the given state: nothing is
/// read and no keepalive runs before the transport is ready, and the
/// transport gets ready once.
pub open spec fn accepts<R>(
    state: ConnectionLoopState<R>,
    command: ConnectionLoopCommand<R>,
) -> bool {
    match state {
        ConnectionLoopState::Initializing { .. } => !(command is IncomingMessage || command
            is SendPing || command is CheckPong),
        ConnectionLoopState::Open { .. } => !(command is TransportInitFinished),
        ConnectionLoopState::Closed { .. } => true,
    }
}

/// The outcome `r` of sending a line on a connection in `state`.
///
/// A line is to be sent. Before the transport is ready it is queued
/// behind the earlier ones; on an open connection it is written; on a
/// closed one its sender, if one waits, is answered with the cause of
/// the closing. The state stays what it is.
pub open spec fn sent<R>(
    state: ConnectionLoopState<R>,
    message: IrcMessage,
    reply_sender: Option<R>,
    r: (ConnectionLoopState<R>, Vec<ConnectionAction<R>>),
) -> bool {
    match state {
        ConnectionLoopState::Initializing { commands_queue } => {
            &&& r.0 matches ConnectionLoopState::Initializing { commands_queue: queue }
            &&& queue@ == commands_queue@.push((message, reply_sender))
            &&& r.1@.len() == 0
        },
        ConnectionLoopState::Open { pong_received } => {
            &&& r.0 == state
            &&& r.1@ == seq![ConnectionAction::Write(message, reply_sender)]
        },
        ConnectionLoopState::Closed { reason_for_closure } => {
            &&& r.0 == state
            &&& r.1@ == (match reply_sender {
                Some(s) => seq![ConnectionAction::Reply(s, reason_for_closure)],
                None => Seq::empty(),
            })
        },
    }
}

/// The outcome `r` of the end of the attempt to connect, for a connection
/// in `state`.
///
/// The attempt to connect has ended. If it succeeded, the connection
/// opens: the tasks of the transport are started, then the request for
/// tags and commands is written, then token and login, then every queued
/// line in its order. If it failed, the connection closes for that
/// cause, and every queued sender is answered with it. A closed
/// connection stays closed.
pub open spec fn initialized<R>(
    state: ConnectionLoopState<R>,
    init_result: Result<(String, String), Error>,
    r: (ConnectionLoopState<R>, Vec<ConnectionAction<R>>),
) -> bool {
    match state {
        ConnectionLoopState::Initializing { commands_queue } => match init_result {
            Ok((login, token)) => {
                &&& r.0 == (ConnectionLoopState::<R>::Open { pong_received: false })
                &&& r.1@.len() == 4 + commands_queue@.len()
                &&& r.1@[0] is StartTransportTasks
                &&& writes(r.1@[1], cap_request())
                &&& writes(r.1@[2], pass_line(token@))
                &&& writes(r.1@[3], nick_line(login@))
                &&& r.1@.subrange(4, r.1@.len() as int) == queued_writes(
                    commands_queue@,
                )
            },
            Err(cause) => {
                &&& r.0 == (ConnectionLoopState::<R>::Closed { reason_for_closure: cause })
                &&& r.1@.len() == closing_replies(commands_queue@, cause).len() + 1
                &&& r.1@.subrange(0, r.1@.len() - 1) == closing_replies(
                    commands_queue@,
                    cause,
                )
                &&& publishes_closed(r.1@.last())
            },
        },
        _ => r.0 == state && r.1@.len() == 0,
    }
}

/// The outcome `r` of a failed write, for a connection in `state`.
///
/// Writing to the transport failed. A connection that is not closed yet
/// closes for that cause; a closed one stays as it is.
pub open spec fn send_failed<R>(
    state: ConnectionLoopState<R>,
    error: String,
    r: (ConnectionLoopState<R>, Vec<ConnectionAction<R>>),
) -> bool {
    match state {
        ConnectionLoopState::Initializing { commands_queue } => {
            &&& r.0 == (ConnectionLoopState::<R>::Closed {
                reason_for_closure: Error::Outgoing(error),
            })
            &&& r.1@.len() == closing_replies(
                commands_queue@,
                Error::Outgoing(error),
            ).len() + 1
            &&& r.1@.subrange(0, r.1@.len() - 1) == closing_replies(
                commands_queue@,
                Error::Outgoing(error),
            )
            &&& publishes_closed(r.1@.last())
        },
        ConnectionLoopState::Open { pong_received } => {
            &&& r.0 == (ConnectionLoopState::<R>::Closed {
                reason_for_closure: Error::Outgoing(error),
            })
            &&& r.1@.len() == 2
            &&& publishes_closed(r.1@[0])
            &&& r.1@[1] is StopTransportTasks
        },
        ConnectionLoopState::Closed { reason_for_closure } => r.0 == state && r.1@.len()
            == 0,
    }
}

/// The outcome `r` of something read from the transport, for a connection
/// in `state`.
///
/// The transport has read something. On an open connection: where the
/// remote end closed or reading failed, the connection closes for that
/// cause. A line is published as the message it stands for, and the
/// connection stays open, with three exceptions: a `PING` is answered
/// with a `PONG` at once; a `PONG` is noted as the server's sign of
/// life; a `RECONNECT` closes the connection. A closed connection stays
/// as it is and publishes nothing.
pub open spec fn received<R>(
    state: ConnectionLoopState<R>,
    maybe_message: Option<Result<IrcMessage, Error>>,
    r: (ConnectionLoopState<R>, Vec<ConnectionAction<R>>),
) -> bool {
    match state {
        ConnectionLoopState::Open { pong_received } => match maybe_message {
            None => {
                &&& r.0 == (ConnectionLoopState::<R>::Closed {
                    reason_for_closure: Error::RemoteUnexpectedlyClosedConnection,
                })
                &&& r.1@.len() == 2
                &&& publishes_closed(r.1@[0])
                &&& r.1@[1] is StopTransportTasks
            },
            Some(Err(cause)) => {
                &&& r.0 == (ConnectionLoopState::<R>::Closed { reason_for_closure: cause })
                &&& r.1@.len() == 2
                &&& publishes_closed(r.1@[0])
                &&& r.1@[1] is StopTransportTasks
            },
            Some(Ok(line)) => {
                &&& r.1@.len() >= 1
                &&& publishes(r.1@[0], line@)
                &&& r.1@[0] matches ConnectionAction::Publish(
                    ConnectionIncomingMessage::IncomingMessage(t),
                ) && match *t {
                    ServerMessage::Ping(_) => {
                        &&& r.0 == state
                        &&& r.1@.len() == 2
                        &&& writes(r.1@[1], pong_line())
                    },
                    ServerMessage::Pong(_) => {
                        &&& r.0 == (ConnectionLoopState::<R>::Open { pong_received: true })
                        &&& r.1@.len() == 1
                    },
                    ServerMessage::Reconnect(_) => {
                        &&& r.0 == (ConnectionLoopState::<R>::Closed {
                            reason_for_closure: Error::ReconnectCmd,
                        })
                        &&& r.1@.len() == 3
                        &&& publishes_closed(r.1@[1])
                        &&& r.1@[2] is StopTransportTasks
                    },
                    _ => r.0 == state && r.1@.len() == 1,
                }
            },
        },
        _ => r.0 == state && r.1@.len() == 0,
    }
}

/// The outcome `r` of the time for a keepalive request, for a connection
/// in `state`.
///
/// It is time for a keepalive request. An open connection writes a
/// `PING` and from now on waits for the server's sign of life; a closed
/// one does nothing.
pub open spec fn pinged<R>(
    state: ConnectionLoopState<R>,
    r: (ConnectionLoopState<R>, Vec<ConnectionAction<R>>),
) -> bool {
    match state {
        ConnectionLoopState::Open { pong_received } => {
            &&& r.0 == (ConnectionLoopState::<R>::Open { pong_received: false })
            &&& r.1@.len() == 1
            &&& writes(r.1@[0], ping_line())
        },
        _ => r.0 == state && r.1@.len() == 0,
    }
}

/// The outcome `r` of the time to look for the server's sign of life, for
/// a connection in `state`.
///
/// It is time to see whether the server answered the last keepalive
/// request. An open connection that got no answer closes as timed out;
/// one that got an answer stays open; a closed one stays closed.
pub open spec fn pong_checked<R>(
    state: ConnectionLoopState<R>,
    r: (ConnectionLoopState<R>, Vec<ConnectionAction<R>>),
) -> bool {
    match state {
        ConnectionLoopState::Open { pong_received } => if pong_received {
            r.0 == state && r.1@.len() == 0
        } else {
            &&& r.0 == (ConnectionLoopState::<R>::Closed {
                reason_for_closure: Error::PingTimeout,
            })
            &&& r.1@.len() == 2
            &&& publishes_closed(r.1@[0])
            &&& r.1@[1] is StopTransportTasks
        },
        _ => r.0 == state && r.1@.len() == 0,
    }
}

/// A message without tags and prefix, with the given command and parameters.
pub fn simple_message(command: &str, params: Vec<String>) -> (m: IrcMessage)
    ensures
        m@ == simple_view(command@, strings_view(params@)),
        m.wf(),
{
    IrcMessage::new_simple(command.to_owned(), params)
}

/// A message without tags and prefix, with one parameter.
pub fn one_param_message(command: &str, param: String) -> (m: IrcMessage)
    ensures
        m@ == simple_view(command@, seq![param@]),
        m.wf(),
{
    let mut params: Vec<String> = Vec::new();
    params.push(param);
    proof {
        assert(strings_view(params@) =~= seq![param@]);
    }
    simple_message(command, params)
}

impl<R> ConnectionLoopState<R> {
    /// The state of a connection that was just made.
    pub fn new() -> (state: ConnectionLoopState<R>)
        ensures
            state matches ConnectionLoopState::Initializing { commands_queue }
                && commands_queue@.len() == 0,
    {
        ConnectionLoopState::Initializing { commands_queue: Vec::new() }
    }

    /// Closes a connection whose transport never got ready: every queued
    /// sender that waits is answered with the cause, in the order of the
    /// queue, and the closing is published.
    fn close_initializing(commands_queue: Vec<(IrcMessage, Option<R>)>, cause: Error) -> (r: (
        ConnectionLoopState<R>,
        Vec<ConnectionAction<R>>,
    ))
        ensures
            r.0 == (ConnectionLoopState::<R>::Closed { reason_for_closure: cause }),
            r.1@.len() == closing_replies(commands_queue@, cause).len() + 1,
            r.1@.subrange(0, r.1@.len() - 1) == closing_replies(commands_queue@, cause),
            publishes_closed(r.1@.last()),
    {
        let mut actions: Vec<ConnectionAction<R>> = Vec::new();
        let ghost queue = commands_queue@;
        proof {
            assert(queue.subrange(0, 0) =~= Seq::<(IrcMessage, Option<R>)>::empty());
        }
        for item in it: commands_queue
            invariant
                it.seq() == queue,
                actions@ == closing_replies(queue.subrange(0, it.index() as int), cause),
        {
            proof {
                let upto = queue.subrange(0, it.index() + 1);
                assert(upto.drop_last() =~= queue.subrange(0, it.index() as int));
                assert(upto.last() == item);
            }
            let (_message, return_sender) = item;
            if let Some(return_sender) = return_sender {
                actions.push(ConnectionAction::Reply(return_sender, cause.clone()));
            }
        }
        proof {
            assert(queue.subrange(0, queue.len() as int) =~= queue);
        }
        let ghost replies = actions@;
        actions.push(ConnectionAction::Publish(ConnectionIncomingMessage::StateClosed));
        proof {
            assert(actions@.subrange(0, actions@.len() - 1) =~= replies);
        }
        (ConnectionLoopState::Closed { reason_for_closure: cause }, actions)
    }

    /// Closes an open connection: the closing is published, and the tasks of
    /// the transport are stopped.
    fn close_open(cause: Error) -> (r: (ConnectionLoopState<R>, Vec<ConnectionAction<R>>))
        ensures
            r.0 == (ConnectionLoopState::<R>::Closed { reason_for_closure: cause }),
            r.1@.len() == 2,
            publishes_closed(r.1@[0]),
            r.1@[1] is StopTransportTasks,
    {
        let mut actions: Vec<ConnectionAction<R>> = Vec::new();
        actions.push(ConnectionAction::Publish(ConnectionIncomingMessage::StateClosed));
        actions.push(ConnectionAction::StopTransportTasks);
        (ConnectionLoopState::Closed { reason_for_closure: cause }, actions)
    }

    /// A line is to be sent. Before the transport is ready it is queued
    /// behind the earlier ones; on an open connection it is written; on a
    /// closed one its sender, if one waits, is answered with the cause of
    /// the closing. The state stays what it is.
    pub fn send_message(self, message: IrcMessage, reply_sender: Option<R>) -> (r: (
        ConnectionLoopState<R>,
        Vec<ConnectionAction<R>>,
    ))
        ensures
            sent(self, message, reply_sender, r),
    {
        let mut actions: Vec<ConnectionAction<R>> = Vec::new();
        match self {
            ConnectionLoopState::Initializing { commands_queue } => {
                let mut commands_queue = commands_queue;
                commands_queue.push((message, reply_sender));
                (ConnectionLoopState::Initializing { commands_queue }, actions)
            },
            ConnectionLoopState::Open { pong_received } => {
                actions.push(ConnectionAction::Write(message, reply_sender));
                proof {
                    assert(actions@ =~= seq![ConnectionAction::Write(message, reply_sender)]);
                }
                (ConnectionLoopState::Open { pong_received }, actions)
            },
            ConnectionLoopState::Closed { reason_for_closure } => {
                if let Some(reply_sender) = reply_sender {
                    actions.push(ConnectionAction::Reply(reply_sender, reason_for_closure.clone()));
                    proof {
                        assert(actions@ =~= seq![
                            ConnectionAction::Reply(reply_sender, reason_for_closure),
                        ]);
                    }
                } else {
                    proof {
                        assert(actions@ =~= Seq::<ConnectionAction<R>>::empty());
                    }
                }
                (ConnectionLoopState::Closed { reason_for_closure }, actions)
            },
        }
    }

    /// The attempt to connect has ended. If it succeeded, the connection
    /// opens: the tasks of the transport are started, then the request for
    /// tags and commands is written, then token and login, then every queued
    /// line in its order. If it failed, the connection closes for that
    /// cause, and every queued sender is answered with it. A closed
    /// connection stays closed.
    pub fn on_transport_init_finished(self, init_result: Result<(String, String), Error>) -> (r: (
        ConnectionLoopState<R>,
        Vec<ConnectionAction<R>>,
    ))
        requires
            !(self is Open),
        ensures
            initialized(self, init_result, r),
    {
        match self {
            ConnectionLoopState::Initializing { commands_queue } => match init_result {
                Ok((login, token)) => {
                    let mut actions: Vec<ConnectionAction<R>> = Vec::new();
                    actions.push(ConnectionAction::StartTransportTasks);
                    let mut cap_params: Vec<String> = Vec::new();
                    cap_params.push("REQ".to_owned());
                    cap_params.push("twitch.tv/tags twitch.tv/commands".to_owned());
                    proof {
                        assert(strings_view(cap_params@) =~= seq![
                            "REQ"@,
                            "twitch.tv/tags twitch.tv/commands"@,
                        ]);
                    }
                    actions.push(ConnectionAction::Write(simple_message("CAP", cap_params), None));
                    let mut pass = "oauth:".to_owned();
                    pass.append(token.as_str());
                    actions.push(ConnectionAction::Write(one_param_message("PASS", pass), None));
                    actions.push(ConnectionAction::Write(one_param_message("NICK", login), None));
                    let ghost queue = commands_queue@;
                    let ghost head = actions@;
                    for item in it: commands_queue
                        invariant
                            it.seq() == queue,
                            actions@.len() == 4 + it.index(),
                            actions@.subrange(0, 4) == head,
                            forall|k: int|
                                0 <= k < it.index() ==> actions@[4 + k]
                                    == ConnectionAction::Write(queue[k].0, queue[k].1),
                    {
                        let ghost before_push = actions@;
                        let (message, return_sender) = item;
                        actions.push(ConnectionAction::Write(message, return_sender));
                        proof {
                            assert(actions@.subrange(0, 4) =~= before_push.subrange(0, 4));
                        }
                    }
                    proof {
                        assert(actions@.subrange(0, 4)[0] == actions@[0]);
                        assert(actions@.subrange(0, 4)[1] == actions@[1]);
                        assert(actions@.subrange(0, 4)[2] == actions@[2]);
                        assert(actions@.subrange(0, 4)[3] == actions@[3]);
                        assert(actions@.subrange(4, actions@.len() as int) =~= queued_writes(
                            queue,
                        ));
                    }
                    (ConnectionLoopState::Open { pong_received: false }, actions)
                },
                Err(init_error) => ConnectionLoopState::close_initializing(
                    commands_queue,
                    init_error,
                ),
            },
            ConnectionLoopState::Open { pong_received } => (
                ConnectionLoopState::Open { pong_received },
                Vec::new(),
            ),
            ConnectionLoopState::Closed { reason_for_closure } => (
                ConnectionLoopState::Closed { reason_for_closure },
                Vec::new(),
            ),
        }
    }

    /// Writing to the transport failed. A connection that is not closed yet
    /// closes for that cause; a closed one stays as it is.
    pub fn on_send_error(self, error: String) -> (r: (
        ConnectionLoopState<R>,
        Vec<ConnectionAction<R>>,
    ))
        ensures
            send_failed(self, error, r),
    {
        match self {
            ConnectionLoopState::Initializing { commands_queue } => {
                ConnectionLoopState::close_initializing(commands_queue, Error::Outgoing(error))
            },
            ConnectionLoopState::Open { pong_received } => ConnectionLoopState::close_open(
                Error::Outgoing(error),
            ),
            ConnectionLoopState::Closed { reason_for_closure } => (
                ConnectionLoopState::Closed { reason_for_closure },
                Vec::new(),
            ),
        }
    }

    /// The transport has read something. On an open connection: where the
    /// remote end closed or reading failed, the connection closes for that
    /// cause. A line is published as the message it stands for, and the
    /// connection stays open, with three exceptions: a `PING` is answered
    /// with a `PONG` at once; a `PONG` is noted as the server's sign of
    /// life; a `RECONNECT` closes the connection. A closed connection stays
    /// as it is and publishes nothing.
    pub fn on_incoming_message(self, maybe_message: Option<Result<IrcMessage, Error>>) -> (r: (
        ConnectionLoopState<R>,
        Vec<ConnectionAction<R>>,
    ))
        requires
            !(self is Initializing),
        ensures
            received(self, maybe_message, r),
    {
        match self {
            ConnectionLoopState::Open { pong_received } => match maybe_message {
                None => ConnectionLoopState::close_open(Error::RemoteUnexpectedlyClosedConnection),
                Some(Err(error)) => ConnectionLoopState::close_open(error),
                Some(Ok(irc_message)) => {
                    let server_message = ServerMessage::from_raw(irc_message);
                    let mut actions: Vec<ConnectionAction<R>> = Vec::new();
                    let is_ping = matches!(server_message, ServerMessage::Ping(_));
                    let is_pong = matches!(server_message, ServerMessage::Pong(_));
                    let is_reconnect = matches!(server_message, ServerMessage::Reconnect(_));
                    actions.push(
                        ConnectionAction::Publish(
                            ConnectionIncomingMessage::IncomingMessage(Box::new(server_message)),
                        ),
                    );
                    if is_ping {
                        actions.push(
                            ConnectionAction::Write(
                                one_param_message("PONG", "tmi.twitch.tv".to_owned()),
                                None,
                            ),
                        );
                        (ConnectionLoopState::Open { pong_received }, actions)
                    } else if is_pong {
                        (ConnectionLoopState::Open { pong_received: true }, actions)
                    } else if is_reconnect {
                        actions.push(
                            ConnectionAction::Publish(ConnectionIncomingMessage::StateClosed),
                        );
                        actions.push(ConnectionAction::StopTransportTasks);
                        (
                            ConnectionLoopState::Closed { reason_for_closure: Error::ReconnectCmd },
                            actions,
                        )
                    } else {
                        (ConnectionLoopState::Open { pong_received }, actions)
                    }
                },
            },
            ConnectionLoopState::Initializing { commands_queue } => (
                ConnectionLoopState::Initializing { commands_queue },
                Vec::new(),
            ),
            ConnectionLoopState::Closed { reason_for_closure } => (
                ConnectionLoopState::Closed { reason_for_closure },
                Vec::new(),
            ),
        }
    }

    /// It is time for a keepalive request. An open connection writes a
    /// `PING` and from now on waits for the server's sign of life; a closed
    /// one does nothing.
    pub fn send_ping(self) -> (r: (ConnectionLoopState<R>, Vec<ConnectionAction<R>>))
        requires
            !(self is Initializing),
        ensures
            pinged(self, r),
    {
        match self {
            ConnectionLoopState::Open { pong_received: _ } => {
                let mut actions: Vec<ConnectionAction<R>> = Vec::new();
                actions.push(
                    ConnectionAction::Write(
                        one_param_message("PING", "tmi.twitch.tv".to_owned()),
                        None,
                    ),
                );
                (ConnectionLoopState::Open { pong_received: false }, actions)
            },
            ConnectionLoopState::Initializing { commands_queue } => (
                ConnectionLoopState::Initializing { commands_queue },
                Vec::new(),
            ),
            ConnectionLoopState::Closed { reason_for_closure } => (
                ConnectionLoopState::Closed { reason_for_closure },
                Vec::new(),
            ),
        }
    }

    /// It is time to see whether the server answered the last keepalive
    /// request. An open connection that got no answer closes as timed out;
    /// one that got an answer stays open; a closed one stays closed.
    pub fn check_pong(self) -> (r: (ConnectionLoopState<R>, Vec<ConnectionAction<R>>))
        requires
            !(self is Initializing),
        ensures
            pong_checked(self, r),
    {
        match self {
            ConnectionLoopState::Open { pong_received } => if !pong_received {
                ConnectionLoopState::close_open(Error::PingTimeout)
            } else {
                (ConnectionLoopState::Open { pong_received }, Vec::new())
            },
            ConnectionLoopState::Initializing { commands_queue } => (
                ConnectionLoopState::Initializing { commands_queue },
                Vec::new(),
            ),
            ConnectionLoopState::Closed { reason_for_closure } => (
                ConnectionLoopState::Closed { reason_for_closure },
                Vec::new(),
            ),
        }
    }

    /// Whether the command can reach a connection in this state.
    pub fn can_process(&self, command: &ConnectionLoopCommand<R>) -> (b: bool)
        ensures
            b == accepts(*self, *command),
    {
        match self {
            ConnectionLoopState::Initializing { .. } => !matches!(
                command,
                ConnectionLoopCommand::IncomingMessage(_) | ConnectionLoopCommand::SendPing
                    | ConnectionLoopCommand::CheckPong
            ),
            ConnectionLoopState::Open { .. } => !matches!(
                command,
                ConnectionLoopCommand::TransportInitFinished(_)
            ),
            ConnectionLoopState::Closed { .. } => true,
        }
    }

    /// One step of the state machine: the state after the command, and what
    /// is to be done. A step never leads back: a closed connection stays
    /// closed for the cause it closed for, and an open one never
    /// initializes again.
    pub fn process_command(self, command: ConnectionLoopCommand<R>) -> (r: (
        ConnectionLoopState<R>,
        Vec<ConnectionAction<R>>,
    ))
        requires
            accepts(self, command),
        ensures
            match command {
                ConnectionLoopCommand::SendMessage(message, reply_sender) => sent(
                    self,
                    message,
                    reply_sender,
                    r,
                ),
                ConnectionLoopCommand::TransportInitFinished(init_result) => initialized(
                    self,
                    init_result,
                    r,
                ),
                ConnectionLoopCommand::SendError(error) => send_failed(self, error, r),
                ConnectionLoopCommand::IncomingMessage(maybe_message) => received(
                    self,
                    maybe_message,
                    r,
                ),
                ConnectionLoopCommand::SendPing => pinged(self, r),
                ConnectionLoopCommand::CheckPong => pong_checked(self, r),
            },
            self is Closed ==> r.0 == self,
            self is Open ==> !(r.0 is Initializing),
    {
        match command {
            ConnectionLoopCommand::SendMessage(message, reply_sender) => self.send_message(
                message,
                reply_sender,
            ),
            ConnectionLoopCommand::TransportInitFinished(init_result) => {
                self.on_transport_init_finished(init_result)
            },
            ConnectionLoopCommand::SendError(error) => self.on_send_error(error),
            ConnectionLoopCommand::IncomingMessage(maybe_msg) => self.on_incoming_message(
                maybe_msg,
            ),
            ConnectionLoopCommand::SendPing => self.send_ping(),
            ConnectionLoopCommand::CheckPong => self.check_pong(),
        }
    }
}

} // verus!
