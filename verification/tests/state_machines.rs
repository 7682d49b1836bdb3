use hypeline::irc::client::{ClientLoopCommand, ConnectionPool, PoolAction, PoolConnection};
use hypeline::irc::config::ClientConfig;
use hypeline::irc::connection::{
    ConnectionAction, ConnectionIncomingMessage, ConnectionLoopCommand, ConnectionLoopState,
};
use hypeline::irc::error::Error;
use hypeline::irc::message::server::ServerMessage;
use hypeline::irc::message::{AsRawIrc, IrcMessage, IrcParseError};

fn raw(line: &str) -> IrcMessage {
    IrcMessage::parse(line).unwrap()
}

fn config() -> ClientConfig {
    ClientConfig::new("login".to_owned(), "token".to_owned())
}

fn written<R: std::fmt::Debug>(action: &ConnectionAction<R>) -> String {
    match action {
        ConnectionAction::Write(message, _) => message.as_raw_irc(),
        other => panic!("not a write: {:?}", other),
    }
}

fn open_state() -> ConnectionLoopState<u32> {
    let state: ConnectionLoopState<u32> = ConnectionLoopState::new();
    let (state, _) =
        state.on_transport_init_finished(Ok(("login".to_owned(), "token".to_owned())));
    state
}

#[test]
fn default_limits() {
    let config = config();
    assert_eq!(config.login, "login");
    assert_eq!(config.token, "token");
    assert_eq!(config.max_channels_per_connection, 90);
    assert_eq!(config.max_waiting_messages_per_connection, 5);
    assert_eq!(config.connection_rate_limit, 1);
    assert_eq!(config.new_connection_every, 2);
    assert_eq!(config.connect_timeout, 20);
}

#[test]
fn initializing_queues_and_flushes_after_the_handshake() {
    let state: ConnectionLoopState<u32> = ConnectionLoopState::new();
    let (state, actions) = state.send_message(raw("JOIN #a"), None);
    assert!(actions.is_empty());
    let (state, actions) = state.send_message(raw("JOIN #b"), Some(7));
    assert!(actions.is_empty());
    assert!(state.can_process(&ConnectionLoopCommand::SendError("x".to_owned())));
    assert!(!state.can_process(&ConnectionLoopCommand::SendPing));
    assert!(!state.can_process(&ConnectionLoopCommand::CheckPong));
    assert!(!state.can_process(&ConnectionLoopCommand::IncomingMessage(None)));
    let (state, actions) = state.process_command(ConnectionLoopCommand::TransportInitFinished(Ok(
        ("me".to_owned(), "secret".to_owned()),
    )));
    assert!(matches!(state, ConnectionLoopState::Open { pong_received: false }));
    assert_eq!(actions.len(), 6);
    assert!(matches!(actions[0], ConnectionAction::StartTransportTasks));
    assert_eq!(written(&actions[1]), "CAP REQ :twitch.tv/tags twitch.tv/commands");
    assert_eq!(written(&actions[2]), "PASS oauth:secret");
    assert_eq!(written(&actions[3]), "NICK me");
    assert_eq!(written(&actions[4]), "JOIN #a");
    assert_eq!(written(&actions[5]), "JOIN #b");
    assert!(matches!(actions[4], ConnectionAction::Write(_, None)));
    assert!(matches!(actions[5], ConnectionAction::Write(_, Some(7))));
    assert!(!state.can_process(&ConnectionLoopCommand::TransportInitFinished(Err(
        Error::ConnectTimeout
    ))));
}

#[test]
fn failed_connect_answers_every_waiting_sender() {
    let state: ConnectionLoopState<u32> = ConnectionLoopState::new();
    let (state, _) = state.send_message(raw("JOIN #a"), Some(1));
    let (state, _) = state.send_message(raw("JOIN #b"), None);
    let (state, _) = state.send_message(raw("JOIN #c"), Some(3));
    let (state, actions) = state.on_transport_init_finished(Err(Error::ConnectTimeout));
    assert!(matches!(
        state,
        ConnectionLoopState::Closed { reason_for_closure: Error::ConnectTimeout }
    ));
    assert_eq!(actions.len(), 3);
    assert!(matches!(actions[0], ConnectionAction::Reply(1, Error::ConnectTimeout)));
    assert!(matches!(actions[1], ConnectionAction::Reply(3, Error::ConnectTimeout)));
    assert!(matches!(
        actions[2],
        ConnectionAction::Publish(ConnectionIncomingMessage::StateClosed)
    ));
}

#[test]
fn open_writes_what_is_sent() {
    let (state, actions) = open_state().send_message(raw("PRIVMSG #a :hi"), Some(9));
    assert!(matches!(state, ConnectionLoopState::Open { pong_received: false }));
    assert_eq!(actions.len(), 1);
    assert_eq!(written(&actions[0]), "PRIVMSG #a hi");
    assert!(matches!(actions[0], ConnectionAction::Write(_, Some(9))));
}

#[test]
fn server_ping_is_answered_with_one_pong() {
    let (state, actions) =
        open_state().process_command(ConnectionLoopCommand::IncomingMessage(Some(Ok(raw(
            "PING :tmi.twitch.tv",
        )))));
    assert!(matches!(state, ConnectionLoopState::Open { pong_received: false }));
    assert_eq!(actions.len(), 2);
    assert!(matches!(
        &actions[0],
        ConnectionAction::Publish(ConnectionIncomingMessage::IncomingMessage(m))
            if matches!(**m, ServerMessage::Ping(_))
    ));
    assert_eq!(written(&actions[1]), "PONG tmi.twitch.tv");
    let writes = actions.iter().filter(|a| matches!(a, ConnectionAction::Write(..))).count();
    assert_eq!(writes, 1);
}

#[test]
fn keepalive_without_answer_closes_the_connection() {
    let (state, actions) = open_state().send_ping();
    assert!(matches!(state, ConnectionLoopState::Open { pong_received: false }));
    assert_eq!(actions.len(), 1);
    assert_eq!(written(&actions[0]), "PING tmi.twitch.tv");
    let (state, actions) = state.check_pong();
    assert!(matches!(
        state,
        ConnectionLoopState::Closed { reason_for_closure: Error::PingTimeout }
    ));
    assert_eq!(actions.len(), 2);
    assert!(matches!(
        actions[0],
        ConnectionAction::Publish(ConnectionIncomingMessage::StateClosed)
    ));
    assert!(matches!(actions[1], ConnectionAction::StopTransportTasks));
}

#[test]
fn keepalive_with_answer_keeps_the_connection() {
    let (state, _) = open_state().send_ping();
    let (state, actions) =
        state.on_incoming_message(Some(Ok(raw(":tmi.twitch.tv PONG tmi.twitch.tv :x"))));
    assert!(matches!(state, ConnectionLoopState::Open { pong_received: true }));
    assert_eq!(actions.len(), 1);
    let (state, actions) = state.check_pong();
    assert!(matches!(state, ConnectionLoopState::Open { pong_received: true }));
    assert!(actions.is_empty());
    let (state, _) = state.send_ping();
    assert!(matches!(state, ConnectionLoopState::Open { pong_received: false }));
}

#[test]
fn reconnect_directive_closes_the_connection() {
    let (state, actions) =
        open_state().on_incoming_message(Some(Ok(raw(":tmi.twitch.tv RECONNECT"))));
    assert!(matches!(
        state,
        ConnectionLoopState::Closed { reason_for_closure: Error::ReconnectCmd }
    ));
    assert_eq!(actions.len(), 3);
    assert!(matches!(
        &actions[0],
        ConnectionAction::Publish(ConnectionIncomingMessage::IncomingMessage(m))
            if matches!(**m, ServerMessage::Reconnect(_))
    ));
    assert!(matches!(
        actions[1],
        ConnectionAction::Publish(ConnectionIncomingMessage::StateClosed)
    ));
    assert!(matches!(actions[2], ConnectionAction::StopTransportTasks));
}

#[test]
fn unknown_and_faulty_lines_are_still_published() {
    for line in [":tmi.twitch.tv 372 me :You are in a maze", "JOIN #nobody"] {
        let (state, actions) = open_state().on_incoming_message(Some(Ok(raw(line))));
        assert!(matches!(state, ConnectionLoopState::Open { .. }));
        assert_eq!(actions.len(), 1);
        match &actions[0] {
            ConnectionAction::Publish(ConnectionIncomingMessage::IncomingMessage(m)) => {
                assert!(matches!(**m, ServerMessage::Generic(_)));
                assert_eq!(m.source(), &raw(line));
            }
            other => panic!("{:?}", other),
        }
    }
}

#[test]
fn read_failures_close_the_connection() {
    let (state, actions) = open_state().on_incoming_message(None);
    assert!(matches!(
        state,
        ConnectionLoopState::Closed {
            reason_for_closure: Error::RemoteUnexpectedlyClosedConnection
        }
    ));
    assert_eq!(actions.len(), 2);
    let (state, _) = open_state()
        .on_incoming_message(Some(Err(Error::IrcParse(IrcParseError::MalformedCommand))));
    assert!(matches!(
        state,
        ConnectionLoopState::Closed {
            reason_for_closure: Error::IrcParse(IrcParseError::MalformedCommand)
        }
    ));
    let (state, _) = open_state().on_send_error("broken pipe".to_owned());
    match state {
        ConnectionLoopState::Closed { reason_for_closure } => {
            assert_eq!(reason_for_closure, Error::Outgoing("broken pipe".to_owned()));
            assert_eq!(
                reason_for_closure.message(),
                "Error received while trying to send message(s) out: broken pipe"
            );
        }
        other => panic!("{:?}", other),
    }
}

#[test]
fn closed_answers_with_the_cause_and_stays_closed() {
    let (state, _) = open_state().on_incoming_message(None);
    let (state, actions) = state.send_message(raw("JOIN #a"), Some(4));
    assert_eq!(actions.len(), 1);
    assert!(matches!(
        actions[0],
        ConnectionAction::Reply(4, Error::RemoteUnexpectedlyClosedConnection)
    ));
    let (state, actions) = state.send_message(raw("JOIN #a"), None);
    assert!(actions.is_empty());
    let (state, actions) = state.process_command(ConnectionLoopCommand::SendPing);
    assert!(actions.is_empty());
    let (state, actions) = state.process_command(ConnectionLoopCommand::CheckPong);
    assert!(actions.is_empty());
    let (state, actions) = state.process_command(ConnectionLoopCommand::IncomingMessage(Some(Ok(
        raw("PING"),
    ))));
    assert!(actions.is_empty());
    let (state, actions) = state.process_command(ConnectionLoopCommand::TransportInitFinished(Ok(
        ("a".to_owned(), "b".to_owned()),
    )));
    assert!(actions.is_empty());
    let (state, actions) = state.process_command(ConnectionLoopCommand::SendError("x".to_owned()));
    assert!(actions.is_empty());
    assert!(matches!(
        state,
        ConnectionLoopState::Closed {
            reason_for_closure: Error::RemoteUnexpectedlyClosedConnection
        }
    ));
}

#[test]
fn error_sentences() {
    assert_eq!(
        Error::Connect("refused".to_owned()).message(),
        "Underlying transport failed to connect: refused"
    );
    assert_eq!(
        Error::ConnectTimeout.message(),
        "Underlying transport failed to connect: Connect timed out"
    );
    assert_eq!(
        Error::Incoming("reset".to_owned()).message(),
        "Error received from incoming stream of messages: reset"
    );
    assert_eq!(
        Error::IrcParse(IrcParseError::MalformedCommand).message(),
        "Incoming message was not valid IRC: Expected command to only consist of alphabetic or numeric characters"
    );
    assert_eq!(Error::ReconnectCmd.message(), "Received RECONNECT command by IRC server");
    assert_eq!(Error::PingTimeout.message(), "Did not receive a PONG back after sending PING");
    assert_eq!(
        Error::RemoteUnexpectedlyClosedConnection.message(),
        "Remote server unexpectedly closed connection"
    );
}

fn sent(action: &PoolAction<u32>) -> (usize, String) {
    match action {
        PoolAction::Send { connection_id, message } => (*connection_id, message.as_raw_irc()),
        other => panic!("not a send: {:?}", other),
    }
}

fn confirm(pool: &mut ConnectionPool, id: usize, channel: &str) {
    let line = format!(":login!login@login.tmi.twitch.tv JOIN #{}", channel);
    let message = ConnectionIncomingMessage::IncomingMessage(Box::new(ServerMessage::from_raw(
        raw(&line),
    )));
    assert!(pool.can_take(id, &message));
    let actions: Vec<PoolAction<u32>> = pool.on_incoming_message(id, message, 0);
    assert_eq!(actions.len(), 1);
    assert!(matches!(&actions[0], PoolAction::Forward(ServerMessage::Join(_))));
}

#[test]
fn connect_opens_one_connection_once() {
    let mut pool = ConnectionPool::new(&config());
    assert!(pool.connections.is_empty());
    let actions = pool.process_command(ClientLoopCommand::Connect { return_sender: 5u32 }, 0);
    assert_eq!(actions.len(), 2);
    assert!(matches!(actions[0], PoolAction::OpenConnection { id: 0 }));
    assert!(matches!(actions[1], PoolAction::Connected(5)));
    let actions = pool.process_command(ClientLoopCommand::Connect { return_sender: 6u32 }, 0);
    assert_eq!(actions.len(), 1);
    assert!(matches!(actions[0], PoolAction::Connected(6)));
    assert_eq!(pool.connections.len(), 1);
    assert_eq!(pool.next_connection_id, 1);
}

#[test]
fn join_uses_the_open_connection_and_marks_the_channel_wanted() {
    let mut pool = ConnectionPool::new(&config());
    assert_eq!(pool.connect(), Some(0));
    let actions: Vec<PoolAction<u32>> = pool.join("forsen".to_owned(), 10);
    assert_eq!(actions.len(), 1);
    assert_eq!(sent(&actions[0]), (0, "JOIN #forsen".to_owned()));
    assert_eq!(pool.connections[0].wanted_channels, vec!["forsen".to_owned()]);
    assert!(pool.connections[0].server_channels.is_empty());
    assert_eq!(pool.connections[0].message_send_times, vec![10]);
}

#[test]
fn join_without_connection_opens_one() {
    let mut pool = ConnectionPool::new(&config());
    let actions: Vec<PoolAction<u32>> = pool.join("forsen".to_owned(), 0);
    assert_eq!(actions.len(), 2);
    assert!(matches!(actions[0], PoolAction::OpenConnection { id: 0 }));
    assert_eq!(sent(&actions[1]), (0, "JOIN #forsen".to_owned()));
}

#[test]
fn join_of_a_confirmed_channel_writes_nothing() {
    let mut pool = ConnectionPool::new(&config());
    let _: Vec<PoolAction<u32>> = pool.join("forsen".to_owned(), 0);
    confirm(&mut pool, 0, "forsen");
    assert_eq!(pool.connections[0].server_channels, vec!["forsen".to_owned()]);
    let before = pool.clone();
    let actions: Vec<PoolAction<u32>> = pool.join("forsen".to_owned(), 1);
    assert!(actions.is_empty());
    assert_eq!(pool, before);
    let actions: Vec<PoolAction<u32>> = pool.join("forsen".to_owned(), 2);
    assert!(actions.is_empty());
    assert_eq!(pool, before);
}

#[test]
fn join_of_a_wanted_but_unconfirmed_channel_is_sent_again_on_the_same_connection() {
    let mut pool = ConnectionPool::new(&config());
    let _: Vec<PoolAction<u32>> = pool.join("a".to_owned(), 0);
    let actions: Vec<PoolAction<u32>> = pool.join("a".to_owned(), 1);
    assert_eq!(actions.len(), 1);
    assert_eq!(sent(&actions[0]), (0, "JOIN #a".to_owned()));
    assert_eq!(pool.connections.len(), 1);
    assert_eq!(pool.connections[0].wanted_channels, vec!["a".to_owned()]);
}

#[test]
fn join_goes_to_the_connection_with_room() {
    let mut config = config();
    config.max_channels_per_connection = 2;
    let mut pool = ConnectionPool::new(&config);
    let mut full = PoolConnection::new(&config, 0);
    full.wanted_channels = vec!["a".to_owned(), "b".to_owned()];
    let roomy = PoolConnection::new(&config, 1);
    pool.connections = vec![full.clone(), roomy];
    pool.next_connection_id = 2;
    assert!(!pool.connections[0].channels_limit_not_reached());
    assert!(pool.connections[1].channels_limit_not_reached());
    let actions: Vec<PoolAction<u32>> = pool.join("y".to_owned(), 3);
    assert_eq!(actions.len(), 1);
    assert_eq!(sent(&actions[0]), (1, "JOIN #y".to_owned()));
    assert_eq!(pool.connections.len(), 2);
    assert_eq!(pool.connections[0], full);
    assert_eq!(pool.connections[1].id, 1);
    assert_eq!(pool.connections[1].wanted_channels, vec!["y".to_owned()]);
}

#[test]
fn ninety_one_channels_need_two_connections() {
    let mut pool = ConnectionPool::new(&config());
    let mut opened = 0;
    for i in 0..91 {
        let actions: Vec<PoolAction<u32>> = pool.join(format!("channel{}", i), i);
        opened += actions.iter().filter(|a| matches!(a, PoolAction::OpenConnection { .. })).count();
    }
    assert_eq!(opened, 2);
    assert_eq!(pool.connections.len(), 2);
    let first = pool.connections.iter().find(|c| c.id == 0).unwrap();
    let second = pool.connections.iter().find(|c| c.id == 1).unwrap();
    assert_eq!(first.wanted_channels.len(), 90);
    assert_eq!(second.wanted_channels.len(), 1);
    assert_eq!(second.wanted_channels[0], "channel90");
}

#[test]
fn used_connection_goes_to_the_back() {
    let mut config = config();
    config.max_channels_per_connection = 5;
    let mut pool = ConnectionPool::new(&config);
    pool.connections = vec![PoolConnection::new(&config, 0), PoolConnection::new(&config, 1)];
    pool.next_connection_id = 2;
    let actions: Vec<PoolAction<u32>> = pool.join("a".to_owned(), 0);
    assert_eq!(sent(&actions[0]).0, 0);
    let actions: Vec<PoolAction<u32>> = pool.join("b".to_owned(), 0);
    assert_eq!(sent(&actions[0]).0, 1);
    let actions: Vec<PoolAction<u32>> = pool.join("c".to_owned(), 0);
    assert_eq!(sent(&actions[0]).0, 0);
    let ids: Vec<usize> = pool.connections.iter().map(|c| c.id).collect();
    assert_eq!(ids, vec![1, 0]);
}

#[test]
fn part_is_sent_where_the_channel_is_wanted() {
    let mut pool = ConnectionPool::new(&config());
    let actions: Vec<PoolAction<u32>> = pool.part("a".to_owned(), 0);
    assert!(actions.is_empty());
    let _: Vec<PoolAction<u32>> = pool.join("a".to_owned(), 0);
    let _: Vec<PoolAction<u32>> = pool.join("b".to_owned(), 1);
    let actions = pool.process_command(
        ClientLoopCommand::<u32>::Part { channel_login: "a".to_owned() },
        2,
    );
    assert_eq!(actions.len(), 1);
    assert_eq!(sent(&actions[0]), (0, "PART #a".to_owned()));
    assert_eq!(pool.connections[0].wanted_channels, vec!["b".to_owned()]);
    assert_eq!(pool.connections[0].message_send_times, vec![0, 1, 2]);
    let actions: Vec<PoolAction<u32>> = pool.part("a".to_owned(), 3);
    assert!(actions.is_empty());
}

#[test]
fn send_times_are_bounded() {
    let config = config();
    let mut connection = PoolConnection::new(&config, 0);
    assert_eq!(connection.max_send_times, 10);
    for now in 0..25 {
        connection.register_sent_message(now);
    }
    assert_eq!(connection.message_send_times, (15..25).collect::<Vec<u64>>());
}

#[test]
fn server_part_takes_the_channel_from_the_confirmed_ones() {
    let mut pool = ConnectionPool::new(&config());
    let _: Vec<PoolAction<u32>> = pool.join("a".to_owned(), 0);
    confirm(&mut pool, 0, "a");
    confirm(&mut pool, 0, "a");
    assert_eq!(pool.connections[0].server_channels, vec!["a".to_owned()]);
    let message = ServerMessage::from_raw(raw(":login!login@login.tmi.twitch.tv PART #a"));
    let actions: Vec<PoolAction<u32>> = pool.on_server_message(0, message);
    assert_eq!(actions.len(), 1);
    assert!(pool.connections[0].server_channels.is_empty());
    assert_eq!(pool.connections[0].wanted_channels, vec!["a".to_owned()]);
}

const WHISPER: &str = "@badges=;color=;display-name=A;emotes=;user-id=1 :a!a@a.tmi.twitch.tv WHISPER me :psst";

#[test]
fn whispers_are_forwarded_from_one_connection_only() {
    let mut pool = ConnectionPool::new(&config());
    pool.connections =
        vec![PoolConnection::new(&config(), 0), PoolConnection::new(&config(), 1)];
    pool.next_connection_id = 2;
    let whisper = || ServerMessage::from_raw(raw(WHISPER));
    assert!(matches!(whisper(), ServerMessage::Whisper(_)));
    let actions: Vec<PoolAction<u32>> = pool.on_server_message(1, whisper());
    assert_eq!(actions.len(), 1);
    assert_eq!(pool.current_whisper_connection_id, Some(1));
    let actions: Vec<PoolAction<u32>> = pool.on_server_message(0, whisper());
    assert!(actions.is_empty());
    let actions: Vec<PoolAction<u32>> = pool.on_server_message(1, whisper());
    assert_eq!(actions.len(), 1);
    let actions: Vec<PoolAction<u32>> = pool.on_connection_closed(1, 0);
    assert!(matches!(actions[0], PoolAction::CloseConnection { id: 1 }));
    assert_eq!(pool.current_whisper_connection_id, None);
    let actions: Vec<PoolAction<u32>> = pool.on_server_message(0, whisper());
    assert_eq!(actions.len(), 1);
    assert_eq!(pool.current_whisper_connection_id, Some(0));
}

#[test]
fn closed_connection_has_its_channels_joined_anew() {
    let mut config = config();
    config.max_channels_per_connection = 2;
    let mut pool = ConnectionPool::new(&config);
    for channel in ["a", "b", "c"] {
        let _: Vec<PoolAction<u32>> = pool.join(channel.to_owned(), 0);
    }
    assert_eq!(pool.connections.len(), 2);
    confirm(&mut pool, 0, "a");
    assert!(pool.has_connection(0));
    assert!(!pool.has_connection(7));
    assert!(!pool.can_take(7, &ConnectionIncomingMessage::StateClosed));

    let (state, published) = open_state().check_pong();
    assert!(matches!(state, ConnectionLoopState::Closed { .. }));
    let closed = match published.into_iter().next().unwrap() {
        ConnectionAction::Publish(message) => message,
        other => panic!("{:?}", other),
    };
    assert!(pool.can_take(0, &closed));
    let actions = pool.process_command(
        ClientLoopCommand::<u32>::IncomingMessage {
            source_connection_id: 0,
            message: Box::new(closed),
        },
        5,
    );
    assert_eq!(actions.len(), 4);
    assert!(matches!(actions[0], PoolAction::CloseConnection { id: 0 }));
    assert_eq!(sent(&actions[1]), (1, "JOIN #a".to_owned()));
    assert!(matches!(actions[2], PoolAction::OpenConnection { id: 2 }));
    assert_eq!(sent(&actions[3]), (2, "JOIN #b".to_owned()));
    assert!(!pool.has_connection(0));
    let mut wanted: Vec<String> =
        pool.connections.iter().flat_map(|c| c.wanted_channels.clone()).collect();
    wanted.sort();
    assert_eq!(wanted, vec!["a".to_owned(), "b".to_owned(), "c".to_owned()]);
}

#[test]
fn closing_the_last_connection_opens_a_new_one() {
    let mut pool = ConnectionPool::new(&config());
    assert_eq!(pool.connect(), Some(0));
    let actions: Vec<PoolAction<u32>> = pool.on_connection_closed(0, 0);
    assert_eq!(actions.len(), 2);
    assert!(matches!(actions[0], PoolAction::CloseConnection { id: 0 }));
    assert!(matches!(actions[1], PoolAction::OpenConnection { id: 1 }));
    assert_eq!(pool.connections.len(), 1);
    assert_eq!(pool.connections[0].id, 1);
}
