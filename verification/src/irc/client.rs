//! The pool of connections behind one client: which connection a channel is
//! joined on, and what the pool does on each command that reaches it.
//!
//! The pool decides; it performs nothing itself. Each step hands back the
//! actions to perform: connections to open or close, lines to send on one
//! of them, messages to forward. `R` is the handle by which the caller of
//! `connect` is answered; the pool only carries it.

use vstd::prelude::*;
use crate::irc::config::ClientConfig;
use crate::irc::connection::{simple_view, ConnectionIncomingMessage};
use crate::irc::message::server::ServerMessage;
use crate::irc::message::{strings_view, IrcMessage, IrcMessageView};
use crate::irc::outgoing::{channel_param, join_message, part_message};
use crate::irc::text::{contains_string, str_eq};

verus! {

/// Index of the first element of `s` that satisfies `p`, or the length of
/// `s`.
pub open spec fn first_index<T>(s: Seq<T>, p: spec_fn(T) -> bool) -> int
    decreases s.len(),
{
    if s.len() == 0 {
        0
    } else if p(s[0]) {
        0
    } else {
        1 + first_index(s.drop_first(), p)
    }
}

/// What `first_index` returns is the least index whose element satisfies
/// `p`.
pub proof fn lemma_first_index<T>(s: Seq<T>, p: spec_fn(T) -> bool)
    ensures
        0 <= first_index(s, p) <= s.len(),
        first_index(s, p) < s.len() ==> p(s[first_index(s, p)]),
        forall|j: int| 0 <= j < first_index(s, p) ==> !p(s[j]),
    decreases s.len(),
{
    if s.len() != 0 && !p(s[0]) {
        let t = s.drop_first();
        lemma_first_index(t, p);
        assert forall|j: int| 0 <= j < first_index(s, p) implies !p(s[j]) by {
            if j > 0 {
                assert(t[j - 1] == s[j]);
            }
        }
    }
}

/// An index whose element satisfies `p`, with none before it that does, is
/// the first index.
pub proof fn lemma_first_index_is<T>(s: Seq<T>, p: spec_fn(T) -> bool, i: int)
    requires
        0 <= i <= s.len(),
        i < s.len() ==> p(s[i]),
        forall|j: int| 0 <= j < i ==> !p(s[j]),
    ensures
        first_index(s, p) == i,
    decreases s.len(),
{
    if s.len() != 0 && i > 0 {
        let t = s.drop_first();
        assert(!p(s[0]));
        assert forall|j: int| 0 <= j < i - 1 implies !p(t[j]) by {
            assert(t[j] == s[j + 1]);
        }
        lemma_first_index_is(t, p, i - 1);
    }
}

/// The bookkeeping of one connection of the pool.
#[derive(Debug, Clone, PartialEq, Eq)]
pub struct PoolConnection {
    pub id: usize,
    /// The channels that the client wants joined on this connection.
    pub wanted_channels: Vec<String>,
    /// The channels that the server has confirmed as joined.
    pub server_channels: Vec<String>,
    /// When the last lines were sent, oldest first.
    pub message_send_times: Vec<u64>,
    /// How many channels the connection may be asked to join.
    pub max_channels: usize,
    /// How many send times are kept.
    pub max_send_times: usize,
}

/// The bookkeeping of a connection as plain values.
pub struct PoolConnectionView {
    pub id: usize,
    pub wanted: Seq<Seq<char>>,
    pub server: Seq<Seq<char>>,
    pub send_times: Seq<u64>,
    pub max_channels: usize,
    pub max_send_times: usize,
}

impl View for PoolConnection {
    type V = PoolConnectionView;

    open spec fn view(&self) -> PoolConnectionView {
        PoolConnectionView {
            id: self.id,
            wanted: strings_view(self.wanted_channels@),
            server: strings_view(self.server_channels@),
            send_times: self.message_send_times@,
            max_channels: self.max_channels,
            max_send_times: self.max_send_times,
        }
    }
}

/// Twice `n`, or the greatest number where that does not fit.
pub open spec fn doubled(n: usize) -> usize {
    if n <= usize::MAX / 2 {
        (n * 2) as usize
    } else {
        usize::MAX
    }
}

/// A connection that was just made: it wants no channel, has none
/// confirmed, and has sent nothing.
pub open spec fn fresh_connection(
    id: usize,
    max_channels: usize,
    max_send_times: usize,
) -> PoolConnectionView {
    PoolConnectionView {
        id,
        wanted: Seq::empty(),
        server: Seq::empty(),
        send_times: Seq::empty(),
        max_channels,
        max_send_times,
    }
}

/// The send times after one more line was sent at `now`: the new time goes
/// last, and the oldest one leaves where more than the kept number would
/// stay.
pub open spec fn with_send_time(times: Seq<u64>, max: usize, now: u64) -> Seq<u64> {
    if times.len() + 1 > max {
        times.push(now).skip(1)
    } else {
        times.push(now)
    }
}

/// The connection may be asked to join one more channel.
pub open spec fn has_room(c: PoolConnectionView) -> bool {
    c.wanted.len() < c.max_channels
}

/// The connections that want the channel.
pub open spec fn wanting(channel: Seq<char>) -> spec_fn(PoolConnectionView) -> bool {
    |c: PoolConnectionView| c.wanted.contains(channel)
}

/// The connections on which the channel is wanted and confirmed.
pub open spec fn confirming(channel: Seq<char>) -> spec_fn(PoolConnectionView) -> bool {
    |c: PoolConnectionView| c.wanted.contains(channel) && c.server.contains(channel)
}

/// The connections that may be asked to join one more channel.
pub open spec fn roomy() -> spec_fn(PoolConnectionView) -> bool {
    |c: PoolConnectionView| has_room(c)
}

/// The connections with the given id.
pub open spec fn identified(id: usize) -> spec_fn(PoolConnectionView) -> bool {
    |c: PoolConnectionView| c.id == id
}

/// The list with `item` in it: unchanged where it holds the item, with the
/// item at its end where it does not.
pub open spec fn with_item(list: Seq<Seq<char>>, item: Seq<char>) -> Seq<Seq<char>> {
    if list.contains(item) {
        list
    } else {
        list.push(item)
    }
}

/// The texts that are `item`.
pub open spec fn is_item(item: Seq<char>) -> spec_fn(Seq<char>) -> bool {
    |x: Seq<char>| x == item
}

/// Index of the first occurrence of `item` in `list`, or the length of
/// `list`.
pub open spec fn item_index(list: Seq<Seq<char>>, item: Seq<char>) -> int {
    first_index(list, is_item(item))
}

/// The list without the first occurrence of `item`.
pub open spec fn without_item(list: Seq<Seq<char>>, item: Seq<char>) -> Seq<Seq<char>> {
    if item_index(list, item) < list.len() {
        list.remove(item_index(list, item))
    } else {
        list
    }
}

/// The line that asks the server to join a channel.
pub open spec fn join_line(channel: Seq<char>) -> IrcMessageView {
    simple_view("JOIN"@, seq![channel_param(channel)])
}

/// The line that asks the server to part a channel.
pub open spec fn part_line(channel: Seq<char>) -> IrcMessageView {
    simple_view("PART"@, seq![channel_param(channel)])
}

impl PoolConnection {
    /// The bookkeeping of a new connection under the limits of `config`. It
    /// keeps twice as many send times as messages may wait.
    pub fn new(config: &ClientConfig, id: usize) -> (c: PoolConnection)
        ensures
            connection_wf(c@),
            c@ == fresh_connection(
                id,
                config.max_channels_per_connection,
                doubled(config.max_waiting_messages_per_connection),
            ),
    {
        let max_send_times = if config.max_waiting_messages_per_connection <= usize::MAX / 2 {
            config.max_waiting_messages_per_connection * 2
        } else {
            usize::MAX
        };
        let c = PoolConnection {
            id,
            wanted_channels: Vec::new(),
            server_channels: Vec::new(),
            message_send_times: Vec::new(),
            max_channels: config.max_channels_per_connection,
            max_send_times,
        };
        proof {
            assert(c@.wanted =~= Seq::<Seq<char>>::empty());
            assert(c@.server =~= Seq::<Seq<char>>::empty());
        }
        c
    }

    /// Notes that a line was sent at `now`.
    pub fn register_sent_message(&mut self, now: u64)
        ensures
            connection_wf(old(self)@) ==> connection_wf(final(self)@),
            final(self)@ == (PoolConnectionView {
                send_times: with_send_time(old(self)@.send_times, old(self)@.max_send_times, now),
                ..old(self)@
            }),
    {
        self.message_send_times.push(now);
        if self.message_send_times.len() > self.max_send_times {
            self.message_send_times.remove(0);
            proof {
                assert(self.message_send_times@ =~= old(self).message_send_times@.push(now).skip(
                    1,
                ));
            }
        }
    }

    /// Whether the connection may be asked to join one more channel.
    pub fn channels_limit_not_reached(&self) -> (b: bool)
        ensures
            b == has_room(self@),
    {
        self.wanted_channels.len() < self.max_channels
    }
}

/// Puts `item` into `list` unless it is there.
pub fn insert_item(list: &mut Vec<String>, item: String)
    ensures
        strings_view(final(list)@) == with_item(strings_view(old(list)@), item@),
{
    if !contains_string(list, item.as_str()) {
        let ghost before_push = strings_view(list@);
        list.push(item);
        proof {
            assert(strings_view(list@) =~= before_push.push(item@));
        }
    }
}

/// Takes the first occurrence of `item` out of `list`.
pub fn remove_item(list: &mut Vec<String>, item: &str)
    ensures
        strings_view(final(list)@) == without_item(strings_view(old(list)@), item@),
{
    let ghost view = strings_view(list@);
    let mut i: usize = 0;
    while i < list.len() && !str_eq(list[i].as_str(), item)
        invariant
            i <= list.len(),
            *list == *old(list),
            view == strings_view(list@),
            forall|j: int| 0 <= j < i ==> !is_item(item@)(view[j]),
        decreases list.len() - i,
    {
        proof {
            assert(view[i as int] == list@[i as int]@);
        }
        i += 1;
    }
    proof {
        lemma_first_index_is(view, is_item(item@), i as int);
    }
    if i < list.len() {
        list.remove(i);
        proof {
            assert(strings_view(list@) =~= view.remove(i as int));
        }
    }
}

/// What reaches the pool.
#[derive(Debug)]
pub enum ClientLoopCommand<R> {
    /// Make sure that there is a connection, and answer by the handle.
    Connect { return_sender: R },
    /// Join the channel.
    Join { channel_login: String },
    /// Part the channel.
    Part { channel_login: String },
    /// A connection has published something.
    IncomingMessage { source_connection_id: usize, message: Box<ConnectionIncomingMessage> },
}

/// What the owner of the pool is to do after a step.
#[derive(Debug)]
pub enum PoolAction<R> {
    /// Open a connection, and know it by the id.
    OpenConnection { id: usize },
    /// Let go of the connection with the id.
    CloseConnection { id: usize },
    /// Send the line on the connection with the id.
    Send { connection_id: usize, message: IrcMessage },
    /// Hand the message on to the client's subscribers.
    Forward(ServerMessage),
    /// Answer the caller of `connect`.
    Connected(R),
}

/// An action as plain values.
pub enum PoolActionView<R> {
    OpenConnection { id: usize },
    CloseConnection { id: usize },
    Send { connection_id: usize, message: IrcMessageView },
    Forward(ServerMessage),
    Connected(R),
}

impl<R> View for PoolAction<R> {
    type V = PoolActionView<R>;

    open spec fn view(&self) -> PoolActionView<R> {
        match *self {
            PoolAction::OpenConnection { id } => PoolActionView::OpenConnection { id },
            PoolAction::CloseConnection { id } => PoolActionView::CloseConnection { id },
            PoolAction::Send { connection_id, message } => PoolActionView::Send {
                connection_id,
                message: message@,
            },
            PoolAction::Forward(m) => PoolActionView::Forward(m),
            PoolAction::Connected(r) => PoolActionView::Connected(r),
        }
    }
}

/// The views of a sequence of actions.
pub open spec fn actions_view<R>(v: Seq<PoolAction<R>>) -> Seq<PoolActionView<R>> {
    Seq::new(v.len(), |i: int| v[i]@)
}

/// The views of a sequence of connections.
pub open spec fn connections_view(v: Seq<PoolConnection>) -> Seq<PoolConnectionView> {
    Seq::new(v.len(), |i: int| v[i]@)
}

/// The connections of a client, in the order in which they are asked for
/// room: a connection that was just used goes to the back.
#[derive(Debug, Clone, PartialEq, Eq)]
pub struct ConnectionPool {
    pub max_channels_per_connection: usize,
    pub max_send_times: usize,
    /// The id that the next new connection gets.
    pub next_connection_id: usize,
    /// The connection whose whispers are forwarded, once one has whispered.
    pub current_whisper_connection_id: Option<usize>,
    pub connections: Vec<PoolConnection>,
}

/// A pool as plain values.
pub struct PoolView {
    pub max_channels: usize,
    pub max_send_times: usize,
    pub next_connection_id: usize,
    pub current_whisper_connection_id: Option<usize>,
    pub connections: Seq<PoolConnectionView>,
}

impl View for ConnectionPool {
    type V = PoolView;

    open spec fn view(&self) -> PoolView {
        PoolView {
            max_channels: self.max_channels_per_connection,
            max_send_times: self.max_send_times,
            next_connection_id: self.next_connection_id,
            current_whisper_connection_id: self.current_whisper_connection_id,
            connections: connections_view(self.connections@),
        }
    }
}

/// The bookkeeping of a connection is in order: it holds no channel twice,
/// among the wanted ones or among the confirmed ones, and keeps no more send
/// times than it may.
pub open spec fn connection_wf(c: PoolConnectionView) -> bool {
    c.wanted.no_duplicates() && c.server.no_duplicates() && c.send_times.len()
        <= c.max_send_times
}

/// The pool is in order: each connection is, and no channel is wanted on
/// two connections.
pub open spec fn pool_wf(p: PoolView) -> bool {
    &&& forall|i: int| 0 <= i < p.connections.len() ==> connection_wf(#[trigger] p.connections[i])
    &&& forall|i: int, j: int, channel: Seq<char>|
        0 <= i < j < p.connections.len() ==> !(#[trigger] p.connections[i].wanted.contains(
            channel,
        ) && #[trigger] p.connections[j].wanted.contains(channel))
}

/// The id after `id`; after the greatest comes zero.
pub open spec fn following_id(id: usize) -> usize {
    if id == usize::MAX {
        0
    } else {
        (id + 1) as usize
    }
}

/// The pool with one more connection, made new, at the back.
pub open spec fn with_new_connection(p: PoolView) -> PoolView {
    PoolView {
        connections: p.connections.push(
            fresh_connection(p.next_connection_id, p.max_channels, p.max_send_times),
        ),
        next_connection_id: following_id(p.next_connection_id),
        ..p
    }
}

/// The pool after `connect`: it has a connection, a new one if it had none.
pub open spec fn after_connect(p: PoolView) -> PoolView {
    if p.connections.len() == 0 {
        with_new_connection(p)
    } else {
        p
    }
}

/// The channel is wanted and confirmed on some connection.
pub open spec fn is_joined(p: PoolView, channel: Seq<char>) -> bool {
    first_index(p.connections, confirming(channel)) < p.connections.len()
}

/// The channel is wanted on some connection.
pub open spec fn is_wanted(p: PoolView, channel: Seq<char>) -> bool {
    first_index(p.connections, wanting(channel)) < p.connections.len()
}

/// The connection that a join of the channel goes to: the first that wants
/// the channel already; if there is none, the first that has room; if there
/// is none either, no connection of the pool.
pub open spec fn join_target(p: PoolView, channel: Seq<char>) -> Option<int> {
    if is_wanted(p, channel) {
        Some(first_index(p.connections, wanting(channel)))
    } else if first_index(p.connections, roomy()) < p.connections.len() {
        Some(first_index(p.connections, roomy()))
    } else {
        None
    }
}

/// A connection after it was asked at `now` to join the channel.
pub open spec fn asked_to_join(
    c: PoolConnectionView,
    channel: Seq<char>,
    now: u64,
) -> PoolConnectionView {
    PoolConnectionView {
        wanted: with_item(c.wanted, channel),
        send_times: with_send_time(c.send_times, c.max_send_times, now),
        ..c
    }
}

/// A connection after it was asked at `now` to part the channel.
pub open spec fn asked_to_part(
    c: PoolConnectionView,
    channel: Seq<char>,
    now: u64,
) -> PoolConnectionView {
    PoolConnectionView {
        wanted: without_item(c.wanted, channel),
        send_times: with_send_time(c.send_times, c.max_send_times, now),
        ..c
    }
}

/// The pool after a join of the channel at `now`. A channel that is joined
/// changes nothing. Otherwise the connection that the join goes to, a new
/// one if it goes to none of the pool, wants the channel from now on and
/// stands at the back.
pub open spec fn after_join(p: PoolView, channel: Seq<char>, now: u64) -> PoolView {
    if is_joined(p, channel) {
        p
    } else {
        match join_target(p, channel) {
            Some(i) => PoolView {
                connections: p.connections.remove(i).push(
                    asked_to_join(p.connections[i], channel, now),
                ),
                ..p
            },
            None => PoolView {
                connections: p.connections.push(
                    asked_to_join(
                        fresh_connection(p.next_connection_id, p.max_channels, p.max_send_times),
                        channel,
                        now,
                    ),
                ),
                next_connection_id: following_id(p.next_connection_id),
                ..p
            },
        }
    }
}

/// What a join of the channel has the owner do: nothing for a channel that
/// is joined; otherwise send the join line on the connection that the join
/// goes to, after opening it where it is new.
pub open spec fn join_actions<R>(p: PoolView, channel: Seq<char>) -> Seq<PoolActionView<R>> {
    if is_joined(p, channel) {
        Seq::empty()
    } else {
        match join_target(p, channel) {
            Some(i) => seq![
                PoolActionView::Send {
                    connection_id: p.connections[i].id,
                    message: join_line(channel),
                },
            ],
            None => seq![
                PoolActionView::OpenConnection { id: p.next_connection_id },
                PoolActionView::Send {
                    connection_id: p.next_connection_id,
                    message: join_line(channel),
                },
            ],
        }
    }
}

/// The pool after a part of the channel at `now`. A channel that no
/// connection wants changes nothing. Otherwise the first connection that
/// wants it wants it no longer and stands at the back.
pub open spec fn after_part(p: PoolView, channel: Seq<char>, now: u64) -> PoolView {
    if !is_wanted(p, channel) {
        p
    } else {
        let i = first_index(p.connections, wanting(channel));
        PoolView {
            connections: p.connections.remove(i).push(
                asked_to_part(p.connections[i], channel, now),
            ),
            ..p
        }
    }
}

/// What a part of the channel has the owner do: nothing for a channel that
/// no connection wants; otherwise send the part line on the first that does.
pub open spec fn part_actions<R>(p: PoolView, channel: Seq<char>) -> Seq<PoolActionView<R>> {
    if !is_wanted(p, channel) {
        Seq::empty()
    } else {
        seq![
            PoolActionView::Send {
                connection_id: p.connections[first_index(p.connections, wanting(channel))].id,
                message: part_line(channel),
            },
        ]
    }
}

/// The pool after joining each of the channels in turn at `now`.
pub open spec fn after_joins(p: PoolView, channels: Seq<Seq<char>>, now: u64) -> PoolView
    decreases channels.len(),
{
    if channels.len() == 0 {
        p
    } else {
        after_joins(after_join(p, channels[0], now), channels.drop_first(), now)
    }
}

/// What joining each of the channels in turn has the owner do.
pub open spec fn joins_actions<R>(p: PoolView, channels: Seq<Seq<char>>, now: u64) -> Seq<
    PoolActionView<R>,
>
    decreases channels.len(),
{
    if channels.len() == 0 {
        Seq::empty()
    } else {
        join_actions::<R>(p, channels[0]) + joins_actions::<R>(
            after_join(p, channels[0], now),
            channels.drop_first(),
            now,
        )
    }
}

/// Joins change neither the limits of the pool nor the connection whose
/// whispers are forwarded.
pub proof fn lemma_after_joins_keeps(p: PoolView, channels: Seq<Seq<char>>, now: u64)
    ensures
        after_joins(p, channels, now).current_whisper_connection_id
            == p.current_whisper_connection_id,
        after_joins(p, channels, now).max_channels == p.max_channels,
        after_joins(p, channels, now).max_send_times == p.max_send_times,
    decreases channels.len(),
{
    if channels.len() > 0 {
        lemma_after_joins_keeps(after_join(p, channels[0], now), channels.drop_first(), now);
    }
}

/// The pool has a connection with the id.
pub open spec fn has_connection(p: PoolView, id: usize) -> bool {
    first_index(p.connections, identified(id)) < p.connections.len()
}

/// The pool without the first connection with the id, which it has, and
/// with each channel that this connection wanted joined anew, in their
/// order.
pub open spec fn with_channels_moved(p: PoolView, id: usize, now: u64) -> PoolView {
    let i = first_index(p.connections, identified(id));
    after_joins(
        PoolView { connections: p.connections.remove(i), ..p },
        p.connections[i].wanted,
        now,
    )
}

/// The pool after the connection with the id, which it has, has closed at
/// `now`: the connection is gone and its channels are joined anew; its
/// whispers are no longer the ones forwarded; and the pool has a
/// connection, a new one if the closed one was its last and wanted no
/// channel.
pub open spec fn after_closed(p: PoolView, id: usize, now: u64) -> PoolView {
    let moved = with_channels_moved(p, id, now);
    after_connect(
        PoolView {
            current_whisper_connection_id: if p.current_whisper_connection_id == Some(id) {
                None
            } else {
                p.current_whisper_connection_id
            },
            ..moved
        },
    )
}

/// What the closing of the connection with the id has the owner do: let go
/// of the connection, do what the joins of its channels ask for, and open
/// the new connection where the pool makes one.
pub open spec fn closed_actions<R>(p: PoolView, id: usize, now: u64) -> Seq<PoolActionView<R>> {
    let i = first_index(p.connections, identified(id));
    let rest = PoolView { connections: p.connections.remove(i), ..p };
    let moved = with_channels_moved(p, id, now);
    seq![PoolActionView::<R>::CloseConnection { id }] + joins_actions::<R>(
        rest,
        p.connections[i].wanted,
        now,
    ) + (if moved.connections.len() == 0 {
        seq![PoolActionView::<R>::OpenConnection { id: moved.next_connection_id }]
    } else {
        Seq::empty()
    })
}

/// A whisper from the connection with the id is not forwarded: another
/// connection is the one whose whispers are.
pub open spec fn drops_whisper(p: PoolView, id: usize) -> bool {
    p.current_whisper_connection_id matches Some(current) && current != id
}

/// The connections after a channel was confirmed or given up on the first
/// connection with the id, which there is.
pub open spec fn with_server_channels(
    connections: Seq<PoolConnectionView>,
    id: usize,
    server: Seq<Seq<char>>,
) -> Seq<PoolConnectionView> {
    let i = first_index(connections, identified(id));
    connections.update(i, PoolConnectionView { server, ..connections[i] })
}

/// The pool after the connection with the id has published a message. A
/// whisper that is not forwarded changes nothing. Otherwise the first
/// whisper makes its connection the one whose whispers are forwarded; a
/// join that the server confirms adds the channel to the confirmed ones of
/// the connection, and a part takes it from them.
pub open spec fn after_message(p: PoolView, id: usize, message: ServerMessage) -> PoolView {
    if message is Whisper && drops_whisper(p, id) {
        p
    } else {
        let q = PoolView {
            current_whisper_connection_id: if message is Whisper {
                Some(id)
            } else {
                p.current_whisper_connection_id
            },
            ..p
        };
        let i = first_index(p.connections, identified(id));
        match message {
            ServerMessage::Join(join) => PoolView {
                connections: with_server_channels(
                    p.connections,
                    id,
                    with_item(p.connections[i].server, join.channel_login@),
                ),
                ..q
            },
            ServerMessage::Part(part) => PoolView {
                connections: with_server_channels(
                    p.connections,
                    id,
                    without_item(p.connections[i].server, part.channel_login@),
                ),
                ..q
            },
            _ => q,
        }
    }
}

/// Whether the pool can take what the connection with the id has
/// published: the closing of a connection, and the confirmation of a join
/// or part, are about a connection that the pool has.
pub open spec fn takes(p: PoolView, id: usize, message: ConnectionIncomingMessage) -> bool {
    match message {
        ConnectionIncomingMessage::StateClosed => has_connection(p, id),
        ConnectionIncomingMessage::IncomingMessage(m) => (*m is Join || *m is Part)
            ==> has_connection(p, id),
    }
}

impl ConnectionPool {
    /// The pool is in order: no connection holds a channel twice or keeps
    /// more send times than it may, and no channel is wanted on two
    /// connections.
    pub open spec fn wf(&self) -> bool {
        pool_wf(self@)
    }

    /// A pool without connections, under the limits of `config`.
    pub fn new(config: &ClientConfig) -> (pool: ConnectionPool)
        ensures
            pool.wf(),
            pool@ == (PoolView {
                max_channels: config.max_channels_per_connection,
                max_send_times: doubled(config.max_waiting_messages_per_connection),
                next_connection_id: 0,
                current_whisper_connection_id: None,
                connections: Seq::empty(),
            }),
    {
        let max_send_times = if config.max_waiting_messages_per_connection <= usize::MAX / 2 {
            config.max_waiting_messages_per_connection * 2
        } else {
            usize::MAX
        };
        let pool = ConnectionPool {
            max_channels_per_connection: config.max_channels_per_connection,
            max_send_times,
            next_connection_id: 0,
            current_whisper_connection_id: None,
            connections: Vec::new(),
        };
        proof {
            assert(pool@.connections =~= Seq::<PoolConnectionView>::empty());
        }
        pool
    }

    /// Makes the bookkeeping of a new connection, and moves on to the next
    /// id.
    fn make_new_connection(&mut self) -> (c: PoolConnection)
        ensures
            c@ == fresh_connection(
                old(self).next_connection_id,
                old(self).max_channels_per_connection,
                old(self).max_send_times,
            ),
            final(self)@ == (PoolView {
                next_connection_id: following_id(old(self).next_connection_id),
                ..old(self)@
            }),
            final(self).connections == old(self).connections,
    {
        let id = self.next_connection_id;
        self.next_connection_id = if id == usize::MAX {
            0
        } else {
            id + 1
        };
        let c = PoolConnection {
            id,
            wanted_channels: Vec::new(),
            server_channels: Vec::new(),
            message_send_times: Vec::new(),
            max_channels: self.max_channels_per_connection,
            max_send_times: self.max_send_times,
        };
        proof {
            assert(c@.wanted =~= Seq::<Seq<char>>::empty());
            assert(c@.server =~= Seq::<Seq<char>>::empty());
        }
        c
    }

    /// Makes sure that the pool has a connection: a pool without one gets a
    /// new one, which the owner is to open.
    pub fn connect(&mut self) -> (opened: Option<usize>)
        ensures
            old(self).wf() ==> final(self).wf(),
            final(self)@ == after_connect(old(self)@),
            opened == (if old(self)@.connections.len() == 0 {
                Some(old(self)@.next_connection_id)
            } else {
                None
            }),
    {
        proof {
            if old(self).wf() {
                crate::irc::client_inv::law_connect_keeps_order(old(self)@);
            }
        }
        if self.connections.len() == 0 {
            let id = self.next_connection_id;
            let new_connection = self.make_new_connection();
            let ghost before_push = connections_view(self.connections@);
            self.connections.push(new_connection);
            proof {
                assert(connections_view(self.connections@) =~= before_push.push(new_connection@));
            }
            Some(id)
        } else {
            None
        }
    }

    /// Index of the first connection that wants the channel, or the number
    /// of connections.
    fn find_wanting(&self, channel: &str) -> (i: usize)
        ensures
            i == first_index(self@.connections, wanting(channel@)),
            i <= self.connections@.len(),
    {
        let ghost view = self@.connections;
        let mut i: usize = 0;
        while i < self.connections.len() && !contains_string(
            &self.connections[i].wanted_channels,
            channel,
        )
            invariant
                i <= self.connections.len(),
                view == self@.connections,
                forall|j: int| 0 <= j < i ==> !wanting(channel@)(view[j]),
            decreases self.connections.len() - i,
        {
            i += 1;
        }
        proof {
            lemma_first_index_is(view, wanting(channel@), i as int);
        }
        i
    }

    /// Index of the first connection on which the channel is wanted and
    /// confirmed, or the number of connections.
    fn find_confirming(&self, channel: &str) -> (i: usize)
        ensures
            i == first_index(self@.connections, confirming(channel@)),
            i <= self.connections@.len(),
    {
        let ghost view = self@.connections;
        let mut i: usize = 0;
        while i < self.connections.len() && !(contains_string(
            &self.connections[i].wanted_channels,
            channel,
        ) && contains_string(&self.connections[i].server_channels, channel))
            invariant
                i <= self.connections.len(),
                view == self@.connections,
                forall|j: int| 0 <= j < i ==> !confirming(channel@)(view[j]),
            decreases self.connections.len() - i,
        {
            i += 1;
        }
        proof {
            lemma_first_index_is(view, confirming(channel@), i as int);
        }
        i
    }

    /// Index of the first connection with room, or the number of
    /// connections.
    fn find_roomy(&self) -> (i: usize)
        ensures
            i == first_index(self@.connections, roomy()),
            i <= self.connections@.len(),
    {
        let ghost view = self@.connections;
        let mut i: usize = 0;
        while i < self.connections.len() && !self.connections[i].channels_limit_not_reached()
            invariant
                i <= self.connections.len(),
                view == self@.connections,
                forall|j: int| 0 <= j < i ==> !roomy()(view[j]),
            decreases self.connections.len() - i,
        {
            i += 1;
        }
        proof {
            lemma_first_index_is(view, roomy(), i as int);
        }
        i
    }

    /// Index of the first connection with the id, or the number of
    /// connections.
    fn find_connection(&self, id: usize) -> (i: usize)
        ensures
            i == first_index(self@.connections, identified(id)),
            i <= self.connections@.len(),
    {
        let ghost view = self@.connections;
        let mut i: usize = 0;
        while i < self.connections.len() && self.connections[i].id != id
            invariant
                i <= self.connections.len(),
                view == self@.connections,
                forall|j: int| 0 <= j < i ==> !identified(id)(view[j]),
            decreases self.connections.len() - i,
        {
            i += 1;
        }
        proof {
            lemma_first_index_is(view, identified(id), i as int);
        }
        i
    }

    /// Whether the pool has a connection with the id.
    pub fn has_connection(&self, id: usize) -> (b: bool)
        ensures
            b == has_connection(self@, id),
    {
        self.find_connection(id) < self.connections.len()
    }

    /// Joins the channel at `now`. A channel that is wanted and confirmed on
    /// a connection is joined already: nothing changes and nothing is sent.
    /// Otherwise the join goes to the first connection that wants the
    /// channel already, else to the first with room, else to a new one; the
    /// join line is sent on it, it wants the channel from now on, and it
    /// goes to the back of the pool.
    pub fn join<R>(&mut self, channel_login: String, now: u64) -> (actions: Vec<PoolAction<R>>)
        ensures
            old(self).wf() ==> final(self).wf(),
            final(self)@ == after_join(old(self)@, channel_login@, now),
            actions_view(actions@) == join_actions::<R>(old(self)@, channel_login@),
    {
        proof {
            if old(self).wf() {
                crate::irc::client_inv::law_join_keeps_order(old(self)@, channel_login@, now);
            }
        }
        let mut actions: Vec<PoolAction<R>> = Vec::new();
        if self.find_confirming(channel_login.as_str()) < self.connections.len() {
            proof {
                assert(actions_view(actions@) =~= Seq::<PoolActionView<R>>::empty());
            }
            return actions;
        }
        let mut pos = self.find_wanting(channel_login.as_str());
        if pos == self.connections.len() {
            pos = self.find_roomy();
        }
        let ghost before_take = self@.connections;
        let mut pool_connection = if pos < self.connections.len() {
            let c = self.connections.remove(pos);
            proof {
                assert(connections_view(self.connections@) =~= before_take.remove(pos as int));
            }
            c
        } else {
            let c = self.make_new_connection();
            actions.push(PoolAction::OpenConnection { id: c.id });
            c
        };
        actions.push(
            PoolAction::Send {
                connection_id: pool_connection.id,
                message: join_message(channel_login.as_str()),
            },
        );
        pool_connection.register_sent_message(now);
        insert_item(&mut pool_connection.wanted_channels, channel_login);
        let ghost before_push = connections_view(self.connections@);
        self.connections.push(pool_connection);
        proof {
            assert(connections_view(self.connections@) =~= before_push.push(pool_connection@));
            assert(actions_view(actions@) =~= join_actions::<R>(old(self)@, channel_login@));
        }
        actions
    }

    /// Parts the channel at `now`. A channel that no connection wants
    /// changes nothing and nothing is sent. Otherwise the part line is sent
    /// on the first connection that wants the channel, which wants it no
    /// longer and goes to the back of the pool.
    pub fn part<R>(&mut self, channel_login: String, now: u64) -> (actions: Vec<PoolAction<R>>)
        ensures
            old(self).wf() ==> final(self).wf(),
            final(self)@ == after_part(old(self)@, channel_login@, now),
            actions_view(actions@) == part_actions::<R>(old(self)@, channel_login@),
    {
        proof {
            if old(self).wf() {
                crate::irc::client_inv::law_part_keeps_order(old(self)@, channel_login@, now);
            }
        }
        let mut actions: Vec<PoolAction<R>> = Vec::new();
        let pos = self.find_wanting(channel_login.as_str());
        if pos == self.connections.len() {
            proof {
                assert(actions_view(actions@) =~= Seq::<PoolActionView<R>>::empty());
            }
            return actions;
        }
        let ghost before_take = self@.connections;
        let mut pool_connection = self.connections.remove(pos);
        proof {
            assert(connections_view(self.connections@) =~= before_take.remove(pos as int));
        }
        actions.push(
            PoolAction::Send {
                connection_id: pool_connection.id,
                message: part_message(channel_login.as_str()),
            },
        );
        pool_connection.register_sent_message(now);
        remove_item(&mut pool_connection.wanted_channels, channel_login.as_str());
        let ghost before_push = connections_view(self.connections@);
        self.connections.push(pool_connection);
        proof {
            assert(connections_view(self.connections@) =~= before_push.push(pool_connection@));
            assert(actions_view(actions@) =~= part_actions::<R>(old(self)@, channel_login@));
        }
        actions
    }
}

impl ConnectionPool {
    /// Confirms the channel as joined on the first connection with the id,
    /// which the pool has.
    fn confirm_joined(&mut self, id: usize, channel: String)
        requires
            has_connection(old(self)@, id),
        ensures
            final(self)@ == (PoolView {
                connections: with_server_channels(
                    old(self)@.connections,
                    id,
                    with_item(
                        old(self)@.connections[first_index(
                            old(self)@.connections,
                            identified(id),
                        )].server,
                        channel@,
                    ),
                ),
                ..old(self)@
            }),
    {
        let i = self.find_connection(id);
        let ghost before_take = self@.connections;
        let mut c = self.connections.remove(i);
        insert_item(&mut c.server_channels, channel);
        self.connections.insert(i, c);
        proof {
            assert(connections_view(self.connections@) =~= before_take.update(i as int, c@));
        }
    }

    /// Takes the channel from the confirmed ones of the first connection
    /// with the id, which the pool has.
    fn confirm_parted(&mut self, id: usize, channel: &str)
        requires
            has_connection(old(self)@, id),
        ensures
            final(self)@ == (PoolView {
                connections: with_server_channels(
                    old(self)@.connections,
                    id,
                    without_item(
                        old(self)@.connections[first_index(
                            old(self)@.connections,
                            identified(id),
                        )].server,
                        channel@,
                    ),
                ),
                ..old(self)@
            }),
    {
        let i = self.find_connection(id);
        let ghost before_take = self@.connections;
        let mut c = self.connections.remove(i);
        remove_item(&mut c.server_channels, channel);
        self.connections.insert(i, c);
        proof {
            assert(connections_view(self.connections@) =~= before_take.update(i as int, c@));
        }
    }

    /// A connection has published a message. A whisper is forwarded only
    /// from one connection: from the first that whispers, as long as that
    /// one lives; a whisper from another is dropped and changes nothing.
    /// Every other message is forwarded. The confirmation of a join or part
    /// is noted on the connection it came from.
    pub fn on_server_message<R>(
        &mut self,
        source_connection_id: usize,
        message: ServerMessage,
    ) -> (actions: Vec<PoolAction<R>>)
        requires
            (message is Join || message is Part) ==> has_connection(
                old(self)@,
                source_connection_id,
            ),
        ensures
            old(self).wf() ==> final(self).wf(),
            final(self)@ == after_message(old(self)@, source_connection_id, message),
            actions@ == (if message is Whisper && drops_whisper(
                old(self)@,
                source_connection_id,
            ) {
                Seq::empty()
            } else {
                seq![PoolAction::<R>::Forward(message)]
            }),
    {
        proof {
            if old(self).wf() {
                crate::irc::client_inv::law_message_keeps_order(
                    old(self)@,
                    source_connection_id,
                    message,
                );
            }
        }
        let mut actions: Vec<PoolAction<R>> = Vec::new();
        let is_whisper = matches!(message, ServerMessage::Whisper(_));
        if is_whisper {
            match self.current_whisper_connection_id {
                Some(current) => {
                    if current != source_connection_id {
                        return actions;
                    }
                },
                None => {
                    self.current_whisper_connection_id = Some(source_connection_id);
                },
            }
        }
        match &message {
            ServerMessage::Join(join) => {
                self.confirm_joined(source_connection_id, join.channel_login.clone());
            },
            ServerMessage::Part(part) => {
                self.confirm_parted(source_connection_id, part.channel_login.as_str());
            },
            _ => {},
        }
        actions.push(PoolAction::Forward(message));
        actions
    }

    /// A connection has closed. It leaves the pool; each channel that it
    /// wanted is joined anew, on the connections that are left or on new
    /// ones; its whispers are no longer the ones forwarded; and a pool that
    /// would be left without a connection gets a new one.
    pub fn on_connection_closed<R>(
        &mut self,
        source_connection_id: usize,
        now: u64,
    ) -> (actions: Vec<PoolAction<R>>)
        requires
            has_connection(old(self)@, source_connection_id),
        ensures
            old(self).wf() ==> final(self).wf(),
            final(self)@ == after_closed(old(self)@, source_connection_id, now),
            actions_view(actions@) == closed_actions::<R>(old(self)@, source_connection_id, now),
    {
        proof {
            if old(self).wf() {
                crate::irc::client_inv::law_closing_keeps_order(
                    old(self)@,
                    source_connection_id,
                    now,
                );
            }
        }
        let mut actions: Vec<PoolAction<R>> = Vec::new();
        let i = self.find_connection(source_connection_id);
        let ghost before_take = self@.connections;
        let pool_connection = self.connections.remove(i);
        proof {
            assert(connections_view(self.connections@) =~= before_take.remove(i as int));
        }
        actions.push(PoolAction::CloseConnection { id: source_connection_id });
        let ghost rest = self@;
        let ghost wanted = pool_connection@.wanted;
        let channels = pool_connection.wanted_channels;
        let ghost closing = actions_view(actions@);
        proof {
            assert(wanted.skip(0) =~= wanted);
            assert(closing =~= seq![
                PoolActionView::<R>::CloseConnection { id: source_connection_id },
            ]);
            assert(closing + joins_actions::<R>(rest, wanted, now) =~= actions_view(actions@)
                + joins_actions::<R>(self@, wanted.skip(0), now));
        }
        for channel in it: channels
            invariant
                wanted == strings_view(it.seq()),
                i == first_index(old(self)@.connections, identified(source_connection_id)),
                i < old(self)@.connections.len(),
                wanted == old(self)@.connections[i as int].wanted,
                rest == (PoolView {
                    connections: old(self)@.connections.remove(i as int),
                    ..old(self)@
                }),
                closing == seq![PoolActionView::<R>::CloseConnection { id: source_connection_id }],
                after_joins(rest, wanted, now) == after_joins(
                    self@,
                    wanted.skip(it.index() as int),
                    now,
                ),
                closing + joins_actions::<R>(rest, wanted, now) == actions_view(actions@)
                    + joins_actions::<R>(self@, wanted.skip(it.index() as int), now),
        {
            let ghost pending = wanted.skip(it.index() as int);
            let ghost done = actions_view(actions@);
            let ghost pool_before = self@;
            proof {
                assert(pending[0] == channel@);
                assert(pending.drop_first() =~= wanted.skip(it.index() + 1));
            }
            let mut sent = self.join::<R>(channel, now);
            let ghost sent_view = actions_view(sent@);
            actions.append(&mut sent);
            proof {
                assert(actions_view(actions@) =~= done + sent_view);
                assert(done + (sent_view + joins_actions::<R>(self@, pending.drop_first(), now))
                    =~= (done + sent_view) + joins_actions::<R>(self@, pending.drop_first(), now));
            }
        }
        proof {
            assert(wanted.skip(wanted.len() as int) =~= Seq::<Seq<char>>::empty());
            assert(actions_view(actions@) + Seq::<PoolActionView<R>>::empty() =~= actions_view(
                actions@,
            ));
            lemma_after_joins_keeps(rest, wanted, now);
            assert(self@ == with_channels_moved(old(self)@, source_connection_id, now));
        }
        if self.current_whisper_connection_id == Some(source_connection_id) {
            self.current_whisper_connection_id = None;
        }
        let ghost joined = actions_view(actions@);
        match self.connect() {
            Some(id) => {
                actions.push(PoolAction::OpenConnection { id });
                proof {
                    assert(actions_view(actions@) =~= joined + seq![
                        PoolActionView::<R>::OpenConnection { id },
                    ]);
                }
            },
            None => {
                proof {
                    assert(joined + Seq::<PoolActionView<R>>::empty() =~= joined);
                }
            },
        }
        actions
    }

    /// Whether the pool can take what the connection with the id has
    /// published.
    pub fn can_take(
        &self,
        source_connection_id: usize,
        message: &ConnectionIncomingMessage,
    ) -> (b: bool)
        ensures
            b == takes(self@, source_connection_id, *message),
    {
        match message {
            ConnectionIncomingMessage::StateClosed => self.has_connection(source_connection_id),
            ConnectionIncomingMessage::IncomingMessage(m) => {
                let confirms = matches!(**m, ServerMessage::Join(_) | ServerMessage::Part(_));
                !confirms || self.has_connection(source_connection_id)
            },
        }
    }

    /// A connection has published something: a message of the server, or
    /// its own closing.
    pub fn on_incoming_message<R>(
        &mut self,
        source_connection_id: usize,
        message: ConnectionIncomingMessage,
        now: u64,
    ) -> (actions: Vec<PoolAction<R>>)
        requires
            takes(old(self)@, source_connection_id, message),
        ensures
            old(self).wf() ==> final(self).wf(),
            match message {
                ConnectionIncomingMessage::IncomingMessage(m) => {
                    &&& final(self)@ == after_message(old(self)@, source_connection_id, *m)
                    &&& actions@ == (if *m is Whisper && drops_whisper(
                        old(self)@,
                        source_connection_id,
                    ) {
                        Seq::empty()
                    } else {
                        seq![PoolAction::<R>::Forward(*m)]
                    })
                },
                ConnectionIncomingMessage::StateClosed => {
                    &&& final(self)@ == after_closed(old(self)@, source_connection_id, now)
                    &&& actions_view(actions@) == closed_actions::<R>(
                        old(self)@,
                        source_connection_id,
                        now,
                    )
                },
            },
    {
        match message {
            ConnectionIncomingMessage::IncomingMessage(m) => self.on_server_message(
                source_connection_id,
                *m,
            ),
            ConnectionIncomingMessage::StateClosed => self.on_connection_closed(
                source_connection_id,
                now,
            ),
        }
    }

    /// One step of the pool: what the owner is to do after the command,
    /// which reached the pool at `now`.
    pub fn process_command<R>(
        &mut self,
        command: ClientLoopCommand<R>,
        now: u64,
    ) -> (actions: Vec<PoolAction<R>>)
        requires
            command matches ClientLoopCommand::IncomingMessage { source_connection_id, message }
                ==> takes(old(self)@, source_connection_id, *message),
        ensures
            old(self).wf() ==> final(self).wf(),
            match command {
                ClientLoopCommand::Connect { return_sender } => {
                    &&& final(self)@ == after_connect(old(self)@)
                    &&& actions_view(actions@) == (if old(self)@.connections.len() == 0 {
                        seq![
                            PoolActionView::OpenConnection { id: old(self)@.next_connection_id },
                            PoolActionView::Connected(return_sender),
                        ]
                    } else {
                        seq![PoolActionView::Connected(return_sender)]
                    })
                },
                ClientLoopCommand::Join { channel_login } => {
                    &&& final(self)@ == after_join(old(self)@, channel_login@, now)
                    &&& actions_view(actions@) == join_actions::<R>(old(self)@, channel_login@)
                },
                ClientLoopCommand::Part { channel_login } => {
                    &&& final(self)@ == after_part(old(self)@, channel_login@, now)
                    &&& actions_view(actions@) == part_actions::<R>(old(self)@, channel_login@)
                },
                ClientLoopCommand::IncomingMessage {
                    source_connection_id,
                    message,
                } => match *message {
                    ConnectionIncomingMessage::IncomingMessage(m) => {
                        &&& final(self)@ == after_message(old(self)@, source_connection_id, *m)
                        &&& actions@ == (if *m is Whisper && drops_whisper(
                            old(self)@,
                            source_connection_id,
                        ) {
                            Seq::empty()
                        } else {
                            seq![PoolAction::<R>::Forward(*m)]
                        })
                    },
                    ConnectionIncomingMessage::StateClosed => {
                        &&& final(self)@ == after_closed(old(self)@, source_connection_id, now)
                        &&& actions_view(actions@) == closed_actions::<R>(
                            old(self)@,
                            source_connection_id,
                            now,
                        )
                    },
                },
            },
    {
        match command {
            ClientLoopCommand::Connect { return_sender } => {
                let mut actions: Vec<PoolAction<R>> = Vec::new();
                if let Some(id) = self.connect() {
                    actions.push(PoolAction::OpenConnection { id });
                }
                actions.push(PoolAction::Connected(return_sender));
                proof {
                    assert(actions_view(actions@) =~= (if old(self)@.connections.len() == 0 {
                        seq![
                            PoolActionView::OpenConnection { id: old(self)@.next_connection_id },
                            PoolActionView::Connected(return_sender),
                        ]
                    } else {
                        seq![PoolActionView::Connected(return_sender)]
                    }));
                }
                actions
            },
            ClientLoopCommand::Join { channel_login } => self.join(channel_login, now),
            ClientLoopCommand::Part { channel_login } => self.part(channel_login, now),
            ClientLoopCommand::IncomingMessage {
                source_connection_id,
                message,
            } => self.on_incoming_message(source_connection_id, *message, now),
        }
    }
}

} // verus!
