//! What holds of every pool.

use vstd::prelude::*;
use crate::irc::client::{
    after_closed, after_connect, after_join, after_joins, asked_to_join, confirming, first_index,
    fresh_connection, has_connection, has_room, identified, is_joined, is_wanted, join_actions,
    join_target, lemma_first_index, roomy, wanting, with_channels_moved, PoolActionView,
    PoolConnectionView, PoolView,
};

verus! {

/// A join of a channel that is wanted and confirmed on a connection changes
/// nothing and sends nothing, however often it is repeated.
pub proof fn law_join_of_joined_channel_does_nothing<R>(p: PoolView, channel: Seq<char>, now: u64)
    requires
        is_joined(p, channel),
    ensures
        after_join(p, channel, now) == p,
        join_actions::<R>(p, channel) == Seq::<PoolActionView<R>>::empty(),
        after_join(after_join(p, channel, now), channel, now) == p,
{
}

/// A channel that is joined is wanted.
pub proof fn lemma_joined_is_wanted(p: PoolView, channel: Seq<char>)
    requires
        is_joined(p, channel),
    ensures
        is_wanted(p, channel),
{
    lemma_first_index(p.connections, confirming(channel));
    lemma_first_index(p.connections, wanting(channel));
    let i = first_index(p.connections, confirming(channel));
    assert(wanting(channel)(p.connections[i]));
}

/// A join of a channel that no connection wants goes to a connection with
/// room and never to one without: with `a` full and `b` roomy, the join
/// goes to the first roomy connection, which is `b` if no other has room.
/// That connection wants the channel afterwards and stands at the back; the
/// full one is still in the pool as it was.
pub proof fn law_join_goes_where_room_is(p: PoolView, a: int, b: int, channel: Seq<char>, now: u64)
    requires
        0 <= a < p.connections.len(),
        0 <= b < p.connections.len(),
        !has_room(p.connections[a]),
        has_room(p.connections[b]),
        !is_wanted(p, channel),
    ensures
        join_target(p, channel) matches Some(t) && t != a && t <= b && has_room(p.connections[t])
            && ((forall|j: int| 0 <= j < p.connections.len() && j != b ==> !has_room(
            #[trigger] p.connections[j],
        )) ==> t == b) && after_join(p, channel, now).connections.last() == asked_to_join(
            p.connections[t],
            channel,
            now,
        ) && after_join(p, channel, now).connections.last().wanted.contains(channel)
            && after_join(p, channel, now).connections.contains(p.connections[a]),
{
    lemma_first_index(p.connections, roomy());
    let t = first_index(p.connections, roomy());
    assert(roomy()(p.connections[b]));
    assert(t <= b);
    if is_joined(p, channel) {
        lemma_joined_is_wanted(p, channel);
    }
    let q = after_join(p, channel, now);
    let joined = asked_to_join(p.connections[t], channel, now);
    assert(q.connections == p.connections.remove(t).push(joined));
    assert(q.connections.last() == joined);
    let wanted = p.connections[t].wanted;
    if !wanted.contains(channel) {
        assert(wanted.push(channel)[wanted.len() as int] == channel);
    }
    if a < t {
        assert(q.connections[a] == p.connections[a]);
    } else {
        assert(q.connections[a - 1] == p.connections[a]);
    }
}

/// Connecting again changes nothing: a pool that has a connection keeps what
/// it has.
pub proof fn law_connect_is_idempotent(p: PoolView)
    ensures
        after_connect(p).connections.len() > 0,
        after_connect(after_connect(p)) == after_connect(p),
{
}

/// After a connection has closed, the pool has a connection.
pub proof fn law_pool_is_never_left_empty(p: PoolView, id: usize, now: u64)
    requires
        has_connection(p, id),
    ensures
        after_closed(p, id, now).connections.len() > 0,
{
}

/// An element that satisfies `p` is not before the first that does.
pub proof fn lemma_found<T>(s: Seq<T>, p: spec_fn(T) -> bool, j: int)
    requires
        0 <= j < s.len(),
        p(s[j]),
    ensures
        first_index(s, p) <= j,
{
    lemma_first_index(s, p);
}

/// A connection that was asked to join a channel wants it, and still wants
/// what it wanted.
pub proof fn lemma_asked_to_join_wants(c: PoolConnectionView, channel: Seq<char>, now: u64)
    ensures
        asked_to_join(c, channel, now).wanted.contains(channel),
        forall|other: Seq<char>|
            c.wanted.contains(other) ==> #[trigger] asked_to_join(c, channel, now).wanted.contains(
                other,
            ),
{
    let joined = asked_to_join(c, channel, now);
    if !c.wanted.contains(channel) {
        assert(joined.wanted[c.wanted.len() as int] == channel);
    }
    assert forall|other: Seq<char>|
        c.wanted.contains(other) implies #[trigger] joined.wanted.contains(other) by {
        let k = choose|k: int| 0 <= k < c.wanted.len() && c.wanted[k] == other;
        assert(joined.wanted[k] == other);
    }
}

/// After a join, the channel is wanted; and what was wanted is still wanted.
pub proof fn lemma_join_wants(p: PoolView, channel: Seq<char>, now: u64)
    ensures
        is_wanted(after_join(p, channel, now), channel),
        forall|other: Seq<char>|
            is_wanted(p, other) ==> #[trigger] is_wanted(after_join(p, channel, now), other),
{
    let q = after_join(p, channel, now);
    if is_joined(p, channel) {
        lemma_joined_is_wanted(p, channel);
    } else {
        lemma_first_index(p.connections, wanting(channel));
        lemma_first_index(p.connections, roomy());
        let last = q.connections.len() - 1;
        match join_target(p, channel) {
            Some(t) => {
                lemma_asked_to_join_wants(p.connections[t], channel, now);
                assert(q.connections[last] == asked_to_join(p.connections[t], channel, now));
                assert(wanting(channel)(q.connections[last]));
                lemma_found(q.connections, wanting(channel), last);
                assert forall|other: Seq<char>| is_wanted(p, other) implies #[trigger] is_wanted(
                    q,
                    other,
                ) by {
                    lemma_first_index(p.connections, wanting(other));
                    let i = first_index(p.connections, wanting(other));
                    assert(wanting(other)(p.connections[i]));
                    if i < t {
                        assert(q.connections[i] == p.connections[i]);
                        lemma_found(q.connections, wanting(other), i);
                    } else if i > t {
                        assert(q.connections[i - 1] == p.connections[i]);
                        lemma_found(q.connections, wanting(other), i - 1);
                    } else {
                        assert(wanting(other)(q.connections[last]));
                        lemma_found(q.connections, wanting(other), last);
                    }
                }
            },
            None => {
                let fresh = fresh_connection(
                    p.next_connection_id,
                    p.max_channels,
                    p.max_send_times,
                );
                lemma_asked_to_join_wants(fresh, channel, now);
                assert(q.connections[last] == asked_to_join(fresh, channel, now));
                assert(wanting(channel)(q.connections[last]));
                lemma_found(q.connections, wanting(channel), last);
                assert forall|other: Seq<char>| is_wanted(p, other) implies #[trigger] is_wanted(
                    q,
                    other,
                ) by {
                    lemma_first_index(p.connections, wanting(other));
                    let i = first_index(p.connections, wanting(other));
                    assert(q.connections[i] == p.connections[i]);
                    assert(wanting(other)(q.connections[i]));
                    lemma_found(q.connections, wanting(other), i);
                }
            },
        }
    }
}

/// After joining channels in turn, each of them is wanted; and what was
/// wanted is still wanted.
pub proof fn lemma_joins_want(p: PoolView, channels: Seq<Seq<char>>, now: u64)
    ensures
        forall|k: int|
            0 <= k < channels.len() ==> is_wanted(
                after_joins(p, channels, now),
                #[trigger] channels[k],
            ),
        forall|other: Seq<char>|
            is_wanted(p, other) ==> #[trigger] is_wanted(after_joins(p, channels, now), other),
    decreases channels.len(),
{
    if channels.len() > 0 {
        let q = after_join(p, channels[0], now);
        let rest = channels.drop_first();
        lemma_join_wants(p, channels[0], now);
        lemma_joins_want(q, rest, now);
        let end = after_joins(p, channels, now);
        assert forall|k: int| 0 <= k < channels.len() implies is_wanted(
            end,
            #[trigger] channels[k],
        ) by {
            if k > 0 {
                assert(rest[k - 1] == channels[k]);
            }
        }
        assert forall|other: Seq<char>| is_wanted(p, other) implies #[trigger] is_wanted(
            end,
            other,
        ) by {
            assert(is_wanted(q, other));
        }
    }
}

/// After a connection has closed, every channel that it wanted is wanted
/// on a connection of the pool.
pub proof fn law_channels_of_closed_connection_are_joined_anew(
    p: PoolView,
    id: usize,
    now: u64,
    channel: Seq<char>,
)
    requires
        has_connection(p, id),
        p.connections[first_index(p.connections, identified(id))].wanted.contains(channel),
    ensures
        is_wanted(after_closed(p, id, now), channel),
{
    let i = first_index(p.connections, identified(id));
    let wanted = p.connections[i].wanted;
    let rest = PoolView { connections: p.connections.remove(i), ..p };
    lemma_joins_want(rest, wanted, now);
    let k = choose|k: int| 0 <= k < wanted.len() && wanted[k] == channel;
    let moved = with_channels_moved(p, id, now);
    assert(is_wanted(moved, wanted[k]));
    lemma_first_index(moved.connections, wanting(channel));
    assert(moved.connections.len() > 0);
    assert(after_closed(p, id, now).connections == moved.connections);
}

} // verus!
