//! What holds of a pool at all times: no connection holds a channel twice,
//! none keeps more send times than it may, and no channel is wanted on two
//! connections.

use vstd::prelude::*;
use crate::irc::client::{
    connection_wf, pool_wf, after_closed, after_connect, after_join, after_joins, after_message, after_part,
    asked_to_join, asked_to_part, first_index, fresh_connection, has_connection, identified,
    is_item, is_joined, is_wanted, item_index, join_target, lemma_first_index, roomy, wanting,
    with_channels_moved, with_item, with_send_time, without_item, PoolConnectionView, PoolView,
};
use crate::irc::message::server::ServerMessage;

verus! {

/// A list without repeats has none with one more item put into it.
pub proof fn lemma_with_item(list: Seq<Seq<char>>, item: Seq<char>)
    requires
        list.no_duplicates(),
    ensures
        with_item(list, item).no_duplicates(),
        forall|x: Seq<char>|
            #[trigger] with_item(list, item).contains(x) <==> list.contains(x) || x == item,
{
    let more = with_item(list, item);
    if !list.contains(item) {
        assert forall|i: int, j: int| 0 <= i < more.len() && 0 <= j < more.len() && i
            != j implies more[i] != more[j] by {
            if i < list.len() && j < list.len() {
                assert(more[i] == list[i] && more[j] == list[j]);
            } else if i < list.len() {
                assert(more[i] == list[i]);
                assert(list.contains(list[i]));
            } else {
                assert(more[j] == list[j]);
                assert(list.contains(list[j]));
            }
        }
        assert forall|x: Seq<char>| #[trigger] more.contains(x) <==> list.contains(x) || x
            == item by {
            if list.contains(x) {
                let k = choose|k: int| 0 <= k < list.len() && list[k] == x;
                assert(more[k] == x);
            }
            if x == item {
                assert(more[list.len() as int] == x);
            }
            if more.contains(x) {
                let k = choose|k: int| 0 <= k < more.len() && more[k] == x;
                if k < list.len() {
                    assert(list[k] == x);
                }
            }
        }
    }
}

/// A list without repeats has none with an item taken out of it, and holds
/// nothing that it did not hold.
pub proof fn lemma_without_item(list: Seq<Seq<char>>, item: Seq<char>)
    requires
        list.no_duplicates(),
    ensures
        without_item(list, item).no_duplicates(),
        forall|x: Seq<char>| #[trigger] without_item(list, item).contains(x) ==> list.contains(x),
        !without_item(list, item).contains(item),
{
    let p = is_item(item);
    lemma_first_index(list, p);
    let i = item_index(list, item);
    let less = without_item(list, item);
    if i < list.len() {
        assert forall|a: int, b: int| 0 <= a < less.len() && 0 <= b < less.len() && a
            != b implies less[a] != less[b] by {
            let a0 = if a < i {
                a
            } else {
                a + 1
            };
            let b0 = if b < i {
                b
            } else {
                b + 1
            };
            assert(less[a] == list[a0] && less[b] == list[b0]);
        }
        assert forall|x: Seq<char>| #[trigger] less.contains(x) implies list.contains(x) by {
            let k = choose|k: int| 0 <= k < less.len() && less[k] == x;
            let k0 = if k < i {
                k
            } else {
                k + 1
            };
            assert(list[k0] == x);
        }
        if less.contains(item) {
            let k = choose|k: int| 0 <= k < less.len() && less[k] == item;
            let k0 = if k < i {
                k
            } else {
                k + 1
            };
            assert(list[k0] == item && list[i] == item && k0 != i);
        }
    } else {
        if list.contains(item) {
            let k = choose|k: int| 0 <= k < list.len() && list[k] == item;
            assert(p(list[k]));
        }
    }
}

/// A channel that no connection wants is wanted on none.
pub proof fn lemma_unwanted(p: PoolView, channel: Seq<char>)
    requires
        !is_wanted(p, channel),
    ensures
        forall|i: int|
            0 <= i < p.connections.len() ==> !(#[trigger] p.connections[i]).wanted.contains(
                channel,
            ),
{
    lemma_first_index(p.connections, wanting(channel));
    assert forall|i: int| 0 <= i < p.connections.len() implies !(
    #[trigger] p.connections[i]).wanted.contains(channel) by {
        assert(!wanting(channel)(p.connections[i]));
    }
}

/// A pool in order stays in order when one of its connections leaves.
pub proof fn lemma_remove_keeps_order(p: PoolView, t: int)
    requires
        pool_wf(p),
        0 <= t < p.connections.len(),
    ensures
        pool_wf(PoolView { connections: p.connections.remove(t), ..p }),
{
    let q = p.connections.remove(t);
    assert forall|i: int| 0 <= i < q.len() implies connection_wf(#[trigger] q[i]) by {
        let i0 = if i < t {
            i
        } else {
            i + 1
        };
        assert(q[i] == p.connections[i0]);
    }
    assert forall|i: int, j: int, channel: Seq<char>| 0 <= i < j < q.len() implies !(
    #[trigger] q[i].wanted.contains(channel) && #[trigger] q[j].wanted.contains(channel)) by {
        let i0 = if i < t {
            i
        } else {
            i + 1
        };
        let j0 = if j < t {
            j
        } else {
            j + 1
        };
        assert(q[i] == p.connections[i0] && q[j] == p.connections[j0]);
        assert(!(p.connections[i0].wanted.contains(channel) && p.connections[j0].wanted.contains(
            channel,
        )));
    }
}

/// A pool in order stays in order when a connection in order joins it at
/// the back that wants no channel which another connection wants.
pub proof fn lemma_push_keeps_order(p: PoolView, c: PoolConnectionView)
    requires
        pool_wf(p),
        connection_wf(c),
        forall|i: int, channel: Seq<char>|
            0 <= i < p.connections.len() && c.wanted.contains(channel) ==> !(
            #[trigger] p.connections[i].wanted.contains(channel)),
    ensures
        pool_wf(PoolView { connections: p.connections.push(c), ..p }),
{
    let q = p.connections.push(c);
    assert forall|i: int| 0 <= i < q.len() implies connection_wf(#[trigger] q[i]) by {
        if i < p.connections.len() {
            assert(q[i] == p.connections[i]);
        }
    }
    assert forall|i: int, j: int, channel: Seq<char>| 0 <= i < j < q.len() implies !(
    #[trigger] q[i].wanted.contains(channel) && #[trigger] q[j].wanted.contains(channel)) by {
        assert(q[i] == p.connections[i]);
        if j < p.connections.len() {
            assert(q[j] == p.connections[j]);
            assert(!(p.connections[i].wanted.contains(channel) && p.connections[j].wanted.contains(
                channel,
            )));
        } else {
            assert(q[j] == c);
            if c.wanted.contains(channel) {
                assert(!p.connections[i].wanted.contains(channel));
            }
        }
    }
}

/// The send times stay within their bound.
pub proof fn lemma_with_send_time(times: Seq<u64>, max: usize, now: u64)
    requires
        times.len() <= max,
    ensures
        with_send_time(times, max, now).len() <= max,
{
}

/// A join keeps the pool in order.
pub proof fn law_join_keeps_order(p: PoolView, channel: Seq<char>, now: u64)
    requires
        pool_wf(p),
    ensures
        pool_wf(after_join(p, channel, now)),
{
    if !is_joined(p, channel) {
        lemma_first_index(p.connections, wanting(channel));
        lemma_first_index(p.connections, roomy());
        match join_target(p, channel) {
            Some(t) => {
                let old = p.connections[t];
                let joined = asked_to_join(old, channel, now);
                let rest = PoolView { connections: p.connections.remove(t), ..p };
                lemma_remove_keeps_order(p, t);
                assert(connection_wf(old));
                lemma_with_item(old.wanted, channel);
                lemma_with_send_time(old.send_times, old.max_send_times, now);
                if !is_wanted(p, channel) {
                    lemma_unwanted(p, channel);
                }
                assert forall|i: int, x: Seq<char>|
                    0 <= i < rest.connections.len() && joined.wanted.contains(x) implies !(
                #[trigger] rest.connections[i].wanted.contains(x)) by {
                    let i0 = if i < t {
                        i
                    } else {
                        i + 1
                    };
                    assert(rest.connections[i] == p.connections[i0]);
                    if old.wanted.contains(x) {
                        if i0 < t {
                            assert(!(p.connections[i0].wanted.contains(x)
                                && p.connections[t].wanted.contains(x)));
                        } else {
                            assert(!(p.connections[t].wanted.contains(x)
                                && p.connections[i0].wanted.contains(x)));
                        }
                    } else {
                        assert(x == channel);
                        assert(!is_wanted(p, channel));
                    }
                }
                lemma_push_keeps_order(rest, joined);
            },
            None => {
                let fresh = fresh_connection(p.next_connection_id, p.max_channels, p.max_send_times);
                let joined = asked_to_join(fresh, channel, now);
                lemma_with_item(fresh.wanted, channel);
                lemma_with_send_time(fresh.send_times, fresh.max_send_times, now);
                lemma_unwanted(p, channel);
                assert forall|x: Seq<char>| joined.wanted.contains(x) implies x == channel by {
                    assert(!fresh.wanted.contains(x));
                }
                lemma_push_keeps_order(p, joined);
                let q = after_join(p, channel, now);
                assert(q.connections == p.connections.push(joined));
            },
        }
    }
}

/// A part keeps the pool in order.
pub proof fn law_part_keeps_order(p: PoolView, channel: Seq<char>, now: u64)
    requires
        pool_wf(p),
    ensures
        pool_wf(after_part(p, channel, now)),
{
    if is_wanted(p, channel) {
        lemma_first_index(p.connections, wanting(channel));
        let t = first_index(p.connections, wanting(channel));
        let old = p.connections[t];
        let parted = asked_to_part(old, channel, now);
        let rest = PoolView { connections: p.connections.remove(t), ..p };
        lemma_remove_keeps_order(p, t);
        assert(connection_wf(old));
        lemma_without_item(old.wanted, channel);
        lemma_with_send_time(old.send_times, old.max_send_times, now);
        assert forall|i: int, x: Seq<char>|
            0 <= i < rest.connections.len() && parted.wanted.contains(x) implies !(
        #[trigger] rest.connections[i].wanted.contains(x)) by {
            let i0 = if i < t {
                i
            } else {
                i + 1
            };
            assert(rest.connections[i] == p.connections[i0]);
            assert(old.wanted.contains(x));
            if i0 < t {
                assert(!(p.connections[i0].wanted.contains(x) && p.connections[t].wanted.contains(
                    x,
                )));
            } else {
                assert(!(p.connections[t].wanted.contains(x) && p.connections[i0].wanted.contains(
                    x,
                )));
            }
        }
        lemma_push_keeps_order(rest, parted);
    }
}

/// Joins in turn keep the pool in order.
pub proof fn lemma_joins_keep_order(p: PoolView, channels: Seq<Seq<char>>, now: u64)
    requires
        pool_wf(p),
    ensures
        pool_wf(after_joins(p, channels, now)),
    decreases channels.len(),
{
    if channels.len() > 0 {
        law_join_keeps_order(p, channels[0], now);
        lemma_joins_keep_order(after_join(p, channels[0], now), channels.drop_first(), now);
    }
}

/// Making sure of a connection keeps the pool in order.
pub proof fn law_connect_keeps_order(p: PoolView)
    requires
        pool_wf(p),
    ensures
        pool_wf(after_connect(p)),
{
    if p.connections.len() == 0 {
        let fresh = fresh_connection(p.next_connection_id, p.max_channels, p.max_send_times);
        assert forall|x: Seq<char>| !fresh.wanted.contains(x) by {}
        lemma_push_keeps_order(p, fresh);
        assert(after_connect(p).connections == p.connections.push(fresh));
    }
}

/// The closing of a connection keeps the pool in order.
pub proof fn law_closing_keeps_order(p: PoolView, id: usize, now: u64)
    requires
        pool_wf(p),
        has_connection(p, id),
    ensures
        pool_wf(after_closed(p, id, now)),
{
    let i = first_index(p.connections, identified(id));
    lemma_first_index(p.connections, identified(id));
    let rest = PoolView { connections: p.connections.remove(i), ..p };
    lemma_remove_keeps_order(p, i);
    lemma_joins_keep_order(rest, p.connections[i].wanted, now);
    let moved = with_channels_moved(p, id, now);
    let settled = PoolView {
        current_whisper_connection_id: if p.current_whisper_connection_id == Some(id) {
            None
        } else {
            p.current_whisper_connection_id
        },
        ..moved
    };
    assert(pool_wf(settled));
    law_connect_keeps_order(settled);
}

/// A message of the server keeps the pool in order.
pub proof fn law_message_keeps_order(p: PoolView, id: usize, message: ServerMessage)
    requires
        pool_wf(p),
        (message is Join || message is Part) ==> has_connection(p, id),
    ensures
        pool_wf(after_message(p, id, message)),
{
    let q = after_message(p, id, message);
    if message is Join || message is Part {
        lemma_first_index(p.connections, identified(id));
        let i = first_index(p.connections, identified(id));
        let old = p.connections[i];
        assert(connection_wf(old));
        match message {
            ServerMessage::Join(join) => {
                lemma_with_item(old.server, join.channel_login@);
            },
            ServerMessage::Part(part) => {
                lemma_without_item(old.server, part.channel_login@);
            },
            _ => {},
        }
        assert forall|k: int| 0 <= k < q.connections.len() implies connection_wf(
            #[trigger] q.connections[k],
        ) by {
            if k != i {
                assert(q.connections[k] == p.connections[k]);
            }
        }
        assert forall|a: int, b: int, channel: Seq<char>|
            0 <= a < b < q.connections.len() implies !(#[trigger] q.connections[a].wanted.contains(
            channel,
        ) && #[trigger] q.connections[b].wanted.contains(channel)) by {
            assert(q.connections[a].wanted == p.connections[a].wanted);
            assert(q.connections[b].wanted == p.connections[b].wanted);
            assert(!(p.connections[a].wanted.contains(channel) && p.connections[b].wanted.contains(
                channel,
            )));
        }
    }
}

} // verus!
