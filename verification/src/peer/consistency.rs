//! What holds of the request identifiers in every state of the behaviour: a
//! request waits in one place only.

use crate::peer::address::ConnectionId;
use crate::peer::behaviour::{
    first_connection, is_first_connection, BehaviourState, ConnectionView, FromSwarm,
    RequestResponse,
};
use crate::peer::handler::HandlerEventView;
use crate::peer::protocol::RequestView;
use vstd::prelude::*;

verus! {

/// Whether the request `id` waits for its response on the connection at the
/// position `i` among the connections to `peer`.
pub open spec fn pending_at(state: BehaviourState, peer: Seq<u8>, i: int, id: u64) -> bool {
    &&& state.connected.dom().contains(peer)
    &&& 0 <= i < state.connected[peer].len()
    &&& state.connected[peer][i].pending.contains(id)
}

/// Whether the request `id` waits for a connection at the position `i` among
/// the requests that wait for `peer`.
pub open spec fn waiting_at(state: BehaviourState, peer: Seq<u8>, i: int, id: u64) -> bool {
    &&& state.pending_outbound.dom().contains(peer)
    &&& 0 <= i < state.pending_outbound[peer].len()
    &&& state.pending_outbound[peer][i].request_id == id
}

/// Whether every request that waits has an identifier that was handed out.
pub open spec fn ids_handed_out(state: BehaviourState) -> bool {
    &&& forall|peer: Seq<u8>, i: int, id: u64| #[trigger]
        pending_at(state, peer, i, id) ==> id < state.next_request_id
    &&& forall|peer: Seq<u8>, i: int, id: u64| #[trigger]
        waiting_at(state, peer, i, id) ==> id < state.next_request_id
}

/// Whether no request waits for its response on two connections.
pub open spec fn pending_once(state: BehaviourState) -> bool {
    forall|p1: Seq<u8>, i1: int, p2: Seq<u8>, i2: int, id: u64|
        #[trigger] pending_at(state, p1, i1, id) && #[trigger] pending_at(state, p2, i2, id) ==> p1
            == p2 && i1 == i2
}

/// Whether no request waits for a connection in two places.
pub open spec fn waiting_once(state: BehaviourState) -> bool {
    forall|p1: Seq<u8>, i1: int, p2: Seq<u8>, i2: int, id: u64|
        #[trigger] waiting_at(state, p1, i1, id) && #[trigger] waiting_at(state, p2, i2, id) ==> p1
            == p2 && i1 == i2
}

/// Whether no request waits both for a connection and for its response.
pub open spec fn sent_or_waiting(state: BehaviourState) -> bool {
    forall|p1: Seq<u8>, i1: int, p2: Seq<u8>, i2: int, id: u64|
        !(#[trigger] pending_at(state, p1, i1, id) && #[trigger] waiting_at(state, p2, i2, id))
}

/// The invariant of the behaviour: every request that waits has an
/// identifier that was handed out, and waits in one place only: for a
/// connection, or for its response on one connection.
pub open spec fn inv(state: BehaviourState) -> bool {
    &&& ids_handed_out(state)
    &&& pending_once(state)
    &&& waiting_once(state)
    &&& sent_or_waiting(state)
}

/// Whether the request `id` waits nowhere in `state`.
pub open spec fn fresh(state: BehaviourState, id: u64) -> bool {
    &&& forall|peer: Seq<u8>, i: int| !#[trigger] pending_at(state, peer, i, id)
    &&& forall|peer: Seq<u8>, i: int| !#[trigger] waiting_at(state, peer, i, id)
}

/// A behaviour that knows no peer keeps the invariant.
pub proof fn lemma_new_keeps_invariant(first_id: nat)
    ensures
        inv(
            BehaviourState {
                next_request_id: first_id,
                pending_events: Seq::empty(),
                connected: Map::empty(),
                addresses: Map::empty(),
                pending_outbound: Map::empty(),
            },
        ),
{
}

/// Handing a request that waits nowhere to a connection keeps the invariant.
pub proof fn lemma_dispatch_keeps_invariant(state: BehaviourState, peer: Seq<u8>, request: RequestView)
    requires
        inv(state),
        state.is_connected(peer),
        fresh(state, request.request_id),
        request.request_id < state.next_request_id,
    ensures
        inv(state.dispatch(peer, request)),
        state.dispatch(peer, request).is_connected(peer),
        state.dispatch(peer, request).next_request_id == state.next_request_id,
        state.dispatch(peer, request).pending_outbound == state.pending_outbound,
        forall|id: u64|
            id != request.request_id && fresh(state, id) ==> #[trigger] fresh(
                state.dispatch(peer, request),
                id,
            ),
{
    let after = state.dispatch(peer, request);
    let conns = state.connected[peer];
    let ix = BehaviourState::chosen_connection(request.request_id, conns.len());
    assert(0 <= ix < conns.len()) by {
        vstd::arithmetic::div_mod::lemma_mod_bound(request.request_id as int, conns.len() as int);
    }
    assert forall|p: Seq<u8>, i: int, id: u64| #[trigger] pending_at(after, p, i, id) implies (
    pending_at(state, p, i, id) || (p == peer && i == ix && id == request.request_id)) by {
        if p == peer {
            assert(after.connected[peer].len() == conns.len());
            if i != ix {
                assert(after.connected[peer][i] == conns[i]);
            }
        } else {
            assert(after.connected[p] == state.connected[p]);
        }
    }
    assert forall|p: Seq<u8>, i: int, id: u64| #[trigger] waiting_at(after, p, i, id) implies waiting_at(
        state,
        p,
        i,
        id,
    ) by {}
    assert forall|p: Seq<u8>, i: int, id: u64| #[trigger]
        pending_at(after, p, i, id) implies id < after.next_request_id by {
        if pending_at(state, p, i, id) {
        }
    }
    assert forall|p1: Seq<u8>, i1: int, p2: Seq<u8>, i2: int, id: u64|
        #[trigger] pending_at(after, p1, i1, id) && #[trigger] pending_at(
            after,
            p2,
            i2,
            id,
        ) implies p1 == p2 && i1 == i2 by {
        if id == request.request_id {
            assert(!pending_at(state, p1, i1, id));
            assert(!pending_at(state, p2, i2, id));
        } else {
            assert(pending_at(state, p1, i1, id));
            assert(pending_at(state, p2, i2, id));
        }
    }
    assert forall|p1: Seq<u8>, i1: int, p2: Seq<u8>, i2: int, id: u64|
        !(#[trigger] pending_at(after, p1, i1, id) && #[trigger] waiting_at(
            after,
            p2,
            i2,
            id,
        )) by {
        if pending_at(after, p1, i1, id) && waiting_at(after, p2, i2, id) {
            assert(waiting_at(state, p2, i2, id));
            if id == request.request_id {
            } else {
                assert(pending_at(state, p1, i1, id));
            }
        }
    }
    assert(waiting_once(after)) by {
        assert forall|p1: Seq<u8>, i1: int, p2: Seq<u8>, i2: int, id: u64|
            #[trigger] waiting_at(after, p1, i1, id) && #[trigger] waiting_at(
                after,
                p2,
                i2,
                id,
            ) implies p1 == p2 && i1 == i2 by {
            assert(waiting_at(state, p1, i1, id));
            assert(waiting_at(state, p2, i2, id));
        }
    }
    assert forall|id: u64| id != request.request_id && fresh(state, id) implies #[trigger] fresh(
        after,
        id,
    ) by {
        assert forall|p: Seq<u8>, i: int| !#[trigger] pending_at(after, p, i, id) by {
            if pending_at(after, p, i, id) {
                assert(pending_at(state, p, i, id));
            }
        }
        assert forall|p: Seq<u8>, i: int| !#[trigger] waiting_at(after, p, i, id) by {
            if waiting_at(after, p, i, id) {
                assert(waiting_at(state, p, i, id));
            }
        }
    }
}

/// Queueing a request that waits nowhere keeps the invariant.
pub proof fn lemma_enqueue_keeps_invariant(state: BehaviourState, peer: Seq<u8>, request: RequestView)
    requires
        inv(state),
        fresh(state, request.request_id),
        request.request_id < state.next_request_id,
    ensures
        inv(state.enqueue(peer, request)),
{
    let after = state.enqueue(peer, request);
    let last = state.waiting_for(peer).len() as int;
    assert forall|p: Seq<u8>, i: int, id: u64| #[trigger] waiting_at(after, p, i, id) implies (
    waiting_at(state, p, i, id) || (p == peer && i == last && id == request.request_id)) by {
        if p == peer {
            if i != last {
                assert(after.pending_outbound[peer][i] == state.waiting_for(peer)[i]);
            }
        } else {
            assert(after.pending_outbound[p] == state.pending_outbound[p]);
        }
    }
    assert forall|p: Seq<u8>, i: int, id: u64| #[trigger] pending_at(after, p, i, id) implies pending_at(
        state,
        p,
        i,
        id,
    ) by {}
    assert forall|p1: Seq<u8>, i1: int, p2: Seq<u8>, i2: int, id: u64|
        #[trigger] waiting_at(after, p1, i1, id) && #[trigger] waiting_at(
            after,
            p2,
            i2,
            id,
        ) implies p1 == p2 && i1 == i2 by {
        if id == request.request_id {
            assert(!waiting_at(state, p1, i1, id));
            assert(!waiting_at(state, p2, i2, id));
        } else {
            assert(waiting_at(state, p1, i1, id));
            assert(waiting_at(state, p2, i2, id));
        }
    }
    assert forall|p1: Seq<u8>, i1: int, p2: Seq<u8>, i2: int, id: u64|
        !(#[trigger] pending_at(after, p1, i1, id) && #[trigger] waiting_at(
            after,
            p2,
            i2,
            id,
        )) by {
        if pending_at(after, p1, i1, id) && waiting_at(after, p2, i2, id) {
            assert(pending_at(state, p1, i1, id));
            if id != request.request_id {
                assert(waiting_at(state, p2, i2, id));
            }
        }
    }
    assert(pending_once(after)) by {
        assert forall|p1: Seq<u8>, i1: int, p2: Seq<u8>, i2: int, id: u64|
            #[trigger] pending_at(after, p1, i1, id) && #[trigger] pending_at(
                after,
                p2,
                i2,
                id,
            ) implies p1 == p2 && i1 == i2 by {
            assert(pending_at(state, p1, i1, id));
            assert(pending_at(state, p2, i2, id));
        }
    }
    assert(ids_handed_out(after)) by {
        assert forall|p: Seq<u8>, i: int, id: u64| #[trigger]
            pending_at(after, p, i, id) implies id < after.next_request_id by {
            assert(pending_at(state, p, i, id));
        }
        assert forall|p: Seq<u8>, i: int, id: u64| #[trigger]
            waiting_at(after, p, i, id) implies id < after.next_request_id by {
            if waiting_at(state, p, i, id) {
            }
        }
    }
}

/// Making a request keeps the invariant: the new identifier was never handed
/// out before, so the request waits nowhere else.
pub proof fn lemma_send_request_keeps_invariant(
    state: BehaviourState,
    peer: Seq<u8>,
    protocols: Seq<Seq<u8>>,
    payload: Seq<u8>,
)
    requires
        inv(state),
        state.next_request_id < u64::MAX,
    ensures
        inv(state.send_request(peer, protocols, payload)),
{
    let request = RequestView { request_id: state.next_request_id as u64, protocols, payload };
    let next = BehaviourState { next_request_id: state.next_request_id + 1, ..state };
    assert forall|p: Seq<u8>, i: int, id: u64| pending_at(next, p, i, id) == pending_at(
        state,
        p,
        i,
        id,
    ) by {}
    assert forall|p: Seq<u8>, i: int, id: u64| waiting_at(next, p, i, id) == waiting_at(
        state,
        p,
        i,
        id,
    ) by {}
    assert(inv(next)) by {
        assert forall|p1: Seq<u8>, i1: int, p2: Seq<u8>, i2: int, id: u64|
            #[trigger] pending_at(next, p1, i1, id) && #[trigger] pending_at(
                next,
                p2,
                i2,
                id,
            ) implies p1 == p2 && i1 == i2 by {
            assert(pending_at(state, p1, i1, id) && pending_at(state, p2, i2, id));
        }
        assert forall|p1: Seq<u8>, i1: int, p2: Seq<u8>, i2: int, id: u64|
            #[trigger] waiting_at(next, p1, i1, id) && #[trigger] waiting_at(
                next,
                p2,
                i2,
                id,
            ) implies p1 == p2 && i1 == i2 by {
            assert(waiting_at(state, p1, i1, id) && waiting_at(state, p2, i2, id));
        }
        assert forall|p1: Seq<u8>, i1: int, p2: Seq<u8>, i2: int, id: u64|
            !(#[trigger] pending_at(next, p1, i1, id) && #[trigger] waiting_at(
                next,
                p2,
                i2,
                id,
            )) by {
            if pending_at(next, p1, i1, id) && waiting_at(next, p2, i2, id) {
                assert(pending_at(state, p1, i1, id) && waiting_at(state, p2, i2, id));
            }
        }
        assert forall|p: Seq<u8>, i: int, id: u64| #[trigger]
            pending_at(next, p, i, id) implies id < next.next_request_id by {
            assert(pending_at(state, p, i, id));
        }
        assert forall|p: Seq<u8>, i: int, id: u64| #[trigger]
            waiting_at(next, p, i, id) implies id < next.next_request_id by {
            assert(waiting_at(state, p, i, id));
        }
    }
    assert(fresh(next, request.request_id)) by {
        assert forall|p: Seq<u8>, i: int| !#[trigger] pending_at(next, p, i, request.request_id) by {
            if pending_at(next, p, i, request.request_id) {
                assert(pending_at(state, p, i, request.request_id));
            }
        }
        assert forall|p: Seq<u8>, i: int| !#[trigger] waiting_at(next, p, i, request.request_id) by {
            if waiting_at(next, p, i, request.request_id) {
                assert(waiting_at(state, p, i, request.request_id));
            }
        }
    }
    if state.is_connected(peer) {
        lemma_dispatch_keeps_invariant(next, peer, request);
    } else {
        lemma_enqueue_keeps_invariant(next, peer, request);
    }
}

/// A state in which nothing waits that did not wait before, in the same
/// place, keeps the invariant.
pub proof fn lemma_fewer_keep_invariant(state: BehaviourState, after: BehaviourState)
    requires
        inv(state),
        after.next_request_id >= state.next_request_id,
        forall|p: Seq<u8>, i: int, id: u64| #[trigger]
            pending_at(after, p, i, id) ==> pending_at(state, p, i, id),
        forall|p: Seq<u8>, i: int, id: u64| #[trigger]
            waiting_at(after, p, i, id) ==> waiting_at(state, p, i, id),
    ensures
        inv(after),
        forall|id: u64| fresh(state, id) ==> #[trigger] fresh(after, id),
{
    assert forall|p1: Seq<u8>, i1: int, p2: Seq<u8>, i2: int, id: u64|
        #[trigger] pending_at(after, p1, i1, id) && #[trigger] pending_at(
            after,
            p2,
            i2,
            id,
        ) implies p1 == p2 && i1 == i2 by {
        assert(pending_at(state, p1, i1, id) && pending_at(state, p2, i2, id));
    }
    assert forall|p1: Seq<u8>, i1: int, p2: Seq<u8>, i2: int, id: u64|
        #[trigger] waiting_at(after, p1, i1, id) && #[trigger] waiting_at(
            after,
            p2,
            i2,
            id,
        ) implies p1 == p2 && i1 == i2 by {
        assert(waiting_at(state, p1, i1, id) && waiting_at(state, p2, i2, id));
    }
    assert forall|p1: Seq<u8>, i1: int, p2: Seq<u8>, i2: int, id: u64|
        !(#[trigger] pending_at(after, p1, i1, id) && #[trigger] waiting_at(
            after,
            p2,
            i2,
            id,
        )) by {
        if pending_at(after, p1, i1, id) && waiting_at(after, p2, i2, id) {
            assert(pending_at(state, p1, i1, id) && waiting_at(state, p2, i2, id));
        }
    }
    assert forall|p: Seq<u8>, i: int, id: u64| #[trigger]
        pending_at(after, p, i, id) implies id < after.next_request_id by {
        assert(pending_at(state, p, i, id));
    }
    assert forall|p: Seq<u8>, i: int, id: u64| #[trigger]
        waiting_at(after, p, i, id) implies id < after.next_request_id by {
        assert(waiting_at(state, p, i, id));
    }
    assert forall|id: u64| fresh(state, id) implies #[trigger] fresh(after, id) by {
        assert forall|p: Seq<u8>, i: int| !#[trigger] pending_at(after, p, i, id) by {
            if pending_at(after, p, i, id) {
                assert(pending_at(state, p, i, id));
            }
        }
        assert forall|p: Seq<u8>, i: int| !#[trigger] waiting_at(after, p, i, id) by {
            if waiting_at(after, p, i, id) {
                assert(waiting_at(state, p, i, id));
            }
        }
    }
}

/// Whether the requests of `requests` have identifiers that differ, were
/// handed out, and wait nowhere in `state`.
pub open spec fn ready_to_dispatch(state: BehaviourState, requests: Seq<RequestView>) -> bool {
    &&& forall|k: int|
        0 <= k < requests.len() ==> fresh(state, (#[trigger] requests[k]).request_id)
            && requests[k].request_id < state.next_request_id
    &&& forall|j: int, k: int|
        0 <= j < k < requests.len() ==> (#[trigger] requests[j]).request_id != (
        #[trigger] requests[k]).request_id
}

/// Handing requests that wait nowhere to connections, one after the other,
/// keeps the invariant.
pub proof fn lemma_dispatch_all_keeps_invariant(
    state: BehaviourState,
    peer: Seq<u8>,
    requests: Seq<RequestView>,
)
    requires
        inv(state),
        state.is_connected(peer),
        ready_to_dispatch(state, requests),
    ensures
        inv(state.dispatch_all(peer, requests)),
    decreases requests.len(),
{
    if requests.len() > 0 {
        let first = requests[0];
        let next = state.dispatch(peer, first);
        let rest = requests.drop_first();
        lemma_dispatch_keeps_invariant(state, peer, first);
        assert forall|k: int| 0 <= k < rest.len() implies fresh(
            next,
            (#[trigger] rest[k]).request_id,
        ) && rest[k].request_id < next.next_request_id by {
            assert(rest[k] == requests[k + 1]);
            assert(requests[0].request_id != requests[k + 1].request_id);
            assert(fresh(state, requests[k + 1].request_id));
        }
        assert forall|j: int, k: int| 0 <= j < k < rest.len() implies (#[trigger] rest[j]).request_id
            != (#[trigger] rest[k]).request_id by {
            assert(rest[j] == requests[j + 1]);
            assert(rest[k] == requests[k + 1]);
        }
        lemma_dispatch_all_keeps_invariant(next, peer, rest);
    }
}

/// A connection that is established keeps the invariant: the requests that
/// waited for the peer each move to one connection.
pub proof fn lemma_connection_established_keeps_invariant(
    state: BehaviourState,
    peer: Seq<u8>,
    id: ConnectionId,
    address: Option<Seq<u8>>,
    other_established: nat,
)
    requires
        inv(state),
    ensures
        inv(state.connection_established(peer, id, address, other_established)),
{
    let conn = ConnectionView { id, address, pending: Set::empty() };
    let joined = BehaviourState {
        connected: state.connected.insert(peer, state.connections_of(peer).push(conn)),
        ..state
    };
    assert forall|p: Seq<u8>, i: int, x: u64| #[trigger] pending_at(joined, p, i, x) implies pending_at(
        state,
        p,
        i,
        x,
    ) by {
        if p == peer {
            let before = state.connections_of(peer);
            if i < before.len() {
                assert(joined.connected[peer][i] == before[i]);
            } else {
                assert(joined.connected[peer][i] == conn);
            }
        } else {
            assert(joined.connected[p] == state.connected[p]);
        }
    }
    assert forall|p: Seq<u8>, i: int, x: u64| #[trigger] waiting_at(joined, p, i, x) implies waiting_at(
        state,
        p,
        i,
        x,
    ) by {}
    lemma_fewer_keep_invariant(state, joined);
    if other_established == 0 && state.pending_outbound.dom().contains(peer) {
        let cleared = BehaviourState {
            pending_outbound: state.pending_outbound.remove(peer),
            ..joined
        };
        let requests = state.pending_outbound[peer];
        assert forall|p: Seq<u8>, i: int, x: u64| #[trigger] pending_at(cleared, p, i, x) implies pending_at(
            joined,
            p,
            i,
            x,
        ) by {}
        assert forall|p: Seq<u8>, i: int, x: u64| #[trigger] waiting_at(cleared, p, i, x) implies waiting_at(
            joined,
            p,
            i,
            x,
        ) by {}
        lemma_fewer_keep_invariant(joined, cleared);
        assert forall|k: int| 0 <= k < requests.len() implies fresh(
            cleared,
            (#[trigger] requests[k]).request_id,
        ) && requests[k].request_id < cleared.next_request_id by {
            let x = requests[k].request_id;
            assert(waiting_at(state, peer, k, x));
            assert forall|p: Seq<u8>, i: int| !#[trigger] pending_at(cleared, p, i, x) by {
                if pending_at(cleared, p, i, x) {
                    assert(pending_at(joined, p, i, x));
                    assert(pending_at(state, p, i, x));
                }
            }
            assert forall|p: Seq<u8>, i: int| !#[trigger] waiting_at(cleared, p, i, x) by {
                if waiting_at(cleared, p, i, x) {
                    assert(waiting_at(state, p, i, x));
                    assert(p != peer);
                }
            }
        }
        assert forall|j: int, k: int| 0 <= j < k < requests.len() implies (
        #[trigger] requests[j]).request_id != (#[trigger] requests[k]).request_id by {
            if requests[j].request_id == requests[k].request_id {
                assert(waiting_at(state, peer, j, requests[j].request_id));
                assert(waiting_at(state, peer, k, requests[j].request_id));
            }
        }
        assert(cleared.is_connected(peer));
        lemma_dispatch_all_keeps_invariant(cleared, peer, requests);
    }
}

/// A connection that is closed keeps the invariant, in whatever order the
/// requests that waited on it are reported.
pub proof fn lemma_connection_closed_keeps_invariant(
    state: BehaviourState,
    peer: Seq<u8>,
    id: ConnectionId,
    order: Seq<u64>,
)
    requires
        inv(state),
        state.knows_connection(peer, id),
    ensures
        inv(state.connection_closed(peer, id, order)),
{
    let after = state.connection_closed(peer, id, order);
    let conns = state.connected[peer];
    let gone = first_connection(conns, id);
    assert(is_first_connection(conns, id, gone)) by {
        let w = choose|i: int| 0 <= i < conns.len() && (#[trigger] conns[i]).id == id;
        lemma_first_exists(conns, id, w);
    }
    let rest = conns.remove(gone);
    // Where a request waits afterwards, it waited before: at the same
    // position, or one further back behind the connection that is gone.
    assert forall|p: Seq<u8>, i: int, x: u64| #[trigger] pending_at(after, p, i, x) implies pending_at(
        state,
        p,
        if p == peer && i >= gone {
            i + 1
        } else {
            i
        },
        x,
    ) by {
        if p == peer {
            assert(after.connected[peer] == rest);
            if i >= gone {
                assert(rest[i] == conns[i + 1]);
            } else {
                assert(rest[i] == conns[i]);
            }
        } else {
            assert(after.connected[p] == state.connected[p]);
        }
    }
    assert forall|p: Seq<u8>, i: int, x: u64| #[trigger] waiting_at(after, p, i, x) implies waiting_at(
        state,
        p,
        i,
        x,
    ) by {}
    assert forall|p1: Seq<u8>, i1: int, p2: Seq<u8>, i2: int, x: u64|
        #[trigger] pending_at(after, p1, i1, x) && #[trigger] pending_at(
            after,
            p2,
            i2,
            x,
        ) implies p1 == p2 && i1 == i2 by {
        let j1 = if p1 == peer && i1 >= gone {
            i1 + 1
        } else {
            i1
        };
        let j2 = if p2 == peer && i2 >= gone {
            i2 + 1
        } else {
            i2
        };
        assert(pending_at(state, p1, j1, x) && pending_at(state, p2, j2, x));
    }
    assert forall|p1: Seq<u8>, i1: int, p2: Seq<u8>, i2: int, x: u64|
        #[trigger] waiting_at(after, p1, i1, x) && #[trigger] waiting_at(
            after,
            p2,
            i2,
            x,
        ) implies p1 == p2 && i1 == i2 by {
        assert(waiting_at(state, p1, i1, x) && waiting_at(state, p2, i2, x));
    }
    assert forall|p1: Seq<u8>, i1: int, p2: Seq<u8>, i2: int, x: u64|
        !(#[trigger] pending_at(after, p1, i1, x) && #[trigger] waiting_at(
            after,
            p2,
            i2,
            x,
        )) by {
        if pending_at(after, p1, i1, x) && waiting_at(after, p2, i2, x) {
            let j1 = if p1 == peer && i1 >= gone {
                i1 + 1
            } else {
                i1
            };
            assert(pending_at(state, p1, j1, x) && waiting_at(state, p2, i2, x));
        }
    }
    assert forall|p: Seq<u8>, i: int, x: u64| #[trigger]
        pending_at(after, p, i, x) implies x < after.next_request_id by {
        let j = if p == peer && i >= gone {
            i + 1
        } else {
            i
        };
        assert(pending_at(state, p, j, x));
    }
    assert forall|p: Seq<u8>, i: int, x: u64| #[trigger]
        waiting_at(after, p, i, x) implies x < after.next_request_id by {
        assert(waiting_at(state, p, i, x));
    }
}

/// Among connections of which one has the identifier `id`, there is a first
/// one with it.
pub proof fn lemma_first_exists(conns: Seq<ConnectionView>, id: ConnectionId, witness: int)
    requires
        0 <= witness < conns.len(),
        conns[witness].id == id,
    ensures
        is_first_connection(conns, id, first_connection(conns, id)),
    decreases witness,
{
    if forall|j: int| 0 <= j < witness ==> (#[trigger] conns[j]).id != id {
        assert(is_first_connection(conns, id, witness));
    } else {
        let j = choose|j: int| 0 <= j < witness && (#[trigger] conns[j]).id == id;
        lemma_first_exists(conns, id, j);
    }
}

/// A dial that failed keeps the invariant.
pub proof fn lemma_dial_failure_keeps_invariant(state: BehaviourState, peer: Option<Seq<u8>>)
    requires
        inv(state),
    ensures
        inv(state.dial_failure(peer)),
{
    let after = state.dial_failure(peer);
    assert forall|p: Seq<u8>, i: int, x: u64| #[trigger] pending_at(after, p, i, x) implies pending_at(
        state,
        p,
        i,
        x,
    ) by {}
    assert forall|p: Seq<u8>, i: int, x: u64| #[trigger] waiting_at(after, p, i, x) implies waiting_at(
        state,
        p,
        i,
        x,
    ) by {}
    lemma_fewer_keep_invariant(state, after);
}

/// A change of address keeps the invariant.
pub proof fn lemma_address_change_keeps_invariant(
    state: BehaviourState,
    peer: Seq<u8>,
    id: ConnectionId,
    address: Option<Seq<u8>>,
)
    requires
        inv(state),
        state.knows_connection(peer, id),
    ensures
        inv(state.address_change(peer, id, address)),
{
    let after = state.address_change(peer, id, address);
    let conns = state.connected[peer];
    let ix = first_connection(conns, id);
    assert(is_first_connection(conns, id, ix)) by {
        let w = choose|i: int| 0 <= i < conns.len() && (#[trigger] conns[i]).id == id;
        lemma_first_exists(conns, id, w);
    }
    assert forall|p: Seq<u8>, i: int, x: u64| #[trigger] pending_at(after, p, i, x) implies pending_at(
        state,
        p,
        i,
        x,
    ) by {
        if p == peer {
            if i != ix {
                assert(after.connected[peer][i] == conns[i]);
            }
        } else {
            assert(after.connected[p] == state.connected[p]);
        }
    }
    assert forall|p: Seq<u8>, i: int, x: u64| #[trigger] waiting_at(after, p, i, x) implies waiting_at(
        state,
        p,
        i,
        x,
    ) by {}
    lemma_fewer_keep_invariant(state, after);
}

/// What a handler tells keeps the invariant: a request whose outcome is
/// known waits no longer, and nothing else changes place.
pub proof fn lemma_handler_event_keeps_invariant(
    state: BehaviourState,
    peer: Seq<u8>,
    id: ConnectionId,
    event: HandlerEventView,
)
    requires
        inv(state),
    ensures
        inv(state.handler_event(peer, id, event)),
{
    let after = state.handler_event(peer, id, event);
    assert forall|p: Seq<u8>, i: int, x: u64| #[trigger] pending_at(after, p, i, x) implies pending_at(
        state,
        p,
        i,
        x,
    ) by {
        if state.knows_connection(peer, id) {
            let conns = state.connected[peer];
            let ix = first_connection(conns, id);
            assert(is_first_connection(conns, id, ix)) by {
                let w = choose|k: int| 0 <= k < conns.len() && (#[trigger] conns[k]).id == id;
                lemma_first_exists(conns, id, w);
            }
            if p == peer {
                if i != ix {
                    assert(after.connected[peer][i] == conns[i]);
                }
            } else {
                assert(after.connected[p] == state.connected[p]);
            }
        }
    }
    assert forall|p: Seq<u8>, i: int, x: u64| #[trigger] waiting_at(after, p, i, x) implies waiting_at(
        state,
        p,
        i,
        x,
    ) by {}
    lemma_fewer_keep_invariant(state, after);
}

/// Addresses that are added and removed keep the invariant.
pub proof fn lemma_addresses_keep_invariant(state: BehaviourState, peer: Seq<u8>, address: Seq<u8>)
    requires
        inv(state),
    ensures
        inv(state.add_address(peer, address)),
        inv(state.remove_address(peer, address)),
{
    lemma_fewer_keep_invariant(state, state.add_address(peer, address));
    lemma_fewer_keep_invariant(state, state.remove_address(peer, address));
}

/// Whatever the swarm tells, the behaviour keeps the invariant.
pub proof fn lemma_swarm_event_keeps_invariant(
    before: BehaviourState,
    event: FromSwarm,
    after: BehaviourState,
)
    requires
        inv(before),
        event matches FromSwarm::ConnectionClosed(closed) ==> before.knows_connection(
            closed.peer_id@,
            closed.connection_id,
        ),
        event matches FromSwarm::AddressChange(change) ==> before.knows_connection(
            change.peer_id@,
            change.connection_id,
        ),
        RequestResponse::follows(before, event, after),
    ensures
        inv(after),
{
    match event {
        FromSwarm::ConnectionEstablished(established) => {
            lemma_connection_established_keeps_invariant(
                before,
                established.peer_id@,
                established.connection_id,
                established.endpoint.spec_address(),
                established.other_established as nat,
            );
        },
        FromSwarm::ConnectionClosed(closed) => {
            let order = choose|order: Seq<u64>|
                #![trigger before.connection_closed(closed.peer_id@, closed.connection_id, order)]
                order.no_duplicates() && order.to_set() == before.pending_on(
                    closed.peer_id@,
                    closed.connection_id,
                ) && after == before.connection_closed(closed.peer_id@, closed.connection_id, order);
            lemma_connection_closed_keeps_invariant(
                before,
                closed.peer_id@,
                closed.connection_id,
                order,
            );
        },
        FromSwarm::AddressChange(change) => {
            lemma_address_change_keeps_invariant(
                before,
                change.peer_id@,
                change.connection_id,
                change.new.spec_address(),
            );
        },
        FromSwarm::DialFailure(failure) => {
            lemma_dial_failure_keeps_invariant(
                before,
                crate::peer::address::opt_peer(failure.peer_id),
            );
        },
        FromSwarm::Other => {},
    }
}

} // verus!
