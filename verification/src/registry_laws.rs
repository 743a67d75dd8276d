//! Laws of the registry, stated over the values that its operations are
//! specified with.

use crate::peer::{agent_index, agent_named, PeerSource, PeerStateView};
use crate::registry::{
    exposes, find_agent_in, lemma_without_distinct, lookup, names_distinct, peer_index,
    peer_named, upsert, without, without_discovered,
};
use crate::search::{first_where, lemma_first_where, lemma_first_where_is};
use vstd::prelude::*;

verus! {

/// `peers` after the writes of `writes`, made one after the other.
pub open spec fn apply_updates(peers: Seq<PeerStateView>, writes: Seq<PeerStateView>) -> Seq<
    PeerStateView,
>
    decreases writes.len(),
{
    if writes.len() == 0 {
        peers
    } else {
        upsert(apply_updates(peers, writes.drop_last()), writes.last())
    }
}

/// The last of `writes` made under `name`.
pub open spec fn last_write(writes: Seq<PeerStateView>, name: Seq<char>) -> Option<PeerStateView>
    decreases writes.len(),
{
    if writes.len() == 0 {
        None
    } else if writes.last().name == name {
        Some(writes.last())
    } else {
        last_write(writes.drop_last(), name)
    }
}

/// Every entry is the one that a lookup of its name finds.
pub open spec fn each_found_by_name(peers: Seq<PeerStateView>) -> bool {
    forall|i: int| 0 <= i < peers.len() ==> lookup(peers, #[trigger] peers[i].name) == Some(peers[i])
}

/// Where names are distinct, a lookup by an entry's name finds that entry.
pub proof fn lemma_distinct_found_by_name(peers: Seq<PeerStateView>)
    requires
        names_distinct(peers),
    ensures
        each_found_by_name(peers),
{
    assert forall|i: int| 0 <= i < peers.len() implies lookup(peers, #[trigger] peers[i].name)
        == Some(peers[i]) by {
        lemma_first_where_is(peers, peer_named(peers[i].name), i);
    }
}

/// After one write, a lookup of the written name finds what was written, and
/// a lookup of any other name finds what it found before.
pub proof fn lemma_lookup_after_update(
    peers: Seq<PeerStateView>,
    state: PeerStateView,
    name: Seq<char>,
)
    ensures
        lookup(upsert(peers, state), name) == if name == state.name {
            Some(state)
        } else {
            lookup(peers, name)
        },
{
    let after = upsert(peers, state);
    let at = peer_index(peers, state.name);
    let i = peer_index(peers, name);
    lemma_first_where(peers, peer_named(state.name));
    lemma_first_where(peers, peer_named(name));
    if name == state.name {
        lemma_first_where_is(after, peer_named(name), at);
    } else if i < peers.len() {
        lemma_first_where_is(after, peer_named(name), i);
    } else {
        assert forall|j: int| 0 <= j < after.len() implies !peer_named(name)(
            #[trigger] after[j],
        ) by {
            if j < peers.len() && j != at {
                assert(after[j] == peers[j]);
            }
        }
        lemma_first_where_is(after, peer_named(name), after.len() as int);
    }
}

/// After any sequence of writes the registry holds exactly one entry for each
/// name, and under each written name the last value written under it; a name
/// that was never written keeps the entry it had.
pub proof fn lemma_updates_keep_last_write(
    peers: Seq<PeerStateView>,
    writes: Seq<PeerStateView>,
    name: Seq<char>,
)
    requires
        names_distinct(peers),
    ensures
        names_distinct(apply_updates(peers, writes)),
        each_found_by_name(apply_updates(peers, writes)),
        lookup(apply_updates(peers, writes), name) == match last_write(writes, name) {
            Some(w) => Some(w),
            None => lookup(peers, name),
        },
    decreases writes.len(),
{
    if writes.len() > 0 {
        let before = apply_updates(peers, writes.drop_last());
        lemma_updates_keep_last_write(peers, writes.drop_last(), name);
        lemma_first_where(before, peer_named(writes.last().name));
        lemma_lookup_after_update(before, writes.last(), name);
    }
    lemma_distinct_found_by_name(apply_updates(peers, writes));
}

/// Starting from an empty registry, the entries are exactly the written
/// names, each with its last written value.
pub proof fn lemma_updates_from_empty(writes: Seq<PeerStateView>, name: Seq<char>)
    ensures
        names_distinct(apply_updates(Seq::empty(), writes)),
        lookup(apply_updates(Seq::empty(), writes), name) == last_write(writes, name),
{
    let none = Seq::<PeerStateView>::empty();
    lemma_updates_keep_last_write(none, writes, name);
    lemma_first_where(none, peer_named(name));
}

/// A removal on behalf of discovery leaves an entry of static source, and
/// with it the whole registry, as it was.
pub proof fn lemma_static_peer_survives(peers: Seq<PeerStateView>, name: Seq<char>)
    requires
        lookup(peers, name) matches Some(p) && p.source == PeerSource::Static,
    ensures
        without_discovered(peers, name) == peers,
        lookup(without_discovered(peers, name), name) == lookup(peers, name),
{
}

/// Deleting the entry of one name leaves every other name with the entry it
/// had.
pub proof fn lemma_lookup_after_removal(
    peers: Seq<PeerStateView>,
    gone: Seq<char>,
    other: Seq<char>,
)
    requires
        other != gone,
    ensures
        lookup(without(peers, gone), other) == lookup(peers, other),
{
    let rest = without(peers, gone);
    let at = peer_index(peers, gone);
    let i = peer_index(peers, other);
    lemma_first_where(peers, peer_named(gone));
    lemma_first_where(peers, peer_named(other));
    if at < peers.len() {
        assert forall|j: int| 0 <= j < rest.len() implies #[trigger] rest[j] == peers[if j < at {
            j
        } else {
            j + 1
        }] by {}
        if i < peers.len() {
            let moved = if i < at {
                i
            } else {
                i - 1
            };
            assert(rest[moved] == peers[i]);
            lemma_first_where_is(rest, peer_named(other), moved);
        } else {
            lemma_first_where_is(rest, peer_named(other), rest.len() as int);
        }
    }
}

/// A removal on behalf of discovery deletes an entry that discovery added
/// and touches no other entry.
pub proof fn lemma_discovered_peer_leaves(
    peers: Seq<PeerStateView>,
    name: Seq<char>,
    other: Seq<char>,
)
    requires
        names_distinct(peers),
        lookup(peers, name) matches Some(p) && p.source == PeerSource::Mdns,
        other != name,
    ensures
        lookup(without_discovered(peers, name), name) is None,
        lookup(without_discovered(peers, name), other) == lookup(peers, other),
{
    lemma_without_distinct(peers, name);
    lemma_lookup_after_removal(peers, name, other);
}

/// A lookup within a named peer answers from the entry of that name and from
/// no other: it finds an agent exactly when that entry exists and lists an
/// agent of the wanted name, and then hands out that entry's address and
/// credential and the first such agent of its list.
pub proof fn lemma_find_in_named_peer(
    peers: Seq<PeerStateView>,
    peer: Seq<char>,
    agent: Seq<char>,
)
    ensures
        match find_agent_in(peers, Some(peer), agent) {
            Some(hit) => {
                &&& lookup(peers, peer) matches Some(p)
                &&& p.name == peer
                &&& hit.0 == p.url
                &&& hit.1 == p.shared_secret
                &&& hit.2.name == agent
                &&& p.agents.contains(hit.2)
            },
            None => lookup(peers, peer) matches Some(p) ==> forall|k: int|
                0 <= k < p.agents.len() ==> (#[trigger] p.agents[k]).name != agent,
        },
{
    lemma_first_where(peers, peer_named(peer));
    let i = peer_index(peers, peer);
    if i < peers.len() {
        let p = peers[i];
        lemma_first_where(p.agents, agent_named(agent));
        let k = agent_index(p.agents, agent);
        if k < p.agents.len() {
            assert(agent_named(agent)(p.agents[k]));
        } else {
            assert forall|j: int| 0 <= j < p.agents.len() implies (#[trigger] p.agents[j]).name
                != agent by {
                assert(!agent_named(agent)(p.agents[j]));
            }
        }
    }
}

/// A lookup without a peer finds an agent exactly when some peer lists an
/// agent of the wanted name; the agent found bears that name and comes, with
/// address and credential, from the first peer in registry order that lists
/// one.
pub proof fn lemma_find_anywhere(peers: Seq<PeerStateView>, agent: Seq<char>)
    ensures
        find_agent_in(peers, None, agent) is Some <==> exists|i: int, k: int|
            0 <= i < peers.len() && 0 <= k < peers[i].agents.len() && (
            #[trigger] peers[i].agents[k]).name == agent,
        find_agent_in(peers, None, agent) matches Some(hit) ==> {
            let first = first_where(peers, exposes(agent));
            &&& 0 <= first < peers.len()
            &&& hit.0 == peers[first].url
            &&& hit.1 == peers[first].shared_secret
            &&& hit.2.name == agent
            &&& peers[first].agents.contains(hit.2)
            &&& forall|j: int, k: int|
                0 <= j < first && 0 <= k < peers[j].agents.len() ==> (
                #[trigger] peers[j].agents[k]).name != agent
        },
{
    lemma_first_where(peers, exposes(agent));
    let first = first_where(peers, exposes(agent));
    if first < peers.len() {
        let p = peers[first];
        lemma_first_where(p.agents, agent_named(agent));
        let k = agent_index(p.agents, agent);
        assert(exposes(agent)(p));
        assert(agent_named(agent)(p.agents[k]));
        assert(peers[first].agents[k].name == agent);
    } else {
        assert forall|i: int, k: int|
            0 <= i < peers.len() && 0 <= k < peers[i].agents.len() implies (
        #[trigger] peers[i].agents[k]).name != agent by {
            assert(!exposes(agent)(peers[i]));
            lemma_first_where(peers[i].agents, agent_named(agent));
            assert(!agent_named(agent)(peers[i].agents[k]));
        }
    }
    assert forall|j: int, k: int| 0 <= j < first && 0 <= k < peers[j].agents.len() implies (
    #[trigger] peers[j].agents[k]).name != agent by {
        assert(!exposes(agent)(peers[j]));
        lemma_first_where(peers[j].agents, agent_named(agent));
        assert(!agent_named(agent)(peers[j].agents[k]));
    }
}

} // verus!
