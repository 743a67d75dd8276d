//! The registry of known peers: one entry per peer name, kept in the order in
//! which names were first written, searched first match first.

use crate::peer::{
    agent_index, agent_views, clone_agents, find_in_peer, peer_views, AgentHit, AgentInfo,
    AgentInfoView, PeerSource, PeerState, PeerStateView,
};
use crate::search::{first_where, lemma_first_where, lemma_first_where_is};
use vstd::prelude::*;

verus! {

/// The test "is the peer called `name`".
pub open spec fn peer_named(name: Seq<char>) -> spec_fn(PeerStateView) -> bool {
    |p: PeerStateView| p.name == name
}

/// The test "exposes an agent called `agent`".
pub open spec fn exposes(agent: Seq<char>) -> spec_fn(PeerStateView) -> bool {
    |p: PeerStateView| agent_index(p.agents, agent) < p.agents.len()
}

/// Position of the first peer called `name`, or `peers.len()`.
pub open spec fn peer_index(peers: Seq<PeerStateView>, name: Seq<char>) -> int {
    first_where(peers, peer_named(name))
}

/// No two entries share a name.
pub open spec fn names_distinct(peers: Seq<PeerStateView>) -> bool {
    forall|i: int, j: int| 0 <= i < j < peers.len() ==> peers[i].name != peers[j].name
}

/// The entry called `name`, if there is one.
pub open spec fn lookup(peers: Seq<PeerStateView>, name: Seq<char>) -> Option<PeerStateView> {
    let i = peer_index(peers, name);
    if i < peers.len() {
        Some(peers[i])
    } else {
        None
    }
}

/// `peers` after writing `state`: the entry of that name is replaced where it
/// stands, and a new name goes to the end.
pub open spec fn upsert(peers: Seq<PeerStateView>, state: PeerStateView) -> Seq<PeerStateView> {
    let i = peer_index(peers, state.name);
    if i < peers.len() {
        peers.update(i, state)
    } else {
        peers.push(state)
    }
}

/// `peers` without the entry called `name`.
pub open spec fn without(peers: Seq<PeerStateView>, name: Seq<char>) -> Seq<PeerStateView> {
    let i = peer_index(peers, name);
    if i < peers.len() {
        peers.remove(i)
    } else {
        peers
    }
}

/// `peers` after discovery reports that `name` is gone: the entry leaves only
/// if discovery had added it.
pub open spec fn without_discovered(peers: Seq<PeerStateView>, name: Seq<char>) -> Seq<
    PeerStateView,
> {
    match lookup(peers, name) {
        Some(p) => if p.source == PeerSource::Mdns {
            without(peers, name)
        } else {
            peers
        },
        None => peers,
    }
}

/// The agents of all peers: each peer's list in its own order, peers in
/// registry order.
pub open spec fn all_agents(peers: Seq<PeerStateView>) -> Seq<AgentInfoView>
    decreases peers.len(),
{
    if peers.len() == 0 {
        Seq::empty()
    } else {
        all_agents(peers.drop_last()) + peers.last().agents
    }
}

/// Resolution of an agent name: within the peer called `peer` where one is
/// given, else within the first peer in registry order that exposes it.
pub open spec fn find_agent_in(
    peers: Seq<PeerStateView>,
    peer: Option<Seq<char>>,
    agent: Seq<char>,
) -> Option<AgentHit> {
    let i = match peer {
        Some(name) => peer_index(peers, name),
        None => first_where(peers, exposes(agent)),
    };
    if i < peers.len() {
        find_in_peer(peers[i], agent)
    } else {
        None
    }
}

/// The characters of an optional string.
pub open spec fn opt_text(s: Option<&str>) -> Option<Seq<char>> {
    match s {
        Some(t) => Some(t@),
        None => None,
    }
}

/// Writing an entry keeps names distinct.
pub proof fn lemma_upsert_distinct(peers: Seq<PeerStateView>, state: PeerStateView)
    requires
        names_distinct(peers),
    ensures
        names_distinct(upsert(peers, state)),
{
    lemma_first_where(peers, peer_named(state.name));
}

/// Removing an entry keeps names distinct, and the name is gone afterwards.
pub proof fn lemma_without_distinct(peers: Seq<PeerStateView>, name: Seq<char>)
    requires
        names_distinct(peers),
    ensures
        names_distinct(without(peers, name)),
        lookup(without(peers, name), name) is None,
{
    lemma_first_where(peers, peer_named(name));
    let i = peer_index(peers, name);
    let rest = without(peers, name);
    assert forall|j: int| 0 <= j < rest.len() implies !peer_named(name)(#[trigger] rest[j]) by {
        if i < peers.len() {
            if j < i {
                assert(rest[j] == peers[j]);
            } else {
                assert(rest[j] == peers[j + 1]);
            }
        }
    }
    lemma_first_where_is(rest, peer_named(name), rest.len() as int);
}

/// The peers this instance knows, at most one entry per name.
pub struct PeerRegistry {
    peers: Vec<PeerState>,
}

impl View for PeerRegistry {
    type V = Seq<PeerStateView>;

    closed spec fn view(&self) -> Seq<PeerStateView> {
        peer_views(self.peers@)
    }
}

impl PeerRegistry {
    #[verifier::type_invariant]
    spec fn one_entry_per_name(&self) -> bool {
        names_distinct(peer_views(self.peers@))
    }

    /// An empty registry.
    pub fn new() -> (registry: Self)
        ensures
            registry@ == Seq::<PeerStateView>::empty(),
    {
        let registry = PeerRegistry { peers: Vec::new() };
        assert(registry@ =~= Seq::<PeerStateView>::empty());
        registry
    }

    /// Number of entries, each under a name of its own.
    pub fn len(&self) -> (n: usize)
        ensures
            n == self@.len(),
            names_distinct(self@),
    {
        proof {
            use_type_invariant(self);
        }
        self.peers.len()
    }

    /// Moves the entries out, leaving the registry empty until they are put
    /// back.
    fn take_entries(&mut self) -> (entries: Vec<PeerState>)
        ensures
            entries == old(self).peers,
            final(self).peers@.len() == 0,
    {
        let mut entries: Vec<PeerState> = Vec::new();
        assert(peer_views(entries@) =~= Seq::<PeerStateView>::empty());
        core::mem::swap(&mut self.peers, &mut entries);
        entries
    }

    /// Position of the entry called `name`.
    fn position(&self, name: &String) -> (found: Option<usize>)
        ensures
            match found {
                Some(i) => i < self@.len() && i == peer_index(self@, name@),
                None => peer_index(self@, name@) == self@.len(),
            },
    {
        let mut i: usize = 0;
        while i < self.peers.len()
            invariant
                i <= self.peers.len(),
                forall|j: int| 0 <= j < i ==> !peer_named(name@)(#[trigger] self@[j]),
            decreases self.peers.len() - i,
        {
            if self.peers[i].name == *name {
                proof {
                    lemma_first_where_is(self@, peer_named(name@), i as int);
                }
                return Some(i);
            }
            i = i + 1;
        }
        proof {
            lemma_first_where_is(self@, peer_named(name@), self@.len() as int);
        }
        None
    }

    /// Writes `state` under its name: an entry of that name is replaced whole
    /// and keeps its place, a new name is added at the end.
    pub fn update_peer(&mut self, state: PeerState)
        ensures
            final(self)@ == upsert(old(self)@, state@),
            names_distinct(final(self)@),
    {
        proof {
            use_type_invariant(&*self);
            lemma_upsert_distinct(self@, state@);
        }
        match self.position(&state.name) {
            Some(i) => {
                assert(peer_views(self.peers@.update(i as int, state)) =~= upsert(
                    self@,
                    state@,
                ));
                let mut peers = self.take_entries();
                peers.set(i, state);
                self.peers = peers;
            },
            None => {
                assert(peer_views(self.peers@.push(state)) =~= upsert(self@, state@));
                let mut peers = self.take_entries();
                peers.push(state);
                self.peers = peers;
            },
        }
    }

    /// Deletes the entry called `name`, whatever its source; no entry of that
    /// name, no change.
    pub fn remove_peer(&mut self, name: &str)
        ensures
            final(self)@ == without(old(self)@, name@),
            names_distinct(final(self)@),
    {
        proof {
            use_type_invariant(&*self);
            lemma_without_distinct(self@, name@);
        }
        let key = name.to_owned();
        match self.position(&key) {
            Some(i) => {
                assert(peer_views(self.peers@.remove(i as int)) =~= without(self@, name@));
                let mut peers = self.take_entries();
                peers.remove(i);
                self.peers = peers;
            },
            None => {},
        }
    }

    /// Deletes the entry called `name` on behalf of discovery: only an entry
    /// that discovery added leaves. Says whether an entry was deleted.
    pub fn remove_discovered(&mut self, name: &str) -> (removed: bool)
        ensures
            final(self)@ == without_discovered(old(self)@, name@),
            names_distinct(final(self)@),
            removed <==> (lookup(old(self)@, name@) matches Some(p) && p.source
                == PeerSource::Mdns),
    {
        proof {
            use_type_invariant(&*self);
            lemma_without_distinct(self@, name@);
        }
        let key = name.to_owned();
        match self.position(&key) {
            Some(i) => {
                if self.peers[i].source == PeerSource::Mdns {
                    assert(peer_views(self.peers@.remove(i as int)) =~= without(self@, name@));
                    let mut peers = self.take_entries();
                    peers.remove(i);
                    self.peers = peers;
                    true
                } else {
                    false
                }
            },
            None => false,
        }
    }

    /// A copy of the entry called `name`.
    pub fn get_peer(&self, name: &str) -> (found: Option<PeerState>)
        ensures
            match found {
                Some(p) => lookup(self@, name@) == Some(p@),
                None => lookup(self@, name@) is None,
            },
    {
        let key = name.to_owned();
        match self.position(&key) {
            Some(i) => Some(self.peers[i].clone()),
            None => None,
        }
    }

    /// A copy of all entries, in registry order.
    pub fn list_peers(&self) -> (peers: Vec<PeerState>)
        ensures
            peer_views(peers@) == self@,
            names_distinct(self@),
    {
        proof {
            use_type_invariant(self);
        }
        let mut peers: Vec<PeerState> = Vec::new();
        let mut i: usize = 0;
        while i < self.peers.len()
            invariant
                i <= self.peers.len(),
                peers.len() == i,
                forall|j: int| 0 <= j < i ==> peers@[j]@ == self.peers@[j]@,
            decreases self.peers.len() - i,
        {
            peers.push(self.peers[i].clone());
            i = i + 1;
        }
        assert(peer_views(peers@) =~= self@);
        peers
    }

    /// The agents of all peers, healthy or not: each peer's list in its own
    /// order, peers in registry order.
    pub fn remote_agents(&self) -> (agents: Vec<AgentInfo>)
        ensures
            agent_views(agents@) == all_agents(self@),
    {
        let mut agents: Vec<AgentInfo> = Vec::new();
        let mut i: usize = 0;
        assert(self@.take(0) =~= Seq::<PeerStateView>::empty());
        while i < self.peers.len()
            invariant
                i <= self.peers.len(),
                agent_views(agents@) == all_agents(self@.take(i as int)),
            decreases self.peers.len() - i,
        {
            let ghost before = agents@;
            let mut more = clone_agents(&self.peers[i].agents);
            agents.append(&mut more);
            proof {
                let upto = self@.take(i + 1);
                assert(upto.drop_last() =~= self@.take(i as int));
                assert(upto.last() == self@[i as int]);
                assert(agent_views(agents@) =~= agent_views(before) + self@[i as int].agents);
            }
            i = i + 1;
        }
        assert(self@.take(i as int) =~= self@);
        agents
    }

    /// Resolves an agent name to the peer address, credential and agent to
    /// call: within the peer called `peer` where one is given, else within the
    /// first peer in registry order that exposes the name.
    pub fn find_agent(&self, peer: Option<&str>, agent_name: &str) -> (found: Option<
        (String, String, AgentInfo),
    >)
        ensures
            match found {
                Some(hit) => find_agent_in(self@, opt_text(peer), agent_name@) == Some(
                    (hit.0@, hit.1@, hit.2@),
                ),
                None => find_agent_in(self@, opt_text(peer), agent_name@) is None,
            },
    {
        let agent = agent_name.to_owned();
        match peer {
            Some(peer_name) => {
                let key = peer_name.to_owned();
                match self.position(&key) {
                    Some(i) => self.peers[i].find_agent(&agent),
                    None => None,
                }
            },
            None => {
                let mut i: usize = 0;
                while i < self.peers.len()
                    invariant
                        i <= self.peers.len(),
                        agent@ == agent_name@,
                        peer is None,
                        forall|j: int| 0 <= j < i ==> !exposes(agent_name@)(#[trigger] self@[j]),
                    decreases self.peers.len() - i,
                {
                    let found = self.peers[i].find_agent(&agent);
                    assert(self@[i as int] == self.peers@[i as int]@);
                    assert(found is Some <==> exposes(agent_name@)(self@[i as int]));
                    if found.is_some() {
                        proof {
                            lemma_first_where_is(self@, exposes(agent_name@), i as int);
                        }
                        return found;
                    }
                    i = i + 1;
                }
                proof {
                    lemma_first_where_is(self@, exposes(agent_name@), self@.len() as int);
                }
                None
            },
        }
    }
}

impl Clone for PeerRegistry {
    fn clone(&self) -> (res: Self)
        ensures
            res@ == self@,
    {
        proof {
            use_type_invariant(self);
        }
        let peers = self.list_peers();
        PeerRegistry { peers }
    }
}

} // verus!
