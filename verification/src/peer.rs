//! What one instance knows about another: the peer's address and credential,
//! the agents it exposes, its health and where the entry came from.

use crate::search::{first_where, lemma_first_where_is};
use vstd::prelude::*;

verus! {

/// Health of a peer as last observed.
#[derive(Clone, Copy, Debug, PartialEq, Eq, Structural)]
pub enum PeerHealth {
    Healthy,
    Unhealthy,
    Unknown,
}

/// Where a registry entry came from. Discovery may only withdraw what
/// discovery added.
#[derive(Clone, Copy, Debug, PartialEq, Eq, Structural)]
pub enum PeerSource {
    Static,
    Mdns,
}

/// One remotely callable agent and the instance that hosts it.
#[derive(Debug, PartialEq, Eq)]
pub struct AgentInfo {
    pub name: String,
    pub instance: String,
}

/// The mathematical value of an `AgentInfo`.
pub struct AgentInfoView {
    pub name: Seq<char>,
    pub instance: Seq<char>,
}

impl View for AgentInfo {
    type V = AgentInfoView;

    open spec fn view(&self) -> AgentInfoView {
        AgentInfoView { name: self.name@, instance: self.instance@ }
    }
}

impl Clone for AgentInfo {
    fn clone(&self) -> (res: Self)
        ensures
            res@ == self@,
    {
        AgentInfo { name: self.name.clone(), instance: self.instance.clone() }
    }
}

/// The values of a list of agents, in order.
pub open spec fn agent_views(agents: Seq<AgentInfo>) -> Seq<AgentInfoView> {
    agents.map_values(|a: AgentInfo| a@)
}

/// Copies a list of agents.
pub fn clone_agents(agents: &Vec<AgentInfo>) -> (res: Vec<AgentInfo>)
    ensures
        agent_views(res@) == agent_views(agents@),
{
    let mut res: Vec<AgentInfo> = Vec::new();
    let mut i: usize = 0;
    while i < agents.len()
        invariant
            i <= agents.len(),
            res.len() == i,
            forall|j: int| 0 <= j < i ==> res@[j]@ == agents@[j]@,
        decreases agents.len() - i,
    {
        res.push(agents[i].clone());
        i = i + 1;
    }
    assert(agent_views(res@) =~= agent_views(agents@));
    res
}

/// One entry of the registry: a known remote instance.
#[derive(Debug, PartialEq, Eq)]
pub struct PeerState {
    /// Short instance identifier; the key of the entry.
    pub name: String,
    /// Base address of the peer's endpoint.
    pub url: String,
    /// Credential forwarded on every call to this peer.
    pub shared_secret: String,
    /// Agents the peer exposed at its last successful enumeration.
    pub agents: Vec<AgentInfo>,
    pub health: PeerHealth,
    pub source: PeerSource,
}

/// The mathematical value of a `PeerState`.
pub struct PeerStateView {
    pub name: Seq<char>,
    pub url: Seq<char>,
    pub shared_secret: Seq<char>,
    pub agents: Seq<AgentInfoView>,
    pub health: PeerHealth,
    pub source: PeerSource,
}

impl View for PeerState {
    type V = PeerStateView;

    open spec fn view(&self) -> PeerStateView {
        PeerStateView {
            name: self.name@,
            url: self.url@,
            shared_secret: self.shared_secret@,
            agents: agent_views(self.agents@),
            health: self.health,
            source: self.source,
        }
    }
}

impl Clone for PeerState {
    fn clone(&self) -> (res: Self)
        ensures
            res@ == self@,
    {
        PeerState {
            name: self.name.clone(),
            url: self.url.clone(),
            shared_secret: self.shared_secret.clone(),
            agents: clone_agents(&self.agents),
            health: self.health,
            source: self.source,
        }
    }
}

/// The values of a list of peers, in order.
pub open spec fn peer_views(peers: Seq<PeerState>) -> Seq<PeerStateView> {
    peers.map_values(|p: PeerState| p@)
}

/// The test "is the agent called `name`".
pub open spec fn agent_named(name: Seq<char>) -> spec_fn(AgentInfoView) -> bool {
    |a: AgentInfoView| a.name == name
}

/// Position of the first agent called `name`, or `agents.len()`.
pub open spec fn agent_index(agents: Seq<AgentInfoView>, name: Seq<char>) -> int {
    first_where(agents, agent_named(name))
}

/// What a lookup hands out: the peer's address, its credential, the agent.
pub type AgentHit = (Seq<char>, Seq<char>, AgentInfoView);

/// The first agent called `agent` that `peer` exposes, with the peer's
/// address and credential.
pub open spec fn find_in_peer(peer: PeerStateView, agent: Seq<char>) -> Option<AgentHit> {
    let k = agent_index(peer.agents, agent);
    if k < peer.agents.len() {
        Some((peer.url, peer.shared_secret, peer.agents[k]))
    } else {
        None
    }
}

impl PeerState {
    /// Position of the first agent of this peer called `agent_name`.
    fn agent_position(&self, agent_name: &String) -> (found: Option<usize>)
        ensures
            match found {
                Some(k) => k < self@.agents.len() && k == agent_index(self@.agents, agent_name@),
                None => agent_index(self@.agents, agent_name@) == self@.agents.len(),
            },
    {
        let mut k: usize = 0;
        while k < self.agents.len()
            invariant
                k <= self.agents.len(),
                forall|j: int| 0 <= j < k ==> !agent_named(agent_name@)(#[trigger] self@.agents[j]),
            decreases self.agents.len() - k,
        {
            if self.agents[k].name == *agent_name {
                proof {
                    lemma_first_where_is(self@.agents, agent_named(agent_name@), k as int);
                }
                return Some(k);
            }
            k = k + 1;
        }
        proof {
            lemma_first_where_is(
                self@.agents,
                agent_named(agent_name@),
                self@.agents.len() as int,
            );
        }
        None
    }

    /// The first agent of this peer called `agent_name`, with the peer's
    /// address and credential.
    pub fn find_agent(&self, agent_name: &String) -> (found: Option<(String, String, AgentInfo)>)
        ensures
            match found {
                Some(hit) => find_in_peer(self@, agent_name@) == Some((hit.0@, hit.1@, hit.2@)),
                None => find_in_peer(self@, agent_name@) is None,
            },
    {
        match self.agent_position(agent_name) {
            Some(k) => Some(
                (self.url.clone(), self.shared_secret.clone(), self.agents[k].clone()),
            ),
            None => None,
        }
    }
}

} // verus!
