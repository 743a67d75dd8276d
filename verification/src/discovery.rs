//! Discovery on the local network: what this instance announces, and what
//! the watcher decides on each thing it hears.

use crate::peer::{
    agent_views, AgentInfo, AgentInfoView, PeerHealth, PeerSource, PeerState, PeerStateView,
};
use crate::registry::{lookup, names_distinct, upsert, without_discovered, PeerRegistry};
use crate::relay::PeerClientError;
use crate::text::{contains_text, decimal, decimal_text, find_char, first_index_of, is_substring};
use vstd::prelude::*;

verus! {

/// Service type under which instances announce themselves and look for
/// one another.
pub const SERVICE_TYPE: &'static str = "_herald._tcp.local.";

/// Seconds the watcher pauses after the discovery transport failed.
pub const BROWSE_RETRY_SECS: u64 = 5;

/// What an instance announces of itself.
#[derive(Debug, PartialEq, Eq)]
pub struct ServiceRegistration {
    pub service_type: String,
    pub instance_name: String,
    pub host_name: String,
    /// Address to announce; empty leaves the choice to the transport.
    pub address: String,
    pub port: u16,
}

/// Host name announced for `instance`.
pub open spec fn host_name_of(instance: Seq<char>) -> Seq<char> {
    instance + ".local."@
}

/// The announcement of the instance `instance_name` listening on `port`.
pub fn service_registration(instance_name: &str, port: u16) -> (registration: ServiceRegistration)
    ensures
        registration.service_type@ == SERVICE_TYPE@,
        registration.instance_name@ == instance_name@,
        registration.host_name@ == host_name_of(instance_name@),
        registration.address@ == Seq::<char>::empty(),
        registration.port == port,
{
    let mut host_name = instance_name.to_owned();
    host_name.append(".local.");
    ServiceRegistration {
        service_type: SERVICE_TYPE.to_owned(),
        instance_name: instance_name.to_owned(),
        host_name,
        address: String::new(),
        port,
    }
}

/// The short instance name in an announced full name: what stands before
/// the first dot, or the whole name where it has no dot.
pub open spec fn short_name_of(fullname: Seq<char>) -> Seq<char> {
    fullname.take(first_index_of(fullname, '.'))
}

/// The short instance name in an announced full name.
pub fn short_name(fullname: &str) -> (name: String)
    ensures
        name@ == short_name_of(fullname@),
{
    match find_char(fullname, '.') {
        Some(i) => fullname.substring_char(0, i).to_owned(),
        None => {
            assert(fullname@.take(fullname@.len() as int) =~= fullname@);
            fullname.to_owned()
        },
    }
}

/// Address of a peer's endpoint.
pub open spec fn peer_url_of(address: Seq<char>, port: u16) -> Seq<char> {
    "http://"@ + address + ":"@ + decimal_text(port as nat)
}

/// Address of the endpoint of a peer that announced `address` and `port`.
pub fn peer_url(address: &str, port: u16) -> (url: String)
    ensures
        url@ == peer_url_of(address@, port),
{
    let mut url = "http://".to_owned();
    url.append(address);
    url.append(":");
    let digits = decimal(port as u64);
    url.append(digits.as_str());
    url
}

/// The characters of each of a list of strings.
pub open spec fn texts(strings: Seq<String>) -> Seq<Seq<char>> {
    strings.map_values(|s: String| s@)
}

/// What a resolved announcement leads to: nothing where the full name
/// contains this instance's own identifier or no address was announced, else
/// the peer's short name and the address built from the first announced
/// address and the port.
pub open spec fn resolved_peer(
    own_instance: Seq<char>,
    fullname: Seq<char>,
    addresses: Seq<Seq<char>>,
    port: u16,
) -> Option<(Seq<char>, Seq<char>)> {
    if is_substring(own_instance, fullname) || addresses.len() == 0 {
        None
    } else {
        Some((short_name_of(fullname), peer_url_of(addresses[0], port)))
    }
}

/// Decides on a resolved announcement: the short name and address of the
/// peer to enumerate, or nothing where the announcement is dropped.
pub fn resolve_peer(own_instance: &str, fullname: &str, addresses: &Vec<String>, port: u16) -> (peer:
    Option<(String, String)>)
    ensures
        match peer {
            Some(p) => resolved_peer(own_instance@, fullname@, texts(addresses@), port) == Some(
                (p.0@, p.1@),
            ),
            None => resolved_peer(own_instance@, fullname@, texts(addresses@), port) is None,
        },
{
    if contains_text(fullname, own_instance) {
        return None;
    }
    if addresses.len() == 0 {
        return None;
    }
    let name = short_name(fullname);
    let url = peer_url(addresses[0].as_str(), port);
    Some((name, url))
}

/// The entry written for a peer that discovery resolved: with the agents it
/// listed and healthy where the enumeration succeeded, without agents and of
/// unknown health where it failed.
pub open spec fn discovered_peer(
    name: Seq<char>,
    url: Seq<char>,
    secret: Seq<char>,
    agents: Option<Seq<AgentInfoView>>,
) -> PeerStateView {
    PeerStateView {
        name,
        url,
        shared_secret: secret,
        agents: match agents {
            Some(listed) => listed,
            None => Seq::empty(),
        },
        health: if agents is Some {
            PeerHealth::Healthy
        } else {
            PeerHealth::Unknown
        },
        source: PeerSource::Mdns,
    }
}

/// The agents of a successful enumeration.
pub open spec fn listed_agents(outcome: Result<Vec<AgentInfo>, PeerClientError>) -> Option<
    Seq<AgentInfoView>,
> {
    match outcome {
        Ok(agents) => Some(agent_views(agents@)),
        Err(_) => None,
    }
}

/// Records how the enumeration of a resolved peer ended. The peer is written
/// either way, so that a later health check finds it.
pub fn record_enumeration(
    registry: &mut PeerRegistry,
    name: String,
    url: String,
    secret: &str,
    outcome: Result<Vec<AgentInfo>, PeerClientError>,
)
    ensures
        final(registry)@ == upsert(
            old(registry)@,
            discovered_peer(name@, url@, secret@, listed_agents(outcome)),
        ),
        names_distinct(final(registry)@),
{
    let state = match outcome {
        Ok(agents) => PeerState {
            name,
            url,
            shared_secret: secret.to_owned(),
            agents,
            health: PeerHealth::Healthy,
            source: PeerSource::Mdns,
        },
        Err(_) => {
            let none: Vec<AgentInfo> = Vec::new();
            assert(agent_views(none@) =~= Seq::<AgentInfoView>::empty());
            PeerState {
                name,
                url,
                shared_secret: secret.to_owned(),
                agents: none,
                health: PeerHealth::Unknown,
                source: PeerSource::Mdns,
            }
        },
    };
    registry.update_peer(state);
}

/// Records that discovery saw the peer announced as `fullname` leave: its
/// entry is deleted if discovery had added it. Says whether it was.
pub fn record_removal(registry: &mut PeerRegistry, fullname: &str) -> (removed: bool)
    ensures
        final(registry)@ == without_discovered(old(registry)@, short_name_of(fullname@)),
        names_distinct(final(registry)@),
        removed <==> (lookup(old(registry)@, short_name_of(fullname@)) matches Some(p) && p.source
            == PeerSource::Mdns),
{
    let name = short_name(fullname);
    registry.remove_discovered(name.as_str())
}

/// What the watcher hears: from the discovery transport, or as the answer
/// to an enumeration it asked for.
#[derive(Debug)]
pub enum BrowserEvent {
    /// An instance announced itself.
    Resolved { fullname: String, addresses: Vec<String>, port: u16 },
    /// An announcement was withdrawn.
    Removed { fullname: String },
    /// The enumeration asked for by `BrowserAction::Enumerate` ended.
    Enumerated { name: String, url: String, outcome: Result<Vec<AgentInfo>, PeerClientError> },
    /// The discovery transport failed.
    ChannelError,
    /// Any other notice of the transport, such as the start or stop of a
    /// search.
    Other,
}

/// The mathematical value of a `BrowserEvent`. Of a failed enumeration only
/// the failure counts, not its cause.
pub enum BrowserEventView {
    Resolved { fullname: Seq<char>, addresses: Seq<Seq<char>>, port: u16 },
    Removed { fullname: Seq<char> },
    Enumerated { name: Seq<char>, url: Seq<char>, agents: Option<Seq<AgentInfoView>> },
    ChannelError,
    Other,
}

impl View for BrowserEvent {
    type V = BrowserEventView;

    open spec fn view(&self) -> BrowserEventView {
        match self {
            BrowserEvent::Resolved { fullname, addresses, port } => BrowserEventView::Resolved {
                fullname: fullname@,
                addresses: texts(addresses@),
                port: *port,
            },
            BrowserEvent::Removed { fullname } => BrowserEventView::Removed { fullname: fullname@ },
            BrowserEvent::Enumerated { name, url, outcome } => BrowserEventView::Enumerated {
                name: name@,
                url: url@,
                agents: listed_agents(*outcome),
            },
            BrowserEvent::ChannelError => BrowserEventView::ChannelError,
            BrowserEvent::Other => BrowserEventView::Other,
        }
    }
}

/// What the watcher is to do before it listens again.
#[derive(Debug, PartialEq, Eq)]
pub enum BrowserAction {
    /// Ask the peer at `url` for its agents and hand the outcome back as
    /// `BrowserEvent::Enumerated` with the same name and address.
    Enumerate { name: String, url: String },
    /// Let the given number of seconds pass.
    Pause { seconds: u64 },
    /// Nothing.
    Wait,
}

/// The mathematical value of a `BrowserAction`.
pub enum BrowserActionView {
    Enumerate { name: Seq<char>, url: Seq<char> },
    Pause { seconds: u64 },
    Wait,
}

impl View for BrowserAction {
    type V = BrowserActionView;

    open spec fn view(&self) -> BrowserActionView {
        match self {
            BrowserAction::Enumerate { name, url } => BrowserActionView::Enumerate {
                name: name@,
                url: url@,
            },
            BrowserAction::Pause { seconds } => BrowserActionView::Pause { seconds: *seconds },
            BrowserAction::Wait => BrowserActionView::Wait,
        }
    }
}

/// The registry after the watcher has heard `event`: an ended enumeration
/// writes the peer, a withdrawn announcement deletes what discovery had
/// added, and nothing else changes anything.
pub open spec fn registry_after(
    peers: Seq<PeerStateView>,
    secret: Seq<char>,
    event: BrowserEventView,
) -> Seq<PeerStateView> {
    match event {
        BrowserEventView::Enumerated { name, url, agents } => upsert(
            peers,
            discovered_peer(name, url, secret, agents),
        ),
        BrowserEventView::Removed { fullname } => without_discovered(
            peers,
            short_name_of(fullname),
        ),
        _ => peers,
    }
}

/// What the watcher does on `event`: it enumerates a resolved peer that is
/// not dropped, pauses after a failure of the transport, and else just
/// listens again.
pub open spec fn action_for(own_instance: Seq<char>, event: BrowserEventView) -> BrowserActionView {
    match event {
        BrowserEventView::Resolved { fullname, addresses, port } => match resolved_peer(
            own_instance,
            fullname,
            addresses,
            port,
        ) {
            Some(peer) => BrowserActionView::Enumerate { name: peer.0, url: peer.1 },
            None => BrowserActionView::Wait,
        },
        BrowserEventView::ChannelError => BrowserActionView::Pause { seconds: BROWSE_RETRY_SECS },
        _ => BrowserActionView::Wait,
    }
}

/// One step of the watcher: takes what it heard, brings the registry up to
/// date and says what to do before listening again. `secret` is the
/// credential recorded with every peer that discovery writes.
pub fn browser_step(
    registry: &mut PeerRegistry,
    own_instance: &str,
    secret: &str,
    event: BrowserEvent,
) -> (action: BrowserAction)
    ensures
        final(registry)@ == registry_after(old(registry)@, secret@, event@),
        action@ == action_for(own_instance@, event@),
{
    match event {
        BrowserEvent::Resolved { fullname, addresses, port } => {
            match resolve_peer(own_instance, fullname.as_str(), &addresses, port) {
                Some((name, url)) => BrowserAction::Enumerate { name, url },
                None => BrowserAction::Wait,
            }
        },
        BrowserEvent::Removed { fullname } => {
            record_removal(registry, fullname.as_str());
            BrowserAction::Wait
        },
        BrowserEvent::Enumerated { name, url, outcome } => {
            record_enumeration(registry, name, url, secret, outcome);
            BrowserAction::Wait
        },
        BrowserEvent::ChannelError => BrowserAction::Pause { seconds: BROWSE_RETRY_SECS },
        BrowserEvent::Other => BrowserAction::Wait,
    }
}

} // verus!
