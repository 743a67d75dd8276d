//! Laws of the watcher, stated over the values that its step is specified
//! with.

use crate::discovery::{
    action_for, discovered_peer, peer_url_of, registry_after, short_name_of, BrowserActionView,
    BrowserEventView,
};
use crate::peer::{AgentInfoView, PeerHealth, PeerSource, PeerStateView};
use crate::registry::{lookup, peer_index, peer_named};
use crate::registry_laws::{lemma_lookup_after_removal, lemma_lookup_after_update};
use crate::search::{lemma_first_where, lemma_first_where_found};
use crate::text::is_substring;
use vstd::prelude::*;

verus! {

/// An announcement whose full name contains this instance's own identifier
/// leads to no enumeration and leaves the registry as it was.
pub proof fn lemma_own_announcement_dropped(
    peers: Seq<PeerStateView>,
    own_instance: Seq<char>,
    secret: Seq<char>,
    fullname: Seq<char>,
    addresses: Seq<Seq<char>>,
    port: u16,
)
    requires
        is_substring(own_instance, fullname),
    ensures
        action_for(own_instance, BrowserEventView::Resolved { fullname, addresses, port })
            == BrowserActionView::Wait,
        registry_after(peers, secret, BrowserEventView::Resolved { fullname, addresses, port })
            == peers,
{
}

/// The watcher asks for an enumeration only on a resolved announcement
/// whose full name does not contain this instance's own identifier, and
/// then under the short name of that announcement.
pub proof fn lemma_enumerate_only_others(own_instance: Seq<char>, event: BrowserEventView)
    ensures
        action_for(own_instance, event) matches BrowserActionView::Enumerate { name, url } ==> {
            &&& event matches BrowserEventView::Resolved { fullname, addresses, port }
            &&& !is_substring(own_instance, fullname)
            &&& addresses.len() > 0
            &&& name == short_name_of(fullname)
            &&& url == peer_url_of(addresses[0], port)
        },
{
}

/// Only an ended enumeration adds an entry: on any other event every name
/// that the registry holds afterwards it held before.
pub proof fn lemma_only_enumeration_inserts(
    peers: Seq<PeerStateView>,
    secret: Seq<char>,
    event: BrowserEventView,
    name: Seq<char>,
)
    requires
        !(event is Enumerated),
        lookup(registry_after(peers, secret, event), name) is Some,
    ensures
        lookup(peers, name) is Some,
{
    if let BrowserEventView::Removed { fullname } = event {
        let gone = short_name_of(fullname);
        let at = peer_index(peers, gone);
        let rest = registry_after(peers, secret, event);
        if rest != peers {
            lemma_first_where(rest, peer_named(name));
            let i = peer_index(rest, name);
            lemma_first_where(peers, peer_named(gone));
            let j = if i < at {
                i
            } else {
                i + 1
            };
            assert(peers[j] == rest[i]);
            assert(peer_named(name)(peers[j]));
            lemma_first_where_found(peers, peer_named(name));
        }
    }
}

/// A withdrawn announcement leaves a peer of static source, and with it the
/// whole registry, as it was.
pub proof fn lemma_removed_event_spares_static(
    peers: Seq<PeerStateView>,
    secret: Seq<char>,
    fullname: Seq<char>,
)
    requires
        lookup(peers, short_name_of(fullname)) matches Some(p) && p.source == PeerSource::Static,
    ensures
        registry_after(peers, secret, BrowserEventView::Removed { fullname }) == peers,
{
}

/// A peer whose enumeration failed is in the registry all the same, without
/// agents and of unknown health, and every other entry is as it was.
pub proof fn lemma_failed_enumeration_keeps_peer(
    peers: Seq<PeerStateView>,
    secret: Seq<char>,
    name: Seq<char>,
    url: Seq<char>,
    other: Seq<char>,
)
    requires
        other != name,
    ensures
        ({
            let after = registry_after(
                peers,
                secret,
                BrowserEventView::Enumerated { name, url, agents: None },
            );
            &&& lookup(after, name) matches Some(p)
            &&& p.url == url
            &&& p.agents.len() == 0
            &&& p.health == PeerHealth::Unknown
            &&& p.source == PeerSource::Mdns
            &&& lookup(after, other) == lookup(peers, other)
        }),
{
    let written = discovered_peer(name, url, secret, None);
    lemma_lookup_after_update(peers, written, name);
    lemma_lookup_after_update(peers, written, other);
}

/// One round of the watcher: what the discovery transport delivered, and
/// how the enumeration ended that the watcher asked for, if it asked for one.
pub struct BrowserRound {
    pub event: BrowserEventView,
    pub agents: Option<Seq<AgentInfoView>>,
}

/// The registry after one round: the watcher hears the event, and where it
/// then asks for an enumeration, hears how that ended.
pub open spec fn round_after(
    peers: Seq<PeerStateView>,
    own_instance: Seq<char>,
    secret: Seq<char>,
    round: BrowserRound,
) -> Seq<PeerStateView> {
    let heard = registry_after(peers, secret, round.event);
    match action_for(own_instance, round.event) {
        BrowserActionView::Enumerate { name, url } => registry_after(
            heard,
            secret,
            BrowserEventView::Enumerated { name, url, agents: round.agents },
        ),
        _ => heard,
    }
}

/// The registry after the rounds of `rounds`, one after the other.
pub open spec fn rounds_after(
    peers: Seq<PeerStateView>,
    own_instance: Seq<char>,
    secret: Seq<char>,
    rounds: Seq<BrowserRound>,
) -> Seq<PeerStateView>
    decreases rounds.len(),
{
    if rounds.len() == 0 {
        peers
    } else {
        round_after(
            rounds_after(peers, own_instance, secret, rounds.drop_last()),
            own_instance,
            secret,
            rounds.last(),
        )
    }
}

/// Every round starts from the discovery transport: none starts from the
/// end of an enumeration, which only a round itself brings about.
pub open spec fn from_transport(rounds: Seq<BrowserRound>) -> bool {
    forall|k: int| 0 <= k < rounds.len() ==> !((#[trigger] rounds[k]).event is Enumerated)
}

/// `event` announces, with an address, a peer of the short name `name`
/// whose full name does not contain this instance's own identifier.
pub open spec fn announces_other(
    own_instance: Seq<char>,
    event: BrowserEventView,
    name: Seq<char>,
) -> bool {
    &&& event matches BrowserEventView::Resolved { fullname, addresses, port }
    &&& !is_substring(own_instance, fullname)
    &&& addresses.len() > 0
    &&& short_name_of(fullname) == name
}

/// Whatever the transport delivers and however enumerations end, a name
/// that the watcher has added to the registry was announced under a full
/// name that does not contain this instance's own identifier.
pub proof fn lemma_watcher_adds_only_others(
    peers: Seq<PeerStateView>,
    own_instance: Seq<char>,
    secret: Seq<char>,
    rounds: Seq<BrowserRound>,
    name: Seq<char>,
)
    requires
        from_transport(rounds),
        lookup(peers, name) is None,
        lookup(rounds_after(peers, own_instance, secret, rounds), name) is Some,
    ensures
        exists|k: int|
            0 <= k < rounds.len() && announces_other(
                own_instance,
                (#[trigger] rounds[k]).event,
                name,
            ),
    decreases rounds.len(),
{
    if rounds.len() > 0 {
        let earlier = rounds.drop_last();
        let before = rounds_after(peers, own_instance, secret, earlier);
        let last = rounds.last();
        assert(from_transport(earlier)) by {
            assert forall|k: int| 0 <= k < earlier.len() implies !((
            #[trigger] earlier[k]).event is Enumerated) by {
                assert(earlier[k] == rounds[k]);
            }
        }
        if lookup(before, name) is Some {
            lemma_watcher_adds_only_others(peers, own_instance, secret, earlier, name);
            let k = choose|k: int|
                0 <= k < earlier.len() && announces_other(
                    own_instance,
                    (#[trigger] earlier[k]).event,
                    name,
                );
            assert(rounds[k] == earlier[k]);
        } else {
            let heard = registry_after(before, secret, last.event);
            if lookup(heard, name) is Some {
                lemma_only_enumeration_inserts(before, secret, last.event, name);
            }
            match action_for(own_instance, last.event) {
                BrowserActionView::Enumerate { name: written, url } => {
                    lemma_lookup_after_update(
                        heard,
                        discovered_peer(written, url, secret, last.agents),
                        name,
                    );
                    assert(announces_other(own_instance, rounds[rounds.len() - 1].event, name));
                },
                _ => {},
            }
        }
    }
}

/// A name that is only ever announced under full names that contain this
/// instance's own identifier is never added to the registry by the watcher.
pub proof fn lemma_watcher_never_adds_own(
    peers: Seq<PeerStateView>,
    own_instance: Seq<char>,
    secret: Seq<char>,
    rounds: Seq<BrowserRound>,
    name: Seq<char>,
)
    requires
        from_transport(rounds),
        lookup(peers, name) is None,
        forall|k: int|
            0 <= k < rounds.len() ==> ((#[trigger] rounds[k]).event matches BrowserEventView::Resolved {
                fullname,
                ..
            } ==> (short_name_of(fullname) == name ==> is_substring(own_instance, fullname))),
    ensures
        lookup(rounds_after(peers, own_instance, secret, rounds), name) is None,
{
    if lookup(rounds_after(peers, own_instance, secret, rounds), name) is Some {
        lemma_watcher_adds_only_others(peers, own_instance, secret, rounds, name);
    }
}

/// Whatever the transport delivers, the watcher leaves an entry of static
/// source as it is, so long as no peer of that name is announced and
/// enumerated anew.
pub proof fn lemma_watcher_keeps_static(
    peers: Seq<PeerStateView>,
    own_instance: Seq<char>,
    secret: Seq<char>,
    rounds: Seq<BrowserRound>,
    name: Seq<char>,
)
    requires
        from_transport(rounds),
        lookup(peers, name) matches Some(p) && p.source == PeerSource::Static,
        forall|k: int|
            0 <= k < rounds.len() ==> !announces_other(
                own_instance,
                (#[trigger] rounds[k]).event,
                name,
            ),
    ensures
        lookup(rounds_after(peers, own_instance, secret, rounds), name) == lookup(peers, name),
    decreases rounds.len(),
{
    if rounds.len() > 0 {
        let earlier = rounds.drop_last();
        let before = rounds_after(peers, own_instance, secret, earlier);
        let last = rounds.last();
        assert forall|k: int| 0 <= k < earlier.len() implies !((
        #[trigger] earlier[k]).event is Enumerated) && !announces_other(
            own_instance,
            earlier[k].event,
            name,
        ) by {
            assert(earlier[k] == rounds[k]);
        }
        lemma_watcher_keeps_static(peers, own_instance, secret, earlier, name);
        assert(last == rounds[rounds.len() - 1]);
        let heard = registry_after(before, secret, last.event);
        if let BrowserEventView::Removed { fullname } = last.event {
            if short_name_of(fullname) != name {
                lemma_lookup_after_removal(before, short_name_of(fullname), name);
            }
        }
        assert(lookup(heard, name) == lookup(before, name));
        match action_for(own_instance, last.event) {
            BrowserActionView::Enumerate { name: written, url } => {
                lemma_lookup_after_update(
                    heard,
                    discovered_peer(written, url, secret, last.agents),
                    name,
                );
            },
            _ => {},
        }
    }
}

} // verus!
