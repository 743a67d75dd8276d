use herald::discovery::{
    peer_url, record_enumeration, record_removal, resolve_peer, short_name,
};
use herald::{
    browser_step, service_registration, AgentInfo, BrowserAction, BrowserEvent, PeerClientError,
    PeerHealth, PeerRegistry, PeerSource, PeerState, ServiceRegistration, BROWSE_RETRY_SECS,
    SERVICE_TYPE,
};

const ALPHA: &str = "alpha._herald._tcp.local.";

fn agent(name: &str, instance: &str) -> AgentInfo {
    AgentInfo { name: name.to_string(), instance: instance.to_string() }
}

fn resolved(fullname: &str, addresses: &[&str], port: u16) -> BrowserEvent {
    BrowserEvent::Resolved {
        fullname: fullname.to_string(),
        addresses: addresses.iter().map(|a| a.to_string()).collect(),
        port,
    }
}

fn static_peer(name: &str) -> PeerState {
    PeerState {
        name: name.to_string(),
        url: "http://configured:1".to_string(),
        shared_secret: "configured".to_string(),
        agents: vec![agent("writer", name)],
        health: PeerHealth::Healthy,
        source: PeerSource::Static,
    }
}

#[test]
fn service_type_is_fixed() {
    assert_eq!(SERVICE_TYPE, "_herald._tcp.local.");
    assert_eq!(BROWSE_RETRY_SECS, 5);
}

#[test]
fn service_registration_names_host_and_port() {
    assert_eq!(
        service_registration("alpha", 9100),
        ServiceRegistration {
            service_type: "_herald._tcp.local.".to_string(),
            instance_name: "alpha".to_string(),
            host_name: "alpha.local.".to_string(),
            address: String::new(),
            port: 9100,
        }
    );
}

#[test]
fn short_name_is_what_stands_before_the_first_dot() {
    assert_eq!(short_name(ALPHA), "alpha");
    assert_eq!(short_name("alpha.beta"), "alpha");
    assert_eq!(short_name("alpha."), "alpha");
}

#[test]
fn short_name_of_a_name_without_dot_is_the_name() {
    assert_eq!(short_name("alpha"), "alpha");
    assert_eq!(short_name(""), "");
}

#[test]
fn short_name_of_a_name_that_begins_with_a_dot_is_empty() {
    assert_eq!(short_name(".alpha"), "");
}

#[test]
fn peer_url_joins_address_and_port() {
    assert_eq!(peer_url("10.0.0.5", 9100), "http://10.0.0.5:9100");
    assert_eq!(peer_url("192.168.1.20", 80), "http://192.168.1.20:80");
    assert_eq!(peer_url("10.0.0.5", 0), "http://10.0.0.5:0");
    assert_eq!(peer_url("10.0.0.5", 65535), "http://10.0.0.5:65535");
    assert_eq!(peer_url("fe80::1", 9100), "http://fe80::1:9100");
}

#[test]
fn resolve_peer_takes_the_first_address() {
    let addresses = vec!["10.0.0.5".to_string(), "10.0.0.6".to_string()];
    assert_eq!(
        resolve_peer("home", ALPHA, &addresses, 9100),
        Some(("alpha".to_string(), "http://10.0.0.5:9100".to_string()))
    );
}

#[test]
fn resolve_peer_drops_an_announcement_without_address() {
    assert_eq!(resolve_peer("home", ALPHA, &Vec::new(), 9100), None);
}

#[test]
fn resolve_peer_drops_the_own_announcement() {
    let addresses = vec!["10.0.0.5".to_string()];
    assert_eq!(resolve_peer("alpha", ALPHA, &addresses, 9100), None);
}

#[test]
fn resolve_peer_drops_any_name_that_contains_the_own_identifier() {
    let addresses = vec!["10.0.0.5".to_string()];
    assert_eq!(resolve_peer("alp", ALPHA, &addresses, 9100), None);
    assert_eq!(resolve_peer("herald", ALPHA, &addresses, 9100), None);
    assert_eq!(resolve_peer("", ALPHA, &addresses, 9100), None);
    assert_eq!(resolve_peer("local", ALPHA, &addresses, 9100), None);
    assert_eq!(resolve_peer("_tcp", ALPHA, &addresses, 9100), None);
    assert!(resolve_peer("alphabet", ALPHA, &addresses, 9100).is_some());
    assert!(resolve_peer("Alpha", ALPHA, &addresses, 9100).is_some());
}

#[test]
fn resolved_peer_is_enumerated_and_recorded_healthy() {
    let mut registry = PeerRegistry::new();
    let action = browser_step(&mut registry, "home", "s3cret", resolved(ALPHA, &["10.0.0.5"], 9100));
    assert_eq!(
        action,
        BrowserAction::Enumerate {
            name: "alpha".to_string(),
            url: "http://10.0.0.5:9100".to_string(),
        }
    );
    assert_eq!(registry.len(), 0);
    let next = browser_step(
        &mut registry,
        "home",
        "s3cret",
        BrowserEvent::Enumerated {
            name: "alpha".to_string(),
            url: "http://10.0.0.5:9100".to_string(),
            outcome: Ok(vec![agent("writer", "alpha")]),
        },
    );
    assert_eq!(next, BrowserAction::Wait);
    assert_eq!(
        registry.list_peers(),
        vec![PeerState {
            name: "alpha".to_string(),
            url: "http://10.0.0.5:9100".to_string(),
            shared_secret: "s3cret".to_string(),
            agents: vec![agent("writer", "alpha")],
            health: PeerHealth::Healthy,
            source: PeerSource::Mdns,
        }]
    );
}

#[test]
fn failed_enumeration_records_the_peer_without_agents() {
    let mut registry = PeerRegistry::new();
    let asked = browser_step(&mut registry, "home", "s3cret", resolved(ALPHA, &["10.0.0.5"], 9100));
    assert_eq!(
        asked,
        BrowserAction::Enumerate {
            name: "alpha".to_string(),
            url: "http://10.0.0.5:9100".to_string(),
        }
    );
    let action = browser_step(
        &mut registry,
        "home",
        "s3cret",
        BrowserEvent::Enumerated {
            name: "alpha".to_string(),
            url: "http://10.0.0.5:9100".to_string(),
            outcome: Err(PeerClientError::PeerUnreachable("connection refused".to_string())),
        },
    );
    assert_eq!(action, BrowserAction::Wait);
    assert_eq!(
        registry.list_peers(),
        vec![PeerState {
            name: "alpha".to_string(),
            url: "http://10.0.0.5:9100".to_string(),
            shared_secret: "s3cret".to_string(),
            agents: vec![],
            health: PeerHealth::Unknown,
            source: PeerSource::Mdns,
        }]
    );
}

#[test]
fn failed_enumeration_clears_the_agents_of_a_known_peer() {
    let mut registry = PeerRegistry::new();
    record_enumeration(
        &mut registry,
        "alpha".to_string(),
        "http://10.0.0.5:9100".to_string(),
        "s3cret",
        Ok(vec![agent("writer", "alpha")]),
    );
    record_enumeration(
        &mut registry,
        "beta".to_string(),
        "http://10.0.0.6:9100".to_string(),
        "s3cret",
        Ok(vec![agent("coder", "beta")]),
    );
    record_enumeration(
        &mut registry,
        "alpha".to_string(),
        "http://10.0.0.5:9100".to_string(),
        "s3cret",
        Err(PeerClientError::AuthRejected),
    );
    let peers = registry.list_peers();
    assert_eq!(peers.len(), 2);
    assert_eq!(peers[0].name, "alpha");
    assert!(peers[0].agents.is_empty());
    assert_eq!(peers[0].health, PeerHealth::Unknown);
    assert_eq!(peers[1].name, "beta");
    assert_eq!(peers[1].agents, vec![agent("coder", "beta")]);
    assert_eq!(peers[1].health, PeerHealth::Healthy);
}

#[test]
fn enumeration_takes_over_a_static_entry_of_the_same_name() {
    let mut registry = PeerRegistry::new();
    registry.update_peer(static_peer("alpha"));
    record_enumeration(
        &mut registry,
        "alpha".to_string(),
        "http://10.0.0.5:9100".to_string(),
        "s3cret",
        Ok(vec![]),
    );
    let stored = registry.get_peer("alpha").unwrap();
    assert_eq!(stored.source, PeerSource::Mdns);
    assert_eq!(stored.url, "http://10.0.0.5:9100");
    assert_eq!(registry.len(), 1);
}

#[test]
fn removal_of_a_discovered_peer_deletes_it() {
    let mut registry = PeerRegistry::new();
    record_enumeration(
        &mut registry,
        "alpha".to_string(),
        "http://10.0.0.5:9100".to_string(),
        "s3cret",
        Ok(vec![agent("writer", "alpha")]),
    );
    let action = browser_step(
        &mut registry,
        "home",
        "s3cret",
        BrowserEvent::Removed { fullname: ALPHA.to_string() },
    );
    assert_eq!(action, BrowserAction::Wait);
    assert_eq!(registry.len(), 0);
}

#[test]
fn removal_of_a_static_peer_changes_nothing() {
    let mut registry = PeerRegistry::new();
    registry.update_peer(static_peer("alpha"));
    let action = browser_step(
        &mut registry,
        "home",
        "s3cret",
        BrowserEvent::Removed { fullname: ALPHA.to_string() },
    );
    assert_eq!(action, BrowserAction::Wait);
    assert_eq!(registry.list_peers(), vec![static_peer("alpha")]);
    assert!(!record_removal(&mut registry, ALPHA));
    assert_eq!(registry.list_peers(), vec![static_peer("alpha")]);
}

#[test]
fn removal_of_an_unknown_peer_changes_nothing() {
    let mut registry = PeerRegistry::new();
    registry.update_peer(static_peer("beta"));
    assert!(!record_removal(&mut registry, ALPHA));
    assert_eq!(registry.list_peers(), vec![static_peer("beta")]);
}

#[test]
fn record_removal_says_when_it_deleted() {
    let mut registry = PeerRegistry::new();
    record_enumeration(
        &mut registry,
        "alpha".to_string(),
        "http://10.0.0.5:9100".to_string(),
        "s3cret",
        Ok(vec![]),
    );
    assert!(record_removal(&mut registry, ALPHA));
    assert!(!record_removal(&mut registry, ALPHA));
}

#[test]
fn own_announcement_is_never_enumerated() {
    let mut registry = PeerRegistry::new();
    registry.update_peer(static_peer("beta"));
    let action = browser_step(&mut registry, "alpha", "s3cret", resolved(ALPHA, &["10.0.0.5"], 9100));
    assert_eq!(action, BrowserAction::Wait);
    assert_eq!(registry.list_peers(), vec![static_peer("beta")]);
}

#[test]
fn announcement_without_address_is_dropped() {
    let mut registry = PeerRegistry::new();
    let action = browser_step(&mut registry, "home", "s3cret", resolved(ALPHA, &[], 9100));
    assert_eq!(action, BrowserAction::Wait);
    assert_eq!(registry.len(), 0);
}

#[test]
fn channel_error_pauses_five_seconds() {
    let mut registry = PeerRegistry::new();
    registry.update_peer(static_peer("beta"));
    let action = browser_step(&mut registry, "home", "s3cret", BrowserEvent::ChannelError);
    assert_eq!(action, BrowserAction::Pause { seconds: 5 });
    assert_eq!(registry.list_peers(), vec![static_peer("beta")]);
}

#[test]
fn other_events_are_ignored() {
    let mut registry = PeerRegistry::new();
    registry.update_peer(static_peer("beta"));
    let action = browser_step(&mut registry, "home", "s3cret", BrowserEvent::Other);
    assert_eq!(action, BrowserAction::Wait);
    assert_eq!(registry.list_peers(), vec![static_peer("beta")]);
}
