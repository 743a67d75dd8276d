use herald::{AgentInfo, PeerHealth, PeerRegistry, PeerSource, PeerState};

fn agent(name: &str, instance: &str) -> AgentInfo {
    AgentInfo { name: name.to_string(), instance: instance.to_string() }
}

fn peer(name: &str, url: &str, agents: Vec<AgentInfo>, source: PeerSource) -> PeerState {
    PeerState {
        name: name.to_string(),
        url: url.to_string(),
        shared_secret: format!("secret-{name}"),
        agents,
        health: PeerHealth::Healthy,
        source,
    }
}

fn names(registry: &PeerRegistry) -> Vec<String> {
    registry.list_peers().into_iter().map(|p| p.name).collect()
}

#[test]
fn new_registry_is_empty() {
    let registry = PeerRegistry::new();
    assert_eq!(registry.len(), 0);
    assert!(registry.list_peers().is_empty());
    assert!(registry.remote_agents().is_empty());
    assert_eq!(registry.find_agent(None, "writer"), None);
    assert_eq!(registry.find_agent(Some("alpha"), "writer"), None);
    assert_eq!(registry.get_peer("alpha"), None);
}

#[test]
fn update_peer_adds_a_new_name_at_the_end() {
    let mut registry = PeerRegistry::new();
    registry.update_peer(peer("alpha", "http://a", vec![], PeerSource::Mdns));
    registry.update_peer(peer("beta", "http://b", vec![], PeerSource::Static));
    registry.update_peer(peer("gamma", "http://c", vec![], PeerSource::Mdns));
    assert_eq!(names(&registry), vec!["alpha", "beta", "gamma"]);
    assert_eq!(registry.len(), 3);
}

#[test]
fn update_peer_replaces_the_whole_entry_in_place() {
    let mut registry = PeerRegistry::new();
    registry.update_peer(peer("alpha", "http://a", vec![agent("writer", "alpha")], PeerSource::Mdns));
    registry.update_peer(peer("beta", "http://b", vec![], PeerSource::Mdns));
    let mut replacement = peer("alpha", "http://a2", vec![], PeerSource::Static);
    replacement.health = PeerHealth::Unhealthy;
    replacement.shared_secret = "other".to_string();
    registry.update_peer(replacement);
    assert_eq!(names(&registry), vec!["alpha", "beta"]);
    let stored = registry.get_peer("alpha").unwrap();
    assert_eq!(stored.url, "http://a2");
    assert_eq!(stored.shared_secret, "other");
    assert!(stored.agents.is_empty());
    assert_eq!(stored.health, PeerHealth::Unhealthy);
    assert_eq!(stored.source, PeerSource::Static);
}

#[test]
fn many_updates_leave_one_entry_per_name_with_the_last_write() {
    let mut registry = PeerRegistry::new();
    let writes = [
        ("alpha", "1"),
        ("beta", "2"),
        ("alpha", "3"),
        ("gamma", "4"),
        ("beta", "5"),
        ("alpha", "6"),
        ("beta", "7"),
    ];
    for (name, url) in writes {
        registry.update_peer(peer(name, url, vec![], PeerSource::Mdns));
    }
    assert_eq!(names(&registry), vec!["alpha", "beta", "gamma"]);
    assert_eq!(registry.get_peer("alpha").unwrap().url, "6");
    assert_eq!(registry.get_peer("beta").unwrap().url, "7");
    assert_eq!(registry.get_peer("gamma").unwrap().url, "4");
}

#[test]
fn names_differing_in_case_are_different_peers() {
    let mut registry = PeerRegistry::new();
    registry.update_peer(peer("alpha", "1", vec![], PeerSource::Mdns));
    registry.update_peer(peer("Alpha", "2", vec![], PeerSource::Mdns));
    assert_eq!(names(&registry), vec!["alpha", "Alpha"]);
}

#[test]
fn remove_peer_deletes_an_entry_of_any_source() {
    let mut registry = PeerRegistry::new();
    registry.update_peer(peer("alpha", "1", vec![], PeerSource::Static));
    registry.update_peer(peer("beta", "2", vec![], PeerSource::Mdns));
    registry.update_peer(peer("gamma", "3", vec![], PeerSource::Mdns));
    registry.remove_peer("alpha");
    assert_eq!(names(&registry), vec!["beta", "gamma"]);
    registry.remove_peer("gamma");
    assert_eq!(names(&registry), vec!["beta"]);
}

#[test]
fn remove_peer_of_an_absent_name_changes_nothing() {
    let mut registry = PeerRegistry::new();
    registry.remove_peer("alpha");
    assert_eq!(registry.len(), 0);
    registry.update_peer(peer("alpha", "1", vec![], PeerSource::Mdns));
    registry.remove_peer("alph");
    registry.remove_peer("alphaa");
    registry.remove_peer("");
    assert_eq!(names(&registry), vec!["alpha"]);
}

#[test]
fn remove_discovered_spares_a_static_peer() {
    let mut registry = PeerRegistry::new();
    registry.update_peer(peer("alpha", "1", vec![agent("writer", "alpha")], PeerSource::Static));
    let before = registry.list_peers();
    assert!(!registry.remove_discovered("alpha"));
    assert_eq!(registry.list_peers(), before);
}

#[test]
fn remove_discovered_deletes_a_discovered_peer() {
    let mut registry = PeerRegistry::new();
    registry.update_peer(peer("alpha", "1", vec![], PeerSource::Mdns));
    registry.update_peer(peer("beta", "2", vec![], PeerSource::Static));
    assert!(registry.remove_discovered("alpha"));
    assert_eq!(names(&registry), vec!["beta"]);
    assert!(!registry.remove_discovered("alpha"));
    assert_eq!(names(&registry), vec!["beta"]);
}

#[test]
fn list_peers_is_a_copy() {
    let mut registry = PeerRegistry::new();
    registry.update_peer(peer("alpha", "1", vec![agent("writer", "alpha")], PeerSource::Mdns));
    let mut snapshot = registry.list_peers();
    snapshot[0].url = "changed".to_string();
    snapshot.clear();
    registry.update_peer(peer("beta", "2", vec![], PeerSource::Mdns));
    let now = registry.list_peers();
    assert_eq!(now.len(), 2);
    assert_eq!(now[0], peer("alpha", "1", vec![agent("writer", "alpha")], PeerSource::Mdns));
}

#[test]
fn remote_agents_keeps_list_order_then_peer_order() {
    let mut registry = PeerRegistry::new();
    registry.update_peer(peer(
        "alpha",
        "1",
        vec![agent("writer", "alpha"), agent("coder", "alpha")],
        PeerSource::Mdns,
    ));
    registry.update_peer(peer("beta", "2", vec![], PeerSource::Mdns));
    let mut unhealthy = peer("gamma", "3", vec![agent("writer", "gamma")], PeerSource::Static);
    unhealthy.health = PeerHealth::Unhealthy;
    registry.update_peer(unhealthy);
    assert_eq!(
        registry.remote_agents(),
        vec![agent("writer", "alpha"), agent("coder", "alpha"), agent("writer", "gamma")]
    );
}

#[test]
fn find_agent_in_a_named_peer() {
    let mut registry = PeerRegistry::new();
    registry.update_peer(peer("alpha", "http://a", vec![agent("writer", "alpha")], PeerSource::Mdns));
    registry.update_peer(peer("beta", "http://b", vec![agent("coder", "beta")], PeerSource::Mdns));
    assert_eq!(
        registry.find_agent(Some("beta"), "coder"),
        Some(("http://b".to_string(), "secret-beta".to_string(), agent("coder", "beta")))
    );
    assert_eq!(registry.find_agent(Some("gamma"), "coder"), None);
}

#[test]
fn find_agent_in_a_named_peer_never_answers_from_another() {
    let mut registry = PeerRegistry::new();
    registry.update_peer(peer("alpha", "http://a", vec![agent("writer", "alpha")], PeerSource::Mdns));
    registry.update_peer(peer("beta", "http://b", vec![agent("coder", "beta")], PeerSource::Mdns));
    registry.update_peer(peer("gamma", "http://c", vec![agent("writer", "gamma")], PeerSource::Mdns));
    assert_eq!(registry.find_agent(Some("beta"), "writer"), None);
    assert_eq!(
        registry.find_agent(Some("gamma"), "writer"),
        Some(("http://c".to_string(), "secret-gamma".to_string(), agent("writer", "gamma")))
    );
}

#[test]
fn find_agent_without_a_peer_takes_the_first_in_registry_order() {
    let mut registry = PeerRegistry::new();
    registry.update_peer(peer("alpha", "http://a", vec![agent("coder", "alpha")], PeerSource::Mdns));
    registry.update_peer(peer("beta", "http://b", vec![agent("writer", "beta")], PeerSource::Mdns));
    registry.update_peer(peer("gamma", "http://c", vec![agent("writer", "gamma")], PeerSource::Mdns));
    assert_eq!(
        registry.find_agent(None, "writer"),
        Some(("http://b".to_string(), "secret-beta".to_string(), agent("writer", "beta")))
    );
    registry.update_peer(peer("alpha", "http://a", vec![agent("writer", "alpha")], PeerSource::Mdns));
    assert_eq!(
        registry.find_agent(None, "writer"),
        Some(("http://a".to_string(), "secret-alpha".to_string(), agent("writer", "alpha")))
    );
}

#[test]
fn find_agent_without_a_peer_finds_exactly_what_some_peer_lists() {
    let mut registry = PeerRegistry::new();
    registry.update_peer(peer("alpha", "http://a", vec![], PeerSource::Mdns));
    registry.update_peer(peer(
        "beta",
        "http://b",
        vec![agent("writer", "beta"), agent("coder", "beta")],
        PeerSource::Mdns,
    ));
    for name in ["writer", "coder"] {
        assert!(registry.find_agent(None, name).is_some());
    }
    for name in ["", "write", "writers", "Writer", "beta", "writer ", "beta:writer"] {
        assert_eq!(registry.find_agent(None, name), None);
    }
}

#[test]
fn find_agent_takes_the_first_of_two_agents_of_one_name() {
    let mut registry = PeerRegistry::new();
    registry.update_peer(peer(
        "alpha",
        "http://a",
        vec![agent("writer", "first"), agent("writer", "second")],
        PeerSource::Mdns,
    ));
    let (_, _, found) = registry.find_agent(Some("alpha"), "writer").unwrap();
    assert_eq!(found.instance, "first");
}

#[test]
fn find_agent_reads_without_changing() {
    let mut registry = PeerRegistry::new();
    registry.update_peer(peer("alpha", "http://a", vec![agent("writer", "alpha")], PeerSource::Mdns));
    let before = registry.list_peers();
    let _ = registry.find_agent(None, "writer");
    let _ = registry.find_agent(Some("alpha"), "nobody");
    assert_eq!(registry.list_peers(), before);
}

#[test]
fn peer_find_agent_hands_out_address_and_credential() {
    let state = peer("alpha", "http://a", vec![agent("writer", "alpha")], PeerSource::Mdns);
    assert_eq!(
        state.find_agent(&"writer".to_string()),
        Some(("http://a".to_string(), "secret-alpha".to_string(), agent("writer", "alpha")))
    );
    assert_eq!(state.find_agent(&"coder".to_string()), None);
}

#[test]
fn a_cloned_registry_is_independent() {
    let mut registry = PeerRegistry::new();
    registry.update_peer(peer("alpha", "1", vec![agent("writer", "alpha")], PeerSource::Mdns));
    let copy = registry.clone();
    registry.remove_peer("alpha");
    assert_eq!(registry.len(), 0);
    assert_eq!(
        copy.list_peers(),
        vec![peer("alpha", "1", vec![agent("writer", "alpha")], PeerSource::Mdns)]
    );
}

#[test]
fn cloned_entries_are_equal() {
    let state = peer("alpha", "1", vec![agent("writer", "alpha")], PeerSource::Static);
    assert_eq!(state.clone(), state);
    let listed = agent("writer", "alpha");
    assert_eq!(listed.clone(), listed);
}
