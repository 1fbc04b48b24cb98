use nostr_helper::errors::Error;
use nostr_helper::pool::{ConnState, RelayPool};
use nostr_helper::urls::{is_valid_relay_url, split_relay_list};

#[test]
fn url_validation() {
    assert!(is_valid_relay_url("wss://relay.example.com"));
    assert!(is_valid_relay_url("ws://localhost:7777"));
    assert!(is_valid_relay_url("wss://a"));
    assert!(!is_valid_relay_url("wss://"));
    assert!(!is_valid_relay_url("ws://"));
    assert!(!is_valid_relay_url("http://relay.example.com"));
    assert!(!is_valid_relay_url("relay.example.com"));
    assert!(!is_valid_relay_url(""));
}

#[test]
fn add_relay_registers_disconnected() {
    let mut pool = RelayPool::new();
    assert!(pool.add_relay("wss://relay.example.com").is_ok());
    assert_eq!(pool.len(), 1);
    assert_eq!(pool.url_at(0).as_str(), "wss://relay.example.com");
    assert_eq!(pool.state_at(0), ConnState::Disconnected);
}

#[test]
fn bad_url_is_rejected_and_pool_unchanged() {
    let mut pool = RelayPool::new();
    assert!(matches!(pool.add_relay("ftp://x"), Err(Error::InvalidRelayUrl)));
    assert_eq!(pool.len(), 0);
}

#[test]
fn batch_registration_survives_bad_urls() {
    let mut pool = RelayPool::new();
    let urls = vec![
        "wss://one.example".to_string(),
        "nonsense".to_string(),
        "ws://two.example".to_string(),
    ];
    let outcomes = pool.add_relays(&urls);
    assert_eq!(outcomes, vec![Ok(()), Err(Error::InvalidRelayUrl), Ok(())]);
    assert_eq!(pool.len(), 2);
    assert_eq!(pool.url_at(0).as_str(), "wss://one.example");
    assert_eq!(pool.url_at(1).as_str(), "ws://two.example");
    assert_eq!(pool.state_at(0), ConnState::Disconnected);
    assert_eq!(pool.state_at(1), ConnState::Disconnected);
}

#[test]
fn connect_all_marks_connecting_and_results_are_recorded() {
    let mut pool = RelayPool::new();
    pool.add_relay("wss://one.example").unwrap();
    pool.add_relay("wss://two.example").unwrap();
    pool.add_relay("wss://three.example").unwrap();
    assert_eq!(pool.poll_connected_count(), 0);
    pool.connect_all();
    assert_eq!(pool.state_at(0), ConnState::Connecting);
    assert_eq!(pool.state_at(1), ConnState::Connecting);
    assert_eq!(pool.state_at(2), ConnState::Connecting);
    pool.record_connect_result(0, true);
    pool.record_connect_result(2, false);
    assert_eq!(pool.state_at(0), ConnState::Connected);
    assert_eq!(pool.state_at(1), ConnState::Connecting);
    assert_eq!(pool.state_at(2), ConnState::Failed);
    assert_eq!(pool.poll_connected_count(), 1);
}

#[test]
fn connect_all_leaves_settled_states_alone() {
    let mut pool = RelayPool::new();
    pool.add_relay("wss://one.example").unwrap();
    pool.add_relay("wss://two.example").unwrap();
    pool.connect_all();
    pool.record_connect_result(0, true);
    pool.record_connect_result(1, false);
    pool.connect_all();
    assert_eq!(pool.state_at(0), ConnState::Connected);
    assert_eq!(pool.state_at(1), ConnState::Failed);
}

#[test]
fn snapshot_lists_urls_and_states_in_order() {
    let mut pool = RelayPool::new();
    pool.add_relay("wss://one.example").unwrap();
    pool.add_relay("wss://two.example").unwrap();
    pool.connect_all();
    pool.record_connect_result(1, true);
    let snap = pool.snapshot();
    assert_eq!(snap.len(), 2);
    assert_eq!(snap[0].0, "wss://one.example");
    assert_eq!(snap[0].1, ConnState::Connecting);
    assert_eq!(snap[1].0, "wss://two.example");
    assert_eq!(snap[1].1, ConnState::Connected);
}

#[test]
fn relay_list_splits_trims_and_drops_empties() {
    assert_eq!(
        split_relay_list("wss://a, ws://b ,, wss://c"),
        vec!["wss://a".to_string(), "ws://b".to_string(), "wss://c".to_string()]
    );
    assert_eq!(split_relay_list(""), Vec::<String>::new());
    assert_eq!(split_relay_list(" ,  , "), Vec::<String>::new());
    assert_eq!(split_relay_list("  wss://solo.example  "), vec!["wss://solo.example".to_string()]);
}
