use nostr_helper::errors::Error;
use nostr_helper::event::build_text_event;
use nostr_helper::keys::generate;

#[test]
fn empty_content_is_rejected() {
    let kp = generate();
    let r = build_text_event("", &kp);
    assert!(matches!(r, Err(Error::EmptyContent)));
}

#[test]
fn signed_event_verifies() {
    let kp = generate();
    let ev = build_text_event("hello", &kp).expect("nonempty content builds");
    assert_eq!(ev.content().as_str(), "hello");
    assert_eq!(ev.pubkey(), kp.public_bytes());
    assert_eq!(ev.id().len(), 32);
    assert_eq!(ev.sig().len(), 64);
    assert!(ev.verify());
}

#[test]
fn signed_event_verifies_under_the_protocol_library() {
    let kp = generate();
    let ev = build_text_event("hello, relays", &kp).expect("nonempty content builds");
    let id = nostr_sdk::prelude::EventId::from_slice(ev.id()).unwrap();
    let pk = nostr_sdk::prelude::PublicKey::from_slice(ev.pubkey()).unwrap();
    let sig = nostr_sdk::prelude::Signature::from_slice(ev.sig()).unwrap();
    let rebuilt = nostr_sdk::prelude::Event::new(
        id,
        pk,
        nostr_sdk::prelude::Timestamp::from_secs(ev.created_at()),
        nostr_sdk::prelude::Kind::TextNote,
        Vec::<nostr_sdk::prelude::Tag>::new(),
        ev.content().as_str(),
        sig,
    );
    // Checks both the content-addressed identifier and the signature.
    assert!(rebuilt.verify().is_ok());
}

#[test]
fn corrupted_signature_does_not_verify() {
    let kp = generate();
    let ev = build_text_event("hello", &kp).expect("nonempty content builds");
    let mut bad_sig = ev.sig().clone();
    bad_sig[0] ^= 0x01;
    let id = nostr_sdk::prelude::EventId::from_slice(ev.id()).unwrap();
    let pk = nostr_sdk::prelude::PublicKey::from_slice(ev.pubkey()).unwrap();
    let sig = nostr_sdk::prelude::Signature::from_slice(&bad_sig).unwrap();
    let rebuilt = nostr_sdk::prelude::Event::new(
        id,
        pk,
        nostr_sdk::prelude::Timestamp::from_secs(ev.created_at()),
        nostr_sdk::prelude::Kind::TextNote,
        Vec::<nostr_sdk::prelude::Tag>::new(),
        ev.content().as_str(),
        sig,
    );
    assert!(!rebuilt.verify_signature());
}

#[test]
fn events_from_different_keys_differ() {
    let a = generate();
    let b = generate();
    let ev_a = build_text_event("same text", &a).unwrap();
    let ev_b = build_text_event("same text", &b).unwrap();
    assert_ne!(ev_a.pubkey(), ev_b.pubkey());
    assert_ne!(ev_a.id(), ev_b.id());
}
