//! Event construction: an immutable signed text note. The content policy
//! and the field plumbing are verified; the content-addressed identifier
//! and the signature come from the protocol library behind trusted
//! wrappers.
use vstd::prelude::*;

use crate::errors::Error;
use crate::keys::{pubkey_of, scalar_valid, Keypair};

verus! {

/// The content-addressed identifier the protocol assigns to a text note:
/// a deterministic hash of the canonical serialization of author public
/// key, creation time and content.
pub uninterp spec fn event_id_of(pubkey: Seq<u8>, created_at: u64, content: Seq<char>) -> Seq<u8>;

/// What the curve's signature verification returns on a signature, a
/// 32-byte message and an x-only public key.
pub uninterp spec fn sig_verifies(sig: Seq<u8>, msg: Seq<u8>, pubkey: Seq<u8>) -> bool;

/// The current UNIX time in seconds.
///
/// Relies on nostr_sdk's `Timestamp::now`; nothing is promised of the
/// clock's value.
#[verifier::external_body]
fn now_unix_seconds() -> u64 {
    nostr_sdk::prelude::Timestamp::now().as_secs()
}

/// Relies on nostr_sdk's event builder: finalizing a text note with a
/// valid keypair computes the canonical identifier of (public key,
/// creation time, content) and signs that identifier with the secret; the
/// signature it produces verifies against the author's public key. With a
/// plain keypair as the signer, finalizing cannot fail: the public key is
/// available infallibly and the freshly made signature passes the
/// builder's own check.
#[verifier::external_body]
fn sign_text_note(secret: &Vec<u8>, content: &str, created_at: u64) -> (r: (Vec<u8>, Vec<u8>))
    requires
        secret@.len() == 32,
        scalar_valid(secret@),
    ensures
        r.0@ == event_id_of(pubkey_of(secret@), created_at, content@),
        r.0@.len() == 32,
        r.1@.len() == 64,
        sig_verifies(r.1@, r.0@, pubkey_of(secret@)),
{
    let sk = nostr_sdk::prelude::SecretKey::from_slice(secret.as_slice())
        .expect("a valid scalar parses");
    let keys = nostr_sdk::prelude::Keys::new(sk);
    let event = nostr_sdk::prelude::FinalizeEvent::finalize(
        nostr_sdk::prelude::EventBuilder::new(nostr_sdk::prelude::Kind::TextNote, content)
            .custom_created_at(nostr_sdk::prelude::Timestamp::from_secs(created_at)),
        &keys,
    ).expect("signing a text note with a keypair cannot fail");
    (event.id.as_bytes().to_vec(), event.sig.as_bytes().to_vec())
}

/// Relies on secp256k1's Schnorr verification as the protocol library
/// calls it: rebuilds the signature, identifier and public key and checks
/// the signature over the 32-byte identifier; malformed pieces verify as
/// false.
#[verifier::external_body]
fn schnorr_verify(sig: &Vec<u8>, msg: &Vec<u8>, pubkey: &Vec<u8>) -> (r: bool)
    ensures
        r == sig_verifies(sig@, msg@, pubkey@),
{
    let pieces = (
        nostr_sdk::prelude::EventId::from_slice(msg.as_slice()),
        nostr_sdk::prelude::PublicKey::from_slice(pubkey.as_slice()),
        nostr_sdk::prelude::Signature::from_slice(sig.as_slice()),
    );
    let event = match pieces {
        (Ok(id), Ok(pk), Ok(sg)) => nostr_sdk::prelude::Event::new(
            id, pk, nostr_sdk::prelude::Timestamp::from_secs(0),
            nostr_sdk::prelude::Kind::TextNote, Vec::<nostr_sdk::prelude::Tag>::new(), "", sg,
        ),
        _ => return false,
    };
    event.verify_signature()
}

/// An immutable signed text note: content, creation time, author public
/// key, content-addressed identifier and signature, computed once at
/// construction.
pub struct TextEvent {
    pubkey: Vec<u8>,
    created_at: u64,
    content: String,
    id: Vec<u8>,
    sig: Vec<u8>,
}

impl TextEvent {
    /// The author's x-only public key bytes.
    pub closed spec fn pubkey_view(&self) -> Seq<u8> {
        self.pubkey@
    }

    /// The creation UNIX timestamp in seconds.
    pub closed spec fn created_at_view(&self) -> u64 {
        self.created_at
    }

    /// The note's text.
    pub closed spec fn content_view(&self) -> Seq<char> {
        self.content@
    }

    /// The content-addressed identifier.
    pub closed spec fn id_view(&self) -> Seq<u8> {
        self.id@
    }

    /// The signature bytes.
    pub closed spec fn sig_view(&self) -> Seq<u8> {
        self.sig@
    }

    /// An event is valid iff its signature verifies against the author
    /// public key over the identifier.
    pub open spec fn valid(&self) -> bool {
        sig_verifies(self.sig_view(), self.id_view(), self.pubkey_view())
    }

    pub fn pubkey(&self) -> (r: &Vec<u8>)
        ensures
            r@ == self.pubkey_view(),
    {
        &self.pubkey
    }

    pub fn created_at(&self) -> (r: u64)
        ensures
            r == self.created_at_view(),
    {
        self.created_at
    }

    pub fn content(&self) -> (r: &String)
        ensures
            r@ == self.content_view(),
    {
        &self.content
    }

    pub fn id(&self) -> (r: &Vec<u8>)
        ensures
            r@ == self.id_view(),
    {
        &self.id
    }

    pub fn sig(&self) -> (r: &Vec<u8>)
        ensures
            r@ == self.sig_view(),
    {
        &self.sig
    }

    /// Checks the signature against the author public key over the
    /// identifier: the event's validity, as the data model defines it.
    pub fn verify(&self) -> (r: bool)
        ensures
            r == self.valid(),
    {
        schnorr_verify(&self.sig, &self.id, &self.pubkey)
    }
}

/// Builds an immutable signed text note from content and an author
/// keypair: stamps the current time, computes the canonical identifier,
/// and signs it with the author's secret. Fails with `EmptyContent` if and
/// only if the content is zero-length; on success the event carries the
/// author's public key, the canonical identifier of its fields, and a
/// signature that verifies against that public key.
pub fn build_text_event(content: &str, author: &Keypair) -> (r: Result<TextEvent, Error>)
    ensures
        content@.len() == 0 <==> r == Result::<TextEvent, Error>::Err(Error::EmptyContent),
        content@.len() != 0 <==> r is Ok,
        r matches Ok(ev) ==> {
            &&& ev.content_view() == content@
            &&& ev.pubkey_view() == pubkey_of(author.secret_view())
            &&& ev.id_view() == event_id_of(ev.pubkey_view(), ev.created_at_view(), content@)
            &&& ev.valid()
            &&& ev.sig_view().len() == 64
            &&& ev.id_view().len() == 32
        },
{
    if content.unicode_len() == 0 {
        return Result::Err(Error::EmptyContent);
    }
    let created_at = now_unix_seconds();
    let secret = author.secret_bytes();
    let (id, sig) = sign_text_note(secret, content, created_at);
    let public = author.public_bytes();
    Result::Ok(TextEvent {
        pubkey: public.clone(),
        created_at,
        content: content.to_owned(),
        id,
        sig,
    })
}

} // verus!
