//! Key management: generate, import and derive keypairs of the protocol's
//! curve. The curve operations come from the protocol library behind
//! trusted wrappers; the text encodings and the import decisions are
//! verified here.
use vstd::prelude::*;
use vstd::string::StrSliceExecFns;
use vstd::string::StringExecFns;

use crate::errors::Error;
use crate::hexcode::{
    all_hex, hex_decode_spec, hex_encode_spec, is_hex_digit_exec, decode_hex_chars,
    lemma_hex_round_trip, to_hex,
};

verus! {

/// Whether 32 bytes form a valid secret scalar for the curve, as the
/// protocol library's key parser decides it.
pub uninterp spec fn scalar_valid(s: Seq<u8>) -> bool;

/// The 32-byte x-only public key that the protocol library derives from a
/// valid secret scalar.
pub uninterp spec fn pubkey_of(s: Seq<u8>) -> Seq<u8>;

/// What `bech32::decode` returns on a string: the human-readable part
/// (lowercased) and the payload bytes, or nothing when the string is no
/// well-formed bech32 text.
pub uninterp spec fn bech32_decoding(s: Seq<char>) -> Option<(Seq<char>, Seq<u8>)>;

/// Relies on nostr_sdk's `Keys::generate`: it draws random bytes until
/// `secp256k1::SecretKey::from_slice` accepts them, so the secret it
/// returns is 32 bytes and a valid scalar.
#[verifier::external_body]
fn generate_secret_bytes() -> (r: Vec<u8>)
    ensures
        r@.len() == 32,
        scalar_valid(r@),
{
    nostr_sdk::prelude::Keys::generate().secret_key().as_secret_bytes().to_vec()
}

/// Relies on nostr_sdk's `SecretKey::from_slice`, which succeeds on exactly
/// the 32-byte strings that form a valid scalar for the curve.
#[verifier::external_body]
fn scalar_valid_exec(b: &Vec<u8>) -> (r: bool)
    requires
        b@.len() == 32,
    ensures
        r == scalar_valid(b@),
{
    nostr_sdk::prelude::SecretKey::from_slice(b.as_slice()).is_ok()
}

/// Relies on nostr_sdk's `Keys::public_key`: the x-only public key is the
/// deterministic derivation of the secret scalar, 32 bytes long.
#[verifier::external_body]
fn derive_public_bytes(secret: &Vec<u8>) -> (r: Vec<u8>)
    requires
        secret@.len() == 32,
        scalar_valid(secret@),
    ensures
        r@ == pubkey_of(secret@),
        r@.len() == 32,
{
    let sk = nostr_sdk::prelude::SecretKey::from_slice(secret.as_slice())
        .expect("a valid scalar parses");
    let keys = nostr_sdk::prelude::Keys::new(sk);
    keys.public_key().to_bytes().to_vec()
}

/// Relies on `bech32::decode`: a deterministic function of the text that
/// yields the human-readable part and the decoded payload bytes, or an
/// error when the text is no well-formed bech32 string.
#[verifier::external_body]
fn bech32_decode(s: &str) -> (r: Option<(String, Vec<u8>)>)
    ensures
        r is Some <==> bech32_decoding(s@) is Some,
        r matches Some(p) ==> bech32_decoding(s@) == Some((p.0@, p.1@)),
{
    match bech32::decode(s) {
        Ok((hrp, data)) => Some((hrp.to_lowercase(), data)),
        Err(_) => None,
    }
}

/// An asymmetric signing keypair: a 32-byte secret scalar and the public
/// key derived from it. The derivation invariant holds of every value.
pub struct Keypair {
    secret: Vec<u8>,
    public: Vec<u8>,
}

impl Keypair {
    /// The secret scalar bytes.
    pub closed spec fn secret_view(&self) -> Seq<u8> {
        self.secret@
    }

    /// The derived public key bytes.
    pub closed spec fn public_view(&self) -> Seq<u8> {
        self.public@
    }

    #[verifier::type_invariant]
    spec fn well_formed(self) -> bool {
        &&& self.secret@.len() == 32
        &&& scalar_valid(self.secret@)
        &&& self.public@ == pubkey_of(self.secret@)
        &&& self.public@.len() == 32
    }

    /// The 32 secret bytes.
    pub fn secret_bytes(&self) -> (r: &Vec<u8>)
        ensures
            r@ == self.secret_view(),
            r@.len() == 32,
            scalar_valid(r@),
    {
        proof {
            use_type_invariant(self);
        }
        &self.secret
    }

    /// The derived public key: always `pubkey_of` the secret.
    pub fn public_bytes(&self) -> (r: &Vec<u8>)
        ensures
            r@ == self.public_view(),
            r@ == pubkey_of(self.secret_view()),
            r@.len() == 32,
    {
        proof {
            use_type_invariant(self);
        }
        &self.public
    }

    /// The secret as lowercase hexadecimal, as `generate-key` prints it.
    pub fn secret_hex(&self) -> (r: String)
        ensures
            r@ == hex_encode_spec(self.secret_view()),
    {
        to_hex(&self.secret)
    }

    /// The public key as lowercase hexadecimal, the protocol's standard
    /// text form of a public key.
    pub fn public_hex(&self) -> (r: String)
        ensures
            r@ == hex_encode_spec(pubkey_of(self.secret_view())),
    {
        proof {
            use_type_invariant(self);
        }
        to_hex(&self.public)
    }
}

/// A fresh keypair with a cryptographically secure random secret. Cannot
/// fail.
pub fn generate() -> (r: Keypair)
    ensures
        r.secret_view().len() == 32,
        scalar_valid(r.secret_view()),
        r.public_view() == pubkey_of(r.secret_view()),
{
    let secret = generate_secret_bytes();
    let public = derive_public_bytes(&secret);
    Keypair { secret, public }
}

/// Does the text begin with the bech32-style secret prefix?
pub open spec fn starts_with_nsec(t: Seq<char>) -> bool {
    t.len() >= 4 && t[0] == 'n' && t[1] == 's' && t[2] == 'e' && t[3] == 'c'
}

/// The human-readable part that a bech32-style secret must carry.
pub open spec fn nsec_hrp() -> Seq<char> {
    seq!['n', 's', 'e', 'c']
}

/// What importing a piece of secret-key text yields: the 32 secret bytes,
/// or the error the taxonomy assigns to the text.
pub open spec fn import_spec(t: Seq<char>) -> Result<Seq<u8>, Error> {
    if starts_with_nsec(t) {
        match bech32_decoding(t) {
            Option::None => Result::Err(Error::InvalidKeyFormat),
            Option::Some(p) => if p.0 != nsec_hrp() {
                Result::Err(Error::InvalidKeyFormat)
            } else if p.1.len() != 32 {
                Result::Err(Error::InvalidKeyLength)
            } else if !scalar_valid(p.1) {
                Result::Err(Error::InvalidKeyValue)
            } else {
                Result::Ok(p.1)
            },
        }
    } else if !(all_hex(t) && t.len() % 2 == 0) {
        Result::Err(Error::InvalidKeyFormat)
    } else if t.len() != 64 {
        Result::Err(Error::InvalidKeyLength)
    } else if !scalar_valid(hex_decode_spec(t)) {
        Result::Err(Error::InvalidKeyValue)
    } else {
        Result::Ok(hex_decode_spec(t))
    }
}

/// Imports a secret key from raw hexadecimal (64 digits) or bech32-style
/// text (the "nsec" prefixed form). Fails with `InvalidKeyFormat` when the
/// text matches neither encoding, `InvalidKeyLength` when it decodes to
/// other than 32 bytes, and `InvalidKeyValue` when the bytes form no valid
/// scalar — exactly as `import_spec` assigns them.
pub fn import_secret(text: &str) -> (r: Result<Keypair, Error>)
    ensures
        match r {
            Result::Ok(kp) => {
                &&& import_spec(text@) == Result::<Seq<u8>, Error>::Ok(kp.secret_view())
                &&& kp.secret_view().len() == 32
                &&& scalar_valid(kp.secret_view())
                &&& kp.public_view() == pubkey_of(kp.secret_view())
            },
            Result::Err(e) => import_spec(text@) == Result::<Seq<u8>, Error>::Err(e),
        },
{
    let n = text.unicode_len();
    let is_nsec = n >= 4 && text.get_char(0) == 'n' && text.get_char(1) == 's'
        && text.get_char(2) == 'e' && text.get_char(3) == 'c';
    if is_nsec {
        match bech32_decode(text) {
            Option::None => Result::Err(Error::InvalidKeyFormat),
            Option::Some((hrp, data)) => {
                let nsec_text: String = <String as StringExecFns>::from_str("nsec");
                proof {
                    reveal_strlit("nsec");
                    assert("nsec"@ =~= nsec_hrp());
                }
                if !(hrp == nsec_text) {
                    Result::Err(Error::InvalidKeyFormat)
                } else if data.len() != 32 {
                    Result::Err(Error::InvalidKeyLength)
                } else if !scalar_valid_exec(&data) {
                    Result::Err(Error::InvalidKeyValue)
                } else {
                    let public = derive_public_bytes(&data);
                    Result::Ok(Keypair { secret: data, public })
                }
            },
        }
    } else {
        let mut chars: Vec<char> = Vec::new();
        let mut i: usize = 0;
        while i < n
            invariant
                n == text@.len(),
                i <= n,
                chars@ =~= text@.take(i as int),
                all_hex(chars@),
                !starts_with_nsec(text@),
            decreases n - i,
        {
            let c = text.get_char(i);
            if !is_hex_digit_exec(c) {
                proof {
                    assert(!crate::hexcode::is_hex_digit(text@[i as int]));
                    assert(!all_hex(text@));
                }
                return Result::Err(Error::InvalidKeyFormat);
            }
            chars.push(c);
            i = i + 1;
            proof {
                assert(chars@ =~= text@.take(i as int));
            }
        }
        proof {
            assert(chars@ =~= text@);
        }
        if n % 2 != 0 {
            Result::Err(Error::InvalidKeyFormat)
        } else if n != 64 {
            Result::Err(Error::InvalidKeyLength)
        } else {
            let secret = decode_hex_chars(&chars);
            if !scalar_valid_exec(&secret) {
                Result::Err(Error::InvalidKeyValue)
            } else {
                let public = derive_public_bytes(&secret);
                Result::Ok(Keypair { secret, public })
            }
        }
    }
}

/// Rejection: any text that is neither a string of exactly 64 hexadecimal
/// digits nor well-formed bech32-style secret text (the "nsec" part over a
/// 32-byte payload) imports as an error, never as a keypair.
pub proof fn lemma_import_rejects_malformed(t: Seq<char>)
    requires
        !starts_with_nsec(t) ==> !(all_hex(t) && t.len() == 64),
        starts_with_nsec(t) ==> !(bech32_decoding(t) matches Some(p) && p.0 == nsec_hrp()
            && p.1.len() == 32),
    ensures
        import_spec(t) is Err,
{
}

/// Round trip: importing the lowercase hexadecimal encoding of any valid
/// 32-byte secret yields exactly that secret back, so the public key
/// derived after the round trip equals the one derived directly.
pub proof fn lemma_import_hex_round_trip(secret: Seq<u8>)
    requires
        secret.len() == 32,
        scalar_valid(secret),
    ensures
        import_spec(hex_encode_spec(secret)) == Result::<Seq<u8>, Error>::Ok(secret),
{
    let t = hex_encode_spec(secret);
    lemma_hex_round_trip(secret);
    assert(!starts_with_nsec(t)) by {
        if starts_with_nsec(t) {
            assert(crate::hexcode::is_hex_digit(t[0]));
        }
    }
}

} // verus!
