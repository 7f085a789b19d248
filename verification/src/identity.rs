//! Accounts derived from BIP-39 seed phrases.
//!
//! A seed phrase gives a 64-byte BIP-39 seed (empty passphrase); its first 32
//! bytes are an Ed25519 secret key. The account ID is `zd1` followed by the
//! first 32 hex digits of the public key.

use vstd::prelude::*;
use crate::encoding::{hex_encode, hex_lower, lemma_hex_lower_shape, is_hex_digit};
use crate::storage::{IdentityData, IdentityDataV};
use crate::text::{trim, trimmed};

verus! {

/// The keys and names of an account.
#[derive(Debug)]
pub struct IdentityKeys {
    pub user_id: String,
    pub display_name: String,
    pub seed_phrase: String,
    pub public_key_hex: String,
    pub private_key_hex: String,
}

/// The view of an `IdentityKeys`.
pub struct IdentityKeysV {
    pub user_id: Seq<char>,
    pub display_name: Seq<char>,
    pub seed_phrase: Seq<char>,
    pub public_key_hex: Seq<char>,
    pub private_key_hex: Seq<char>,
}

impl View for IdentityKeys {
    type V = IdentityKeysV;

    open spec fn view(&self) -> IdentityKeysV {
        IdentityKeysV {
            user_id: self.user_id@,
            display_name: self.display_name@,
            seed_phrase: self.seed_phrase@,
            public_key_hex: self.public_key_hex@,
            private_key_hex: self.private_key_hex@,
        }
    }
}

impl Clone for IdentityKeys {
    fn clone(&self) -> (res: Self)
        ensures
            res == *self,
    {
        IdentityKeys {
            user_id: self.user_id.clone(),
            display_name: self.display_name.clone(),
            seed_phrase: self.seed_phrase.clone(),
            public_key_hex: self.public_key_hex.clone(),
            private_key_hex: self.private_key_hex.clone(),
        }
    }
}

// ---------------------------------------------------------------------------
// What the outside crates compute
// ---------------------------------------------------------------------------

/// The error type of the `bip39` crate, carried opaquely.
#[verifier::external_type_specification]
#[verifier::external_body]
pub struct ExBip39Error(bip39::Error);

/// Whether `<bip39::Mnemonic as FromStr>::from_str` accepts `phrase`.
pub uninterp spec fn bip39_accepts(phrase: Seq<char>) -> bool;

/// The text that the `Display` of the mnemonic parsed from `phrase` writes.
pub uninterp spec fn bip39_display(phrase: Seq<char>) -> Seq<char>;

/// `Mnemonic::to_seed(passphrase)` of the mnemonic parsed from `phrase`.
pub uninterp spec fn bip39_seed(phrase: Seq<char>, passphrase: Seq<char>) -> Seq<u8>;

/// The number of spaces in `s`.
pub open spec fn space_count(s: Seq<char>) -> nat
    decreases s.len(),
{
    if s.len() == 0 {
        0
    } else {
        (if s[0] == ' ' {
            1nat
        } else {
            0nat
        }) + space_count(s.drop_first())
    }
}

/// The number of words in a text whose words are separated by single
/// spaces.
pub open spec fn word_count_of(s: Seq<char>) -> nat {
    space_count(s) + 1
}

/// The Ed25519 public key of the 32-byte secret key `secret`.
pub uninterp spec fn ed25519_public(secret: Seq<u8>) -> Seq<u8>;

/// Calls `bip39::Mnemonic::generate_in(Language::English, word_count)` and
/// renders the mnemonic with its `Display`. The source returns an error only
/// for a word count other than 12, 15, 18, 21 or 24. The text it writes is
/// the words joined by single spaces; parsing it again gives back the same
/// mnemonic, hence the same text. It has `word_count` words: the source
/// draws `word_count / 3 * 4` bytes of entropy and turns them into
/// `nb_bytes * 3 / 4` words, and the words of the English list hold no
/// space. The words are random, so nothing more is claimed of them.
#[verifier::external_body]
fn mnemonic_generate(word_count: usize) -> (res: Result<String, bip39::Error>)
    ensures
        (word_count == 12 || word_count == 15 || word_count == 18 || word_count == 21
            || word_count == 24) ==> res is Ok,
        res matches Ok(p) ==> bip39_accepts(p@) && bip39_display(p@) == p@ && trim(p@) == p@,
        res matches Ok(p) ==> word_count_of(p@) == word_count,
{
    match bip39::Mnemonic::generate_in(bip39::Language::English, word_count) {
        Ok(m) => Ok(m.to_string()),
        Err(e) => Err(e),
    }
}

/// Parses `phrase` with `<bip39::Mnemonic as FromStr>::from_str`, and of the
/// mnemonic returns the text its `Display` writes and `to_seed(passphrase)`
/// (a 64-byte array, as a vector). Claimed: it succeeds exactly when the parse
/// does; the text and the seed are named by `bip39_display` and
/// `bip39_seed`; the text, a list of words joined by single spaces, parses
/// again to the same mnemonic, so it is accepted, renders to itself, has the
/// same seed, and has no white space at either end.
#[verifier::external_body]
fn mnemonic_parse(phrase: &str, passphrase: &str) -> (res: Result<(String, Vec<u8>), bip39::Error>)
    ensures
        res is Ok <==> bip39_accepts(phrase@),
        res matches Ok((t, seed)) ==> t@ == bip39_display(phrase@) && seed@ == bip39_seed(
            phrase@,
            passphrase@,
        ) && seed@.len() == 64,
        res matches Ok((t, seed)) ==> bip39_accepts(t@) && bip39_display(t@) == t@ && bip39_seed(
            t@,
            passphrase@,
        ) == bip39_seed(phrase@, passphrase@) && trim(t@) == t@,
{
    match phrase.parse::<bip39::Mnemonic>() {
        Ok(m) => Ok((m.to_string(), m.to_seed(passphrase).to_vec())),
        Err(e) => Err(e),
    }
}

/// The `Display` text of a `bip39::Error`. Nothing is claimed of it.
#[verifier::external_body]
fn bip39_error_text(e: &bip39::Error) -> (res: String) {
    e.to_string()
}

/// Makes an `ed25519_dalek::SigningKey` with `SigningKey::from_bytes(secret)`
/// and returns its `to_bytes()` and the bytes of its `verifying_key()`. The
/// source stores the given bytes and hands them back from `to_bytes`, which
/// is claimed; the public key is named by `ed25519_public`.
#[verifier::external_body]
fn ed25519_key_bytes(secret: &[u8; 32]) -> (res: ([u8; 32], [u8; 32]))
    ensures
        res.0@ == secret@,
        res.1@ == ed25519_public(secret@),
{
    let signing_key = ed25519_dalek::SigningKey::from_bytes(secret);
    (signing_key.to_bytes(), *signing_key.verifying_key().as_bytes())
}

// ---------------------------------------------------------------------------
// Specification
// ---------------------------------------------------------------------------

/// `derive_identity_from_seed` refuses a phrase that is not a mnemonic.
pub open spec fn msg_bad_seed() -> Seq<char> {
    "Failed to parse seed phrase."@
}

pub open spec fn msg_invalid_phrase() -> Seq<char> {
    "Invalid BIP-39 seed phrase. Please check your 24 words."@
}

pub open spec fn msg_id_mismatch() -> Seq<char> {
    "Account ID does not match the key derived from this seed phrase."@
}

/// The account ID of a public key given in hex: `zd1` and its first 32
/// digits.
pub open spec fn user_id_of(public_key_hex: Seq<char>) -> Seq<char> {
    "zd1"@ + public_key_hex.take(32)
}

/// The secret key of a seed phrase: the first 32 bytes of its seed with the
/// empty passphrase.
pub open spec fn secret_of(phrase: Seq<char>) -> Seq<u8> {
    bip39_seed(phrase, Seq::empty()).take(32)
}

/// The keys derived from an accepted `phrase`, with the display name trimmed.
pub open spec fn keys_from_phrase(display_name: Seq<char>, phrase: Seq<char>) -> IdentityKeysV {
    let public_key_hex = hex_lower(ed25519_public(secret_of(phrase)));
    IdentityKeysV {
        user_id: user_id_of(public_key_hex),
        display_name: trim(display_name),
        seed_phrase: phrase,
        public_key_hex,
        private_key_hex: hex_lower(secret_of(phrase)),
    }
}

/// What `derive_identity_from_seed` returns.
pub open spec fn derive_spec(display_name: Seq<char>, phrase: Seq<char>) -> Result<IdentityKeysV, Seq<char>> {
    if bip39_accepts(phrase) {
        Ok(keys_from_phrase(display_name, phrase))
    } else {
        Err(msg_bad_seed())
    }
}

/// What `restore_identity` returns: the keys of the trimmed phrase as the
/// mnemonic renders it, unless the phrase is not accepted or a non-blank
/// account ID differs from the derived one.
pub open spec fn restore_spec(display_name: Seq<char>, user_id: Seq<char>, phrase: Seq<char>) -> Result<IdentityKeysV, Seq<char>> {
    let clean = trim(phrase);
    if !bip39_accepts(clean) {
        Err(msg_invalid_phrase())
    } else {
        let keys = keys_from_phrase(display_name, bip39_display(clean));
        let id = trim(user_id);
        if id.len() != 0 && id != keys.user_id {
            Err(msg_id_mismatch())
        } else {
            Ok(keys)
        }
    }
}

/// `s` has the shape of an account ID: `zd1` and 32 lowercase hex digits.
pub open spec fn is_account_id(s: Seq<char>) -> bool {
    &&& s.len() == 35
    &&& s.take(3) == "zd1"@
    &&& forall|i: int| 3 <= i < 35 ==> is_hex_digit(#[trigger] s[i])
}

// ---------------------------------------------------------------------------
// Implementation
// ---------------------------------------------------------------------------

/// The account ID made from the hex text of a public key.
fn account_id(public_key_hex: &String) -> (res: String)
    requires
        public_key_hex@.len() >= 32,
    ensures
        res@ == user_id_of(public_key_hex@),
{
    let mut id = "zd1".to_owned();
    let head = public_key_hex.as_str().substring_char(0, 32);
    id.append(head);
    proof {
        assert(public_key_hex@.subrange(0, 32) =~= public_key_hex@.take(32));
    }
    id
}

/// Derives the account of a seed phrase. Fails when the phrase is not a
/// BIP-39 mnemonic.
pub fn derive_identity_from_seed(display_name: String, seed_phrase: &str) -> (res: Result<IdentityKeys, String>)
    ensures
        match derive_spec(display_name@, seed_phrase@) {
            Ok(v) => res matches Ok(k) && k@ == v,
            Err(e) => res matches Err(m) && m@ == e,
        },
        res matches Ok(k) ==> is_account_id(k.user_id@) && k.public_key_hex@.len() == 64
            && k.private_key_hex@.len() == 64,
{
    let passphrase = "";
    proof {
        reveal_strlit("");
        assert(passphrase@ =~= Seq::<char>::empty());
    }
    let seed = match mnemonic_parse(seed_phrase, passphrase) {
        Ok((_, s)) => s,
        Err(_) => {
            return Err("Failed to parse seed phrase.".to_owned());
        },
    };
    if seed.len() < 32 {
        return Err("Failed to derive secret key from seed.".to_owned());
    }
    let mut secret: [u8; 32] = [0u8; 32];
    let mut i: usize = 0;
    while i < 32
        invariant
            i <= 32,
            seed@.len() == 64,
            forall|j: int| 0 <= j < i ==> secret@[j] == seed@[j],
        decreases 32 - i,
    {
        secret[i] = seed[i];
        i = i + 1;
    }
    assert(secret@ =~= secret_of(seed_phrase@));
    let (signing_bytes, verifying_bytes) = ed25519_key_bytes(&secret);
    let public_key_hex = hex_encode(verifying_bytes.as_slice());
    let private_key_hex = hex_encode(signing_bytes.as_slice());
    proof {
        lemma_hex_lower_shape(verifying_bytes@);
        lemma_hex_lower_shape(signing_bytes@);
    }
    let user_id = account_id(&public_key_hex);
    proof {
        reveal_strlit("zd1");
        let u = user_id@;
        assert(u.take(3) =~= "zd1"@);
        assert forall|i: int| 3 <= i < 35 implies is_hex_digit(#[trigger] u[i]) by {
            assert(u[i] == public_key_hex@[i - 3]);
        }
    }
    Ok(
        IdentityKeys {
            user_id,
            display_name: trimmed(display_name.as_str()),
            seed_phrase: seed_phrase.to_owned(),
            public_key_hex,
            private_key_hex,
        },
    )
}

/// Generates a fresh 24-word English seed phrase and derives its account.
/// The phrase is random; what holds of every outcome is stated: the result
/// is the account that `derive_identity_from_seed` gives for that phrase,
/// the phrase has 24 words, and it is one that restoring accepts as it
/// stands.
pub fn generate_new_identity(display_name: String) -> (res: Result<IdentityKeys, String>)
    ensures
        res matches Ok(k) ==> {
            &&& word_count_of(k.seed_phrase@) == 24
            &&& bip39_accepts(k.seed_phrase@)
            &&& bip39_display(k.seed_phrase@) == k.seed_phrase@
            &&& trim(k.seed_phrase@) == k.seed_phrase@
            &&& k@ == keys_from_phrase(display_name@, k.seed_phrase@)
            &&& is_account_id(k.user_id@)
        },
        res is Ok,
{
    let phrase = match mnemonic_generate(24) {
        Ok(p) => p,
        Err(e) => {
            let mut msg = "Failed to generate 24-word seed phrase: ".to_owned();
            let detail = bip39_error_text(&e);
            msg.append(detail.as_str());
            return Err(msg);
        },
    };
    derive_identity_from_seed(display_name, phrase.as_str())
}

/// Restores an account from its seed phrase. The phrase is trimmed and must
/// be a BIP-39 mnemonic; a non-blank `user_id` must equal the derived account
/// ID. The stored phrase is the mnemonic's own rendering of it.
pub fn restore_identity(display_name: String, user_id: String, seed_phrase: String) -> (res: Result<IdentityKeys, String>)
    ensures
        match restore_spec(display_name@, user_id@, seed_phrase@) {
            Ok(v) => res matches Ok(k) && k@ == v,
            Err(e) => res matches Err(m) && m@ == e,
        },
{
    let clean_phrase = trimmed(seed_phrase.as_str());
    let normalized = match mnemonic_parse(clean_phrase.as_str(), "") {
        Ok((t, _)) => t,
        Err(_) => {
            return Err("Invalid BIP-39 seed phrase. Please check your 24 words.".to_owned());
        },
    };
    let derived = match derive_identity_from_seed(display_name, normalized.as_str()) {
        Ok(k) => k,
        Err(e) => {
            return Err(e);
        },
    };
    let clean_user_id = trimmed(user_id.as_str());
    if !clean_user_id.as_str().is_empty() && clean_user_id != derived.user_id {
        return Err("Account ID does not match the key derived from this seed phrase.".to_owned());
    }
    Ok(derived)
}

/// The stored form of an account: everything but the private key.
pub open spec fn identity_data_of(k: IdentityKeysV) -> IdentityDataV {
    IdentityDataV {
        display_name: k.display_name,
        user_id: k.user_id,
        seed_phrase: k.seed_phrase,
        public_key_hex: k.public_key_hex,
    }
}

impl From<IdentityKeys> for IdentityData {
    fn from(id: IdentityKeys) -> (res: IdentityData) {
        IdentityData {
            display_name: id.display_name,
            user_id: id.user_id,
            seed_phrase: id.seed_phrase,
            public_key_hex: id.public_key_hex,
        }
    }
}

impl vstd::std_specs::convert::FromSpecImpl<IdentityKeys> for IdentityData {
    open spec fn obeys_from_spec() -> bool {
        true
    }

    open spec fn from_spec(id: IdentityKeys) -> IdentityData {
        IdentityData {
            display_name: id.display_name,
            user_id: id.user_id,
            seed_phrase: id.seed_phrase,
            public_key_hex: id.public_key_hex,
        }
    }
}

} // verus!
