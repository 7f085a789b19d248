use zero_day_chat::identity::{derive_identity_from_seed, generate_new_identity, restore_identity};
use zero_day_chat::storage::IdentityData;

const ABANDON_12: &str = "abandon abandon abandon abandon abandon abandon abandon abandon abandon abandon abandon about";

fn is_lower_hex(s: &str) -> bool {
    s.chars().all(|c| c.is_ascii_digit() || ('a'..='f').contains(&c))
}

#[test]
fn derive_known_phrase_gives_seed_secret() {
    let keys = derive_identity_from_seed("  Alice  ".to_string(), ABANDON_12).unwrap();
    // BIP-39 test vector: the seed of this phrase with an empty passphrase
    // begins with these 32 bytes.
    assert_eq!(
        keys.private_key_hex,
        "5eb00bbddcf069084889a8ab9155568165f5c453ccb85e70811aaed6f6da5fc1"
    );
    assert_eq!(keys.display_name, "Alice");
    assert_eq!(keys.seed_phrase, ABANDON_12);
    assert_eq!(keys.public_key_hex.len(), 64);
    assert!(is_lower_hex(&keys.public_key_hex));
    assert_eq!(keys.user_id, format!("zd1{}", &keys.public_key_hex[..32]));
    assert_eq!(keys.user_id.len(), 35);
    assert_eq!(
        keys.public_key_hex,
        "c5785e1865b708938aff8161d573006496663b1aa10834e396dc566869a2c66a"
    );
    assert_eq!(keys.user_id, "zd1c5785e1865b708938aff8161d5730064");
}

#[test]
fn derive_is_deterministic() {
    let a = derive_identity_from_seed("A".to_string(), ABANDON_12).unwrap();
    let b = derive_identity_from_seed("B".to_string(), ABANDON_12).unwrap();
    assert_eq!(a.user_id, b.user_id);
    assert_eq!(a.public_key_hex, b.public_key_hex);
    assert_eq!(a.private_key_hex, b.private_key_hex);
}

#[test]
fn derive_rejects_bad_phrase() {
    let err = derive_identity_from_seed("A".to_string(), "not a seed phrase").unwrap_err();
    assert_eq!(err, "Failed to parse seed phrase.");
    // wrong checksum: twelve times "abandon"
    let twelve = vec!["abandon"; 12].join(" ");
    assert_eq!(
        derive_identity_from_seed("A".to_string(), &twelve).unwrap_err(),
        "Failed to parse seed phrase."
    );
}

#[test]
fn generate_gives_24_word_restorable_identity() {
    let keys = generate_new_identity(" Bob ".to_string()).unwrap();
    assert_eq!(keys.seed_phrase.split(' ').count(), 24);
    assert_eq!(keys.seed_phrase.trim(), keys.seed_phrase);
    assert_eq!(keys.display_name, "Bob");
    assert!(keys.user_id.starts_with("zd1"));
    assert_eq!(keys.user_id.len(), 35);
    let again = derive_identity_from_seed("Bob".to_string(), &keys.seed_phrase).unwrap();
    assert_eq!(again.user_id, keys.user_id);
    assert_eq!(again.private_key_hex, keys.private_key_hex);
}

#[test]
fn generated_phrases_differ() {
    let a = generate_new_identity("x".to_string()).unwrap();
    let b = generate_new_identity("x".to_string()).unwrap();
    assert_ne!(a.seed_phrase, b.seed_phrase);
}

#[test]
fn restore_round_trip_after_generate() {
    let keys = generate_new_identity("Carol".to_string()).unwrap();
    let restored = restore_identity(
        keys.display_name.clone(),
        keys.user_id.clone(),
        keys.seed_phrase.clone(),
    )
    .unwrap();
    assert_eq!(restored.user_id, keys.user_id);
    assert_eq!(restored.display_name, keys.display_name);
    assert_eq!(restored.seed_phrase, keys.seed_phrase);
    assert_eq!(restored.public_key_hex, keys.public_key_hex);
    assert_eq!(restored.private_key_hex, keys.private_key_hex);
}

#[test]
fn restore_trims_and_normalizes_phrase() {
    let messy = format!("  {}\n", ABANDON_12.replace(' ', "   "));
    let restored = restore_identity("Dan".to_string(), "  ".to_string(), messy).unwrap();
    assert_eq!(restored.seed_phrase, ABANDON_12);
    let direct = derive_identity_from_seed("Dan".to_string(), ABANDON_12).unwrap();
    assert_eq!(restored.user_id, direct.user_id);
}

#[test]
fn restore_checks_account_id() {
    let direct = derive_identity_from_seed("E".to_string(), ABANDON_12).unwrap();
    let ok = restore_identity("E".to_string(), format!(" {} ", direct.user_id), ABANDON_12.to_string());
    assert!(ok.is_ok());
    let err = restore_identity("E".to_string(), "zd1deadbeef".to_string(), ABANDON_12.to_string())
        .unwrap_err();
    assert_eq!(err, "Account ID does not match the key derived from this seed phrase.");
}

#[test]
fn restore_rejects_invalid_phrase() {
    let err = restore_identity("F".to_string(), String::new(), "hello world".to_string()).unwrap_err();
    assert_eq!(err, "Invalid BIP-39 seed phrase. Please check your 24 words.");
}

#[test]
fn identity_data_from_keys_drops_private_key() {
    let keys = derive_identity_from_seed("G".to_string(), ABANDON_12).unwrap();
    let data = IdentityData::from(keys.clone());
    assert_eq!(data.user_id, keys.user_id);
    assert_eq!(data.display_name, keys.display_name);
    assert_eq!(data.seed_phrase, keys.seed_phrase);
    assert_eq!(data.public_key_hex, keys.public_key_hex);
}
