use solana_sdk::signature::{Keypair, SeedDerivable, Signer};
use solver_core::payer::{
    is_low_balance, keypair_from_private_key, keypair_from_seed_phrase, payer_key_source, PayerKeyError, PayerKeySource,
    LAMPORTS_PER_SOL, LOW_BALANCE_THRESHOLD_LAMPORTS,
};

const PHRASE: &str =
    "abandon abandon abandon abandon abandon abandon abandon abandon abandon abandon abandon about";

#[test]
fn seed_phrase_wins_over_private_key() {
    match payer_key_source(Some("p".to_string()), Some("k".to_string())) {
        Ok(PayerKeySource::SeedPhrase(p)) => assert_eq!(p, "p"),
        other => panic!("{:?}", other),
    }
    match payer_key_source(None, Some("k".to_string())) {
        Ok(PayerKeySource::PrivateKey(k)) => assert_eq!(k, "k"),
        other => panic!("{:?}", other),
    }
    assert!(matches!(payer_key_source(None, None), Err(PayerKeyError::NotConfigured)));
}

#[test]
fn keypair_is_derived_from_first_half_of_the_bip39_seed() {
    let kp = keypair_from_seed_phrase(PHRASE).expect("valid mnemonic");
    let seed = bip39::Mnemonic::parse(PHRASE).unwrap().to_seed("");
    let expected = Keypair::from_seed(&seed[..32]).unwrap();
    assert_eq!(kp.pubkey(), expected.pubkey());
}

#[test]
fn invalid_seed_phrase_is_reported() {
    match keypair_from_seed_phrase("not a mnemonic at all") {
        Err(PayerKeyError::InvalidSeedPhrase(m)) => assert!(!m.is_empty()),
        other => panic!("{:?}", other.map(|k| k.pubkey())),
    }
}

#[test]
fn low_balance_threshold_is_a_tenth_of_a_sol() {
    assert_eq!(LOW_BALANCE_THRESHOLD_LAMPORTS * 10, LAMPORTS_PER_SOL);
    assert!(is_low_balance(0));
    assert!(is_low_balance(99_999_999));
    assert!(!is_low_balance(100_000_000));
    assert!(!is_low_balance(5 * LAMPORTS_PER_SOL));
}

#[test]
fn private_key_is_read_from_base58() {
    let original = Keypair::new();
    let text = original.to_base58_string();
    let kp = keypair_from_private_key(&text).expect("valid keypair text");
    assert_eq!(kp.pubkey(), original.pubkey());
    assert_eq!(kp.to_bytes(), Keypair::from_base58_string(&text).to_bytes());
}

#[test]
fn malformed_private_keys_are_refused() {
    assert!(matches!(keypair_from_private_key("0OIl"), Err(PayerKeyError::InvalidPrivateKey(_))));
    match keypair_from_private_key("2") {
        Err(PayerKeyError::InvalidPrivateKey(m)) => assert_eq!(m, "keypair must be 64 bytes"),
        other => panic!("{:?}", other.map(|k| k.pubkey())),
    }
    // A leading '1' adds a leading zero byte: 65 bytes.
    let too_long = format!("1{}", Keypair::new().to_base58_string());
    assert!(keypair_from_private_key(&too_long).is_err());
    // 64 bytes whose public half does not match the secret half.
    let mismatched = solana_sdk::signature::Signature::from([7u8; 64]).to_string();
    assert!(matches!(keypair_from_private_key(&mismatched), Err(PayerKeyError::InvalidPrivateKey(_))));
}
