//! The payer wallet: where its key comes from, deriving the key from a
//! BIP39 seed phrase, and when its balance counts as low.

use vstd::prelude::*;
use vstd::slice::slice_subrange;
use vstd::string::StringExecFns;
use solana_sdk::signature::{Keypair, SeedDerivable};

verus! {

#[verifier::external_type_specification]
#[verifier::external_body]
pub struct ExMnemonic(bip39::Mnemonic);

#[verifier::external_type_specification]
#[verifier::external_body]
pub struct ExKeypair(solana_sdk::signature::Keypair);

/// Lamports in one SOL.
pub const LAMPORTS_PER_SOL: u64 = 1_000_000_000;

/// Below this balance (0.1 SOL) the payer wallet needs a refill.
pub const LOW_BALANCE_THRESHOLD_LAMPORTS: u64 = 100_000_000;

/// Where the payer key is configured.
#[derive(Debug, Clone)]
pub enum PayerKeySource {
    /// A BIP39 mnemonic; the key is derived from the first half of its seed.
    SeedPhrase(String),
    /// A base58-encoded 64-byte keypair.
    PrivateKey(String),
}

/// Why no payer key could be obtained.
#[derive(Debug, Clone)]
pub enum PayerKeyError {
    /// Neither a seed phrase nor a private key is configured.
    NotConfigured,
    /// The seed phrase is not a valid BIP39 mnemonic; the text describes why.
    InvalidSeedPhrase(String),
    /// No keypair could be made from the seed; the text describes why.
    KeypairFromSeed(String),
    /// The private key is not a base58-encoded 64-byte keypair; the text
    /// describes why.
    InvalidPrivateKey(String),
}

/// Chooses the payer key's source: a seed phrase wins over a private key;
/// with neither, there is no key.
pub fn payer_key_source(seed_phrase: Option<String>, private_key: Option<String>) -> (r: Result<PayerKeySource, PayerKeyError>)
    ensures
        match seed_phrase {
            Some(p) => r matches Ok(PayerKeySource::SeedPhrase(q)) && q@ == p@,
            None => match private_key {
                Some(k) => r matches Ok(PayerKeySource::PrivateKey(q)) && q@ == k@,
                None => r matches Err(PayerKeyError::NotConfigured),
            },
        },
{
    match seed_phrase {
        Some(p) => Ok(PayerKeySource::SeedPhrase(p)),
        None => match private_key {
            Some(k) => Ok(PayerKeySource::PrivateKey(k)),
            None => Err(PayerKeyError::NotConfigured),
        },
    }
}

/// What `bip39::Mnemonic::parse` makes of `phrase`: the mnemonic, or the
/// debug text of the error it reports.
pub uninterp spec fn bip39_parse(phrase: Seq<char>) -> Result<bip39::Mnemonic, Seq<char>>;

/// Calls `bip39::Mnemonic::parse` on `phrase`; an error is turned into its
/// debug text. The result is named (`bip39_parse`); the BIP39 word-list
/// and checksum rules are not restated.
#[verifier::external_body]
fn parse_mnemonic(phrase: &str) -> (res: Result<bip39::Mnemonic, String>)
    ensures
        match res {
            Ok(mn) => bip39_parse(phrase@) == Ok::<bip39::Mnemonic, Seq<char>>(mn),
            Err(m) => bip39_parse(phrase@) == Err::<bip39::Mnemonic, Seq<char>>(m@),
        },
{
    match bip39::Mnemonic::parse(phrase) {
        Ok(m) => Ok(m),
        Err(e) => Err(format!("{:?}", e)),
    }
}

/// The seed `bip39::Mnemonic::to_seed` computes from `mnemonic` and
/// `passphrase`.
pub uninterp spec fn bip39_seed(mnemonic: bip39::Mnemonic, passphrase: Seq<char>) -> Seq<u8>;

/// Calls `bip39::Mnemonic::to_seed`, which returns the 64-byte PBKDF2 seed of
/// the mnemonic and `passphrase`. The seed is named (`bip39_seed`); PBKDF2 is
/// not restated.
#[verifier::external_body]
fn mnemonic_seed(mnemonic: &bip39::Mnemonic, passphrase: &str) -> (seed: Vec<u8>)
    ensures
        seed@ == bip39_seed(*mnemonic, passphrase@),
        seed@.len() == 64,
{
    mnemonic.to_seed(passphrase).to_vec()
}

/// What `SeedDerivable::from_seed` for `Keypair` makes of `seed`: the
/// keypair, or the display text of its error.
pub uninterp spec fn seed_keypair(seed: Seq<u8>) -> Result<Keypair, Seq<char>>;

/// Calls `SeedDerivable::from_seed` for `Keypair`, which fails exactly when
/// the seed is shorter than 32 bytes (the error is turned into its display
/// text). The result is named (`seed_keypair`); the ed25519 key derivation
/// is not restated.
#[verifier::external_body]
fn keypair_from_seed(seed: &[u8]) -> (res: Result<Keypair, String>)
    ensures
        res is Ok <==> seed@.len() >= 32,
        match res {
            Ok(k) => seed_keypair(seed@) == Ok::<Keypair, Seq<char>>(k),
            Err(m) => seed_keypair(seed@) == Err::<Keypair, Seq<char>>(m@),
        },
{
    match <Keypair as SeedDerivable>::from_seed(seed) {
        Ok(k) => Ok(k),
        Err(e) => Err(e.to_string()),
    }
}

/// The keypair a valid seed phrase yields: from the first 32 bytes of the
/// BIP39 seed of the mnemonic with an empty passphrase.
pub open spec fn seed_phrase_keypair(mnemonic: bip39::Mnemonic) -> Result<Keypair, Seq<char>> {
    seed_keypair(bip39_seed(mnemonic, Seq::empty()).subrange(0, 32))
}

/// Derives the payer keypair from a BIP39 seed phrase (empty passphrase,
/// first 32 bytes of the seed). It fails exactly when the phrase is not a
/// valid mnemonic.
pub fn keypair_from_seed_phrase(phrase: &str) -> (r: Result<Keypair, PayerKeyError>)
    ensures
        match bip39_parse(phrase@) {
            Ok(mn) => r matches Ok(k) && seed_phrase_keypair(mn) == Ok::<Keypair, Seq<char>>(k),
            Err(m) => r matches Err(PayerKeyError::InvalidSeedPhrase(t)) && t@ == m,
        },
{
    let mnemonic = match parse_mnemonic(phrase) {
        Ok(m) => m,
        Err(m) => {
            return Err(PayerKeyError::InvalidSeedPhrase(m));
        },
    };
    proof {
        reveal_strlit("");
    }
    assert(""@ =~= Seq::<char>::empty());
    let seed = mnemonic_seed(&mnemonic, "");
    let half = slice_subrange(seed.as_slice(), 0, 32);
    match keypair_from_seed(half) {
        Ok(k) => Ok(k),
        Err(m) => Err(PayerKeyError::KeypairFromSeed(m)),
    }
}

/// What decoding `text` as base58 into a 64-byte buffer with
/// `solana_sdk::bs58` gives: the decoded bytes, or the display text of the
/// error (an invalid character, or more than 64 bytes).
pub uninterp spec fn base58_decoded_64(text: Seq<char>) -> Result<Seq<u8>, Seq<char>>;

/// Calls `bs58::decode(text).onto(..)` (as re-exported by `solana_sdk`) with a
/// 64-byte buffer and hands back the bytes written; an error is turned into
/// its display text. The result is named (`base58_decoded_64`); the base58
/// alphabet is not restated.
#[verifier::external_body]
fn decode_base58_64(text: &str) -> (res: Result<Vec<u8>, String>)
    ensures
        match res {
            Ok(b) => base58_decoded_64(text@) == Ok::<Seq<u8>, Seq<char>>(b@),
            Err(m) => base58_decoded_64(text@) == Err::<Seq<u8>, Seq<char>>(m@),
        },
{
    let mut buf = [0u8; 64];
    match solana_sdk::bs58::decode(text).onto(&mut buf[..]) {
        Ok(n) => Ok(buf[..n].to_vec()),
        Err(e) => Err(e.to_string()),
    }
}

/// What `Keypair::try_from(&[u8])` makes of `bytes`: the keypair, or the
/// display text of its error.
pub uninterp spec fn bytes_keypair(bytes: Seq<u8>) -> Result<Keypair, Seq<char>>;

/// Calls `Keypair::try_from(&[u8])`, which fails on fewer than 64 bytes and
/// when the public half does not belong to the secret half (the error is
/// turned into its display text). The result is named (`bytes_keypair`).
#[verifier::external_body]
fn keypair_from_bytes(bytes: &[u8]) -> (res: Result<Keypair, String>)
    ensures
        bytes@.len() < 64 ==> res is Err,
        match res {
            Ok(k) => bytes_keypair(bytes@) == Ok::<Keypair, Seq<char>>(k),
            Err(m) => bytes_keypair(bytes@) == Err::<Keypair, Seq<char>>(m@),
        },
{
    match Keypair::try_from(bytes) {
        Ok(k) => Ok(k),
        Err(e) => Err(e.to_string()),
    }
}

/// Reads the payer keypair from a base58-encoded 64-byte keypair: the text
/// must decode to exactly 64 bytes whose public half matches the secret
/// half.
pub fn keypair_from_private_key(text: &str) -> (r: Result<Keypair, PayerKeyError>)
    ensures
        match base58_decoded_64(text@) {
            Ok(b) => if b.len() == 64 {
                match bytes_keypair(b) {
                    Ok(k) => r matches Ok(kp) && kp == k,
                    Err(m) => r matches Err(PayerKeyError::InvalidPrivateKey(t)) && t@ == m,
                }
            } else {
                r matches Err(PayerKeyError::InvalidPrivateKey(t)) && t@ == "keypair must be 64 bytes"@
            },
            Err(m) => r matches Err(PayerKeyError::InvalidPrivateKey(t)) && t@ == m,
        },
{
    let bytes = match decode_base58_64(text) {
        Ok(b) => b,
        Err(m) => {
            return Err(PayerKeyError::InvalidPrivateKey(m));
        },
    };
    if bytes.len() != 64 {
        return Err(PayerKeyError::InvalidPrivateKey(String::from_str("keypair must be 64 bytes")));
    }
    match keypair_from_bytes(bytes.as_slice()) {
        Ok(k) => Ok(k),
        Err(m) => Err(PayerKeyError::InvalidPrivateKey(m)),
    }
}

/// Whether a balance of `lamports` is below the refill threshold of 0.1 SOL.
pub fn is_low_balance(lamports: u64) -> (low: bool)
    ensures
        low == (lamports < LOW_BALANCE_THRESHOLD_LAMPORTS),
{
    lamports < LOW_BALANCE_THRESHOLD_LAMPORTS
}

} // verus!
