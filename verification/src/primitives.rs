//! The cryptographic primitives that the emulator is built on. None of them is
//! computed here: each function of this file hands its arguments to the
//! library that implements the primitive, and its contract names the result.
//! What is proved elsewhere about keys, hashes and signatures is proved about
//! these names.

use vstd::prelude::*;

verus! {

/// The commitment hash of the transaction with the consensus encoding `tx`,
/// taken at input `input_index`; `None` where `tx` encodes no transaction.
pub uninterp spec fn commitment_hash(tx: Seq<u8>, input_index: u32) -> Option<Seq<u8>>;

/// The secret key of the child that the path leads to, from the extended
/// private key with the 78-byte encoding `root`; `None` where `root` encodes
/// no key or the derivation rejects the path.
pub uninterp spec fn child_secret(root: Seq<u8>, path: Seq<u32>) -> Option<Seq<u8>>;

/// The public key, in its 33-byte compressed form, of the child that the path
/// leads to, from the extended public key with the 78-byte encoding `root`;
/// `None` where `root` encodes no key or the derivation rejects the path.
pub uninterp spec fn child_public(root: Seq<u8>, path: Seq<u32>) -> Option<Seq<u8>>;

/// The public key of a secret key, in its 33-byte compressed form; `None`
/// where the 32 bytes are no secret key.
pub uninterp spec fn public_key_of(secret: Seq<u8>) -> Option<Seq<u8>>;

/// The message that a signature with the hash type ALL, on a witness-script
/// input, commits to: for input `input_index` of the transaction encoded by
/// `tx`, spending `value` through `script`. `None` where `tx` encodes no
/// transaction or has no such input.
pub uninterp spec fn witness_sighash(
    tx: Seq<u8>,
    input_index: u32,
    script: Seq<u8>,
    value: u64,
) -> Option<Seq<u8>>;

/// The signature of the secret key on the 32-byte message, in its 64-byte
/// compact form; `None` where the 32 bytes are no secret key.
pub uninterp spec fn ecdsa_signature(msg: Seq<u8>, secret: Seq<u8>) -> Option<Seq<u8>>;

/// The SHA-256 digest of `data`.
pub uninterp spec fn sha256(data: Seq<u8>) -> Seq<u8>;

/// Calls `CTVHash::get_ctv_hash` of sapio-base on the transaction that
/// `consensus::deserialize` of sapio-bitcoin reads from `tx`. The contract
/// gives the result its name, `commitment_hash`, and claims nothing else.
#[verifier::external_body]
pub(crate) fn ctv_hash(tx: &Vec<u8>, input_index: u32) -> (r: Option<[u8; 32]>)
    ensures
        match r {
            Some(h) => commitment_hash(tx@, input_index) == Some(h@),
            None => commitment_hash(tx@, input_index) is None,
        },
{
    let t: sapio_bitcoin::Transaction = sapio_bitcoin::consensus::deserialize(tx).ok()?;
    let h = sapio_base::CTVHash::get_ctv_hash(&t, input_index);
    Some(sapio_bitcoin::hashes::Hash::into_inner(h))
}

/// The error of the key derivation of sapio-bitcoin. Nothing is read of it.
#[verifier::external_type_specification]
#[verifier::external_body]
pub struct ExBip32Error(sapio_bitcoin::util::bip32::Error);

/// Calls `ExtendedPrivKey::derive_priv` of sapio-bitcoin on the key that
/// `ExtendedPrivKey::decode` reads from `root`, with each index turned into a
/// `ChildNumber`. The contract gives the child's secret key its name,
/// `child_secret`, which is `None` where either call fails. Each step of the
/// derivation adds one to the key's depth, which is byte 4 of the encoding and
/// must stay within a byte.
#[verifier::external_body]
pub(crate) fn derive_priv(root: &[u8; 78], path: &Vec<u32>) -> (r: Result<
    [u8; 32],
    sapio_bitcoin::util::bip32::Error,
>)
    requires
        root@[4] + path@.len() <= 255,
    ensures
        match r {
            Ok(k) => child_secret(root@, path@) == Some(k@),
            Err(_) => child_secret(root@, path@) is None,
        },
{
    let key = sapio_bitcoin::util::bip32::ExtendedPrivKey::decode(root)?;
    let path: Vec<sapio_bitcoin::util::bip32::ChildNumber> = path.iter().map(
        |i| sapio_bitcoin::util::bip32::ChildNumber::from(*i),
    ).collect();
    let secp = sapio_bitcoin::secp256k1::Secp256k1::signing_only();
    Ok(key.derive_priv(&secp, &path)?.private_key.secret_bytes())
}

/// Calls `ExtendedPubKey::derive_pub` of sapio-bitcoin on the key that
/// `ExtendedPubKey::decode` reads from `root`, with each index turned into a
/// `ChildNumber`. The contract gives the child's serialized public key its
/// name, `child_public`, which is `None` where either call fails. The depth
/// must stay within a byte, as in `derive_priv`.
#[verifier::external_body]
pub(crate) fn derive_pub(root: &[u8; 78], path: &Vec<u32>) -> (r: Result<
    [u8; 33],
    sapio_bitcoin::util::bip32::Error,
>)
    requires
        root@[4] + path@.len() <= 255,
    ensures
        match r {
            Ok(k) => child_public(root@, path@) == Some(k@),
            Err(_) => child_public(root@, path@) is None,
        },
{
    let key = sapio_bitcoin::util::bip32::ExtendedPubKey::decode(root)?;
    let path: Vec<sapio_bitcoin::util::bip32::ChildNumber> = path.iter().map(
        |i| sapio_bitcoin::util::bip32::ChildNumber::from(*i),
    ).collect();
    let secp = sapio_bitcoin::secp256k1::Secp256k1::verification_only();
    Ok(key.derive_pub(&secp, &path)?.public_key.serialize())
}

/// Calls `PublicKey::from_secret_key` of secp256k1 on the key that
/// `SecretKey::from_slice` reads from `secret`, and serializes the result. The
/// contract gives it its name, `public_key_of`.
#[verifier::external_body]
pub(crate) fn public_key(secret: &[u8; 32]) -> (r: Option<[u8; 33]>)
    ensures
        match r {
            Some(k) => public_key_of(secret@) == Some(k@),
            None => public_key_of(secret@) is None,
        },
{
    let key = sapio_bitcoin::secp256k1::SecretKey::from_slice(secret).ok()?;
    let secp = sapio_bitcoin::secp256k1::Secp256k1::signing_only();
    Some(sapio_bitcoin::secp256k1::PublicKey::from_secret_key(&secp, &key).serialize())
}

/// Calls `SighashCache::segwit_signature_hash` of sapio-bitcoin, with the hash
/// type ALL, on the transaction that `consensus::deserialize` reads from `tx`.
/// The contract gives the result its name, `witness_sighash`.
#[verifier::external_body]
pub(crate) fn segwit_sighash(tx: &Vec<u8>, input_index: u32, script: &Vec<u8>, value: u64) -> (r:
    Option<[u8; 32]>)
    ensures
        match r {
            Some(m) => witness_sighash(tx@, input_index, script@, value) == Some(m@),
            None => witness_sighash(tx@, input_index, script@, value) is None,
        },
{
    let t: sapio_bitcoin::Transaction = sapio_bitcoin::consensus::deserialize(tx).ok()?;
    let script = sapio_bitcoin::Script::from(script.clone());
    let all = sapio_bitcoin::EcdsaSighashType::All;
    let mut cache = sapio_bitcoin::util::sighash::SighashCache::new(&t);
    let m = cache.segwit_signature_hash(input_index as usize, &script, value, all).ok()?;
    Some(sapio_bitcoin::hashes::Hash::into_inner(m))
}

/// Calls `Secp256k1::sign_ecdsa` of secp256k1 with the key that
/// `SecretKey::from_slice` reads from `secret`, and serializes the signature in
/// compact form. The signature is that of RFC 6979, so the same message and
/// key give the same signature; the contract gives it its name,
/// `ecdsa_signature`.
#[verifier::external_body]
pub(crate) fn ecdsa_sign(msg: &[u8; 32], secret: &[u8; 32]) -> (r: Option<[u8; 64]>)
    ensures
        match r {
            Some(s) => ecdsa_signature(msg@, secret@) == Some(s@),
            None => ecdsa_signature(msg@, secret@) is None,
        },
{
    let key = sapio_bitcoin::secp256k1::SecretKey::from_slice(secret).ok()?;
    let m = sapio_bitcoin::secp256k1::Message::from_digest(*msg);
    let secp = sapio_bitcoin::secp256k1::Secp256k1::signing_only();
    Some(secp.sign_ecdsa(&m, &key).serialize_compact())
}

/// Calls `sha256::Hash::hash` of bitcoin_hashes. The contract gives the digest
/// its name, `sha256`.
#[verifier::external_body]
pub(crate) fn sha256_digest(data: &Vec<u8>) -> (r: [u8; 32])
    ensures
        r@ == sha256(data@),
{
    let h: sapio_bitcoin::hashes::sha256::Hash = sapio_bitcoin::hashes::Hash::hash(data);
    sapio_bitcoin::hashes::Hash::into_inner(h)
}

/// Calls `Rng::gen` of rand on the thread's generator. Nothing is known of
/// the 32 bytes that come back.
#[verifier::external_body]
pub(crate) fn fresh_entropy() -> [u8; 32] {
    rand::Rng::gen(&mut rand::thread_rng())
}

} // verus!
