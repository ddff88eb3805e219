//! The signing oracle: the holder of the master private key.

use crate::bytes::{append, to_vec};
use crate::codec::{hash_to_child_vec, path_of};
use crate::emulator::EmulatorError;
use crate::msgs::{KeyConfirmed, Request, RequestView, Response, ResponseView};
use crate::primitives::{
    child_secret, commitment_hash, ctv_hash, derive_priv, ecdsa_sign, ecdsa_signature,
    fresh_entropy, public_key, public_key_of, segwit_sighash, sha256, sha256_digest,
    witness_sighash,
};
use crate::request::{
    lemma_merge_with_signed, lemma_with_sig_twice, outcome, SpendRequest, SpendRequestView,
};
use vstd::prelude::*;

verus! {

/// The greatest depth of a master key from which a path of nine indices can
/// still be walked: a key's depth is one byte.
pub const MAX_ROOT_DEPTH: u8 = 246;

/// The byte that follows a signature made with the hash type ALL.
pub const SIGHASH_ALL: u8 = 0x01;

/// An oracle that signs with the children of one master key.
#[derive(Clone, Copy)]
pub struct HDOracleEmulator {
    root: [u8; 78],
}

/// The secret key that an oracle with the master key `root` holds for the
/// commitment hash `h`.
pub open spec fn key_for(root: Seq<u8>, h: Seq<u8>) -> Option<Seq<u8>> {
    if root[4] <= MAX_ROOT_DEPTH {
        child_secret(root, path_of(h))
    } else {
        None
    }
}

/// The secret key that an oracle with the master key `root` signs the
/// transaction `tx` with: the key for the commitment hash of `tx` at input 0.
pub open spec fn signing_key(root: Seq<u8>, tx: Seq<u8>) -> Result<Seq<u8>, EmulatorError> {
    match commitment_hash(tx, 0) {
        None => Err(EmulatorError::MalformedTransaction),
        Some(h) => match key_for(root, h) {
            None => Err(EmulatorError::KeyDerivation),
            Some(secret) => Ok(secret),
        },
    }
}

/// The message that a signature on input 0 of `b` commits to: the
/// transaction of `b`, the witness script of the input and its funding amount.
pub open spec fn signing_message(b: SpendRequestView) -> Result<Seq<u8>, EmulatorError> {
    if b.inputs.len() == 0 || b.inputs[0].witness_script is None {
        Err(EmulatorError::MissingWitnessScript)
    } else if b.inputs[0].witness_value is None {
        Err(EmulatorError::MissingFundingAmount)
    } else {
        match witness_sighash(
            b.tx,
            0,
            b.inputs[0].witness_script->Some_0,
            b.inputs[0].witness_value->Some_0,
        ) {
            None => Err(EmulatorError::MessageConstruction),
            Some(msg) => Ok(msg),
        }
    }
}

/// What an oracle with the master key `root` answers to a request to sign
/// `b`: the spend with one signature more on input 0, under the public key of
/// the signing key. The key is found from the transaction of `b` and from
/// nothing else, and the signature commits to that transaction.
pub open spec fn signed(root: Seq<u8>, b: SpendRequestView) -> Result<
    SpendRequestView,
    EmulatorError,
> {
    match signing_key(root, b.tx) {
        Err(e) => Err(e),
        Ok(secret) => match signing_message(b) {
            Err(e) => Err(e),
            Ok(msg) => match (ecdsa_signature(msg, secret), public_key_of(secret)) {
                (Some(sig), Some(key)) => Ok(b.with_sig(0, key, sig.push(SIGHASH_ALL))),
                _ => Err(EmulatorError::KeyDerivation),
            },
        },
    }
}

/// The public key and the signature that a signed spend has more than the
/// spend that was sent.
pub open spec fn added_signature(root: Seq<u8>, b: SpendRequestView) -> (Seq<u8>, Seq<u8>) {
    let secret = signing_key(root, b.tx)->Ok_0;
    let msg = signing_message(b)->Ok_0;
    (public_key_of(secret)->Some_0, ecdsa_signature(msg, secret)->Some_0.push(SIGHASH_ALL))
}

/// The proof of possession that an oracle with the master key `root` gives
/// for the caller's `nonce`, when the randomness it drew is `entropy`: the
/// challenge hash is the digest of the entropy, and the master key signs the
/// digest of the challenge hash followed by the nonce.
pub open spec fn confirmed(root: Seq<u8>, entropy: Seq<u8>, nonce: Seq<u8>) -> Result<
    ResponseView,
    EmulatorError,
> {
    let challenge = sha256(entropy);
    match child_secret(root, Seq::empty()) {
        None => Err(EmulatorError::KeyDerivation),
        Some(secret) => match ecdsa_signature(sha256(challenge + nonce), secret) {
            None => Err(EmulatorError::KeyDerivation),
            Some(sig) => Ok(ResponseView::KeyConfirmed(sig, challenge)),
        },
    }
}

/// What an oracle with the master key `root` answers to a request, when the
/// randomness it drew is `entropy`.
pub open spec fn answered(root: Seq<u8>, request: RequestView, entropy: Seq<u8>) -> Result<
    ResponseView,
    EmulatorError,
> {
    match request {
        RequestView::SignPSBT(b) => match signed(root, b) {
            Ok(s) => Ok(ResponseView::PSBT(s)),
            Err(e) => Err(e),
        },
        RequestView::ConfirmKey(_, nonce) => confirmed(root, entropy, nonce),
    }
}

/// The result of handling a request, as mathematical values.
pub open spec fn answer_of(r: Result<Response, EmulatorError>) -> Result<
    ResponseView,
    EmulatorError,
> {
    match r {
        Ok(a) => Ok(a@),
        Err(e) => Err(e),
    }
}

/// A signed spend differs from the spend that was sent in one thing only: one
/// signature on input 0. The transaction, the witness data, the other inputs
/// and the signatures of other keys are as they were.
pub proof fn lemma_signed_changes_one_signature(root: Seq<u8>, b: SpendRequestView)
    requires
        signed(root, b) is Ok,
    ensures
        ({
            let s = signed(root, b)->Ok_0;
            let (key, sig) = added_signature(root, b);
            &&& s.tx == b.tx
            &&& s.inputs.len() == b.inputs.len()
            &&& forall|i: int| 1 <= i < b.inputs.len() ==> s.inputs[i] == b.inputs[i]
            &&& s.inputs[0].witness_script == b.inputs[0].witness_script
            &&& s.inputs[0].witness_value == b.inputs[0].witness_value
            &&& s.inputs[0].partial_sigs == b.inputs[0].partial_sigs.insert(key, sig)
        }),
{
}

/// Whatever randomness the oracle drew, its proof of possession is a
/// signature of the master key on the digest of the challenge hash that it
/// returns, followed by the caller's nonce.
pub proof fn lemma_confirmed_signs_challenge_and_nonce(
    root: Seq<u8>,
    entropy: Seq<u8>,
    nonce: Seq<u8>,
)
    requires
        confirmed(root, entropy, nonce) is Ok,
    ensures
        ({
            let a = confirmed(root, entropy, nonce)->Ok_0;
            &&& a is KeyConfirmed
            &&& child_secret(root, Seq::empty()) is Some
            &&& ecdsa_signature(
                sha256(a->KeyConfirmed_1 + nonce),
                child_secret(root, Seq::empty())->Some_0,
            ) == Some(a->KeyConfirmed_0)
        }),
{
}

/// Signing a signed spend again changes nothing: the same transaction gets the
/// same signature of the same key.
pub proof fn lemma_signed_twice(root: Seq<u8>, b: SpendRequestView)
    requires
        signed(root, b) is Ok,
    ensures
        signed(root, signed(root, b)->Ok_0) == signed(root, b),
{
    let (key, sig) = added_signature(root, b);
    let s = b.with_sig(0, key, sig);
    assert(signed(root, b) == Ok::<SpendRequestView, EmulatorError>(s));
    lemma_with_sig_twice(b, 0, key, sig);
    assert(signing_message(s) == signing_message(b));
    assert(signed(root, s) == Ok::<SpendRequestView, EmulatorError>(s.with_sig(0, key, sig)));
}

/// Merging the oracle's answer into the spend that was sent gives the
/// oracle's answer.
pub proof fn lemma_merge_signed(root: Seq<u8>, b: SpendRequestView)
    requires
        signed(root, b) is Ok,
    ensures
        b.fits(signed(root, b)->Ok_0),
        b.merged(signed(root, b)->Ok_0) == signed(root, b)->Ok_0,
{
    let (key, sig) = added_signature(root, b);
    assert(signed(root, b)->Ok_0 == b.with_sig(0, key, sig));
    lemma_merge_with_signed(b, 0, key, sig);
}

impl HDOracleEmulator {
    /// The 78-byte encoding of the master private key.
    pub closed spec fn root(&self) -> Seq<u8> {
        self.root@
    }

    /// An oracle for the master private key with the encoding `root`.
    pub fn new(root: [u8; 78]) -> (r: Self)
        ensures
            r.root() == root@,
    {
        HDOracleEmulator { root }
    }

    /// The secret key that this oracle holds for the commitment hash `h`.
    pub fn derive(&self, h: &[u8; 32]) -> (r: Result<[u8; 32], EmulatorError>)
        ensures
            match r {
                Ok(k) => key_for(self.root(), h@) == Some(k@),
                Err(e) => e == EmulatorError::KeyDerivation && key_for(self.root(), h@) is None,
            },
    {
        if self.root[4] > MAX_ROOT_DEPTH {
            return Err(EmulatorError::KeyDerivation);
        }
        let c = hash_to_child_vec(h);
        match derive_priv(&self.root, &c) {
            Ok(k) => Ok(k),
            Err(_) => Err(EmulatorError::KeyDerivation),
        }
    }

    /// Signs input 0 of the spend with the key that belongs to the commitment
    /// hash of its transaction, and records the signature under that key's
    /// public key.
    pub fn sign(&self, b: SpendRequest) -> (r: Result<SpendRequest, EmulatorError>)
        ensures
            outcome(r) == signed(self.root(), b@),
    {
        let mut b = b;
        let h = match ctv_hash(b.tx(), 0) {
            Some(h) => h,
            None => {
                return Err(EmulatorError::MalformedTransaction);
            },
        };
        let secret = match self.derive(&h) {
            Ok(k) => k,
            Err(e) => {
                return Err(e);
            },
        };
        if b.inputs().len() == 0 {
            return Err(EmulatorError::MissingWitnessScript);
        }
        let input = &b.inputs()[0];
        assert(input@ == b@.inputs[0]);
        let script = match input.witness_script() {
            Some(s) => s,
            None => {
                return Err(EmulatorError::MissingWitnessScript);
            },
        };
        let value = match input.witness_value() {
            Some(v) => v,
            None => {
                return Err(EmulatorError::MissingFundingAmount);
            },
        };
        let msg = match segwit_sighash(b.tx(), 0, script, value) {
            Some(m) => m,
            None => {
                return Err(EmulatorError::MessageConstruction);
            },
        };
        let compact = match ecdsa_sign(&msg, &secret) {
            Some(s) => s,
            None => {
                return Err(EmulatorError::KeyDerivation);
            },
        };
        let key = match public_key(&secret) {
            Some(k) => k,
            None => {
                return Err(EmulatorError::KeyDerivation);
            },
        };
        let mut signature = to_vec(&compact);
        signature.push(SIGHASH_ALL);
        b.insert_partial_sig(0, to_vec(&key), signature);
        Ok(b)
    }

    /// Proves possession of the master key to the caller who sent `nonce`,
    /// with `entropy` as the randomness of the challenge.
    pub fn confirm_key_with(&self, entropy: &[u8; 32], nonce: &[u8; 32]) -> (r: Result<
        Response,
        EmulatorError,
    >)
        ensures
            answer_of(r) == confirmed(self.root(), entropy@, nonce@),
    {
        let challenge = sha256_digest(&to_vec(entropy));
        let mut data = to_vec(&challenge);
        append(&mut data, nonce);
        let msg = sha256_digest(&data);
        let secret = match derive_priv(&self.root, &Vec::new()) {
            Ok(k) => k,
            Err(_) => {
                return Err(EmulatorError::KeyDerivation);
            },
        };
        match ecdsa_sign(&msg, &secret) {
            Some(sig) => Ok(Response::KeyConfirmed(KeyConfirmed(to_vec(&sig), challenge))),
            None => Err(EmulatorError::KeyDerivation),
        }
    }

    /// Proves possession of the master key to the caller who sent `nonce`,
    /// with a challenge drawn at random.
    pub fn confirm_key(&self, nonce: &[u8; 32]) -> (r: Result<Response, EmulatorError>)
        ensures
            exists|entropy: Seq<u8>|
                entropy.len() == 32 && answer_of(r) == confirmed(self.root(), entropy, nonce@),
    {
        let entropy = fresh_entropy();
        let r = self.confirm_key_with(&entropy, nonce);
        assert(entropy@.len() == 32 && answer_of(r) == confirmed(self.root(), entropy@, nonce@));
        r
    }

    /// Answers one request.
    pub fn handle(&self, request: Request) -> (r: Result<Response, EmulatorError>)
        ensures
            exists|entropy: Seq<u8>|
                entropy.len() == 32 && answer_of(r) == answered(self.root(), request@, entropy),
    {
        match request {
            Request::SignPSBT(b) => {
                let r = match self.sign(b) {
                    Ok(s) => Ok(Response::PSBT(s)),
                    Err(e) => Err(e),
                };
                proof {
                    let zeros = Seq::new(32, |i: int| 0u8);
                    assert(zeros.len() == 32 && answer_of(r) == answered(
                        self.root(),
                        request@,
                        zeros,
                    ));
                }
                r
            },
            Request::ConfirmKey(c) => {
                let r = self.confirm_key(&c.1);
                proof {
                    let entropy = choose|entropy: Seq<u8>|
                        entropy.len() == 32 && answer_of(r) == confirmed(
                            self.root(),
                            entropy,
                            c.1@,
                        );
                    assert(entropy.len() == 32 && answer_of(r) == answered(
                        self.root(),
                        request@,
                        entropy,
                    ));
                }
                r
            },
        }
    }
}

} // verus!
