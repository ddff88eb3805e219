use ctv_emulators::client::HDOracleEmulatorConnection;
use ctv_emulators::emulator::{CTVEmulator, Clause, EmulatorError};
use ctv_emulators::federation::FederatedEmulatorConnection;
use ctv_emulators::oracle::HDOracleEmulator;
use ctv_emulators::request::{SpendInput, SpendRequest};
use sapio_bitcoin::secp256k1::{ecdsa, Message, PublicKey, Secp256k1};
use sapio_bitcoin::util::bip32::{ExtendedPrivKey, ExtendedPubKey};
use sapio_bitcoin::util::sighash::SighashCache;
use sapio_bitcoin::{
    EcdsaSighashType, Network, OutPoint, Script, Transaction, TxIn, TxOut, Txid, Witness,
};
use std::cell::Cell;
use std::rc::Rc;

/// An oracle and its client in one process: what a connection would reach
/// over the network.
struct Local {
    oracle: HDOracleEmulator,
    client: HDOracleEmulatorConnection,
    calls: Rc<Cell<usize>>,
}

impl CTVEmulator for Local {
    fn get_signer_for(&self, h: &[u8; 32]) -> Result<Clause, EmulatorError> {
        self.calls.set(self.calls.get() + 1);
        self.client.get_signer_for(h)
    }

    fn sign(&self, b: SpendRequest) -> Result<SpendRequest, EmulatorError> {
        self.calls.set(self.calls.get() + 1);
        self.oracle.sign(b)
    }
}

struct Failing {
    error: EmulatorError,
    calls: Rc<Cell<usize>>,
}

impl CTVEmulator for Failing {
    fn get_signer_for(&self, _h: &[u8; 32]) -> Result<Clause, EmulatorError> {
        self.calls.set(self.calls.get() + 1);
        Err(self.error)
    }

    fn sign(&self, _b: SpendRequest) -> Result<SpendRequest, EmulatorError> {
        self.calls.set(self.calls.get() + 1);
        Err(self.error)
    }
}

fn master(seed: u8) -> ExtendedPrivKey {
    ExtendedPrivKey::new_master(Network::Bitcoin, &[seed; 32]).unwrap()
}

fn local(seed: u8, calls: &Rc<Cell<usize>>) -> Box<dyn CTVEmulator> {
    let public = ExtendedPubKey::from_priv(&Secp256k1::new(), &master(seed));
    Box::new(Local {
        oracle: HDOracleEmulator::new(master(seed).encode()),
        client: HDOracleEmulatorConnection::new(public.encode()),
        calls: calls.clone(),
    })
}

fn failing(error: EmulatorError, calls: &Rc<Cell<usize>>) -> Box<dyn CTVEmulator> {
    Box::new(Failing { error, calls: calls.clone() })
}

fn key_of(seed: u8, h: &[u8; 32]) -> Vec<u8> {
    let public = ExtendedPubKey::from_priv(&Secp256k1::new(), &master(seed));
    HDOracleEmulatorConnection::new(public.encode()).derive(h).unwrap().to_vec()
}

fn transaction() -> Transaction {
    let txid = <Txid as sapio_bitcoin::hashes::Hash>::from_inner([0x61u8; 32]);
    Transaction {
        version: 2,
        lock_time: 0,
        input: vec![TxIn {
            previous_output: OutPoint { txid, vout: 3 },
            script_sig: Script::new(),
            sequence: 0xffff_ffff,
            witness: Witness::default(),
        }],
        output: vec![TxOut { value: 50_000, script_pubkey: Script::new() }],
    }
}

fn request() -> SpendRequest {
    SpendRequest::new(
        sapio_bitcoin::consensus::serialize(&transaction()),
        vec![SpendInput::new(Some(vec![0x51u8]), Some(60_000))],
    )
}

fn commitment() -> [u8; 32] {
    let h = sapio_base::CTVHash::get_ctv_hash(&transaction(), 0);
    sapio_bitcoin::hashes::Hash::into_inner(h)
}

fn verifies(compact: &[u8], key: &[u8]) -> bool {
    let tx = transaction();
    let h = SighashCache::new(&tx)
        .segwit_signature_hash(0, &Script::from(vec![0x51u8]), 60_000, EcdsaSighashType::All)
        .unwrap();
    let msg = Message::from_digest(sapio_bitcoin::hashes::Hash::into_inner(h));
    let sig = ecdsa::Signature::from_compact(compact).unwrap();
    let pk = PublicKey::from_slice(key).unwrap();
    Secp256k1::new().verify_ecdsa(&msg, &sig, &pk).is_ok()
}

#[test]
fn two_of_three_gives_a_threshold_of_two_over_three_keys() {
    let calls = Rc::new(Cell::new(0));
    let f = FederatedEmulatorConnection::new(
        vec![local(1, &calls), local(2, &calls), local(3, &calls)],
        2,
    );
    let h = [0x44u8; 32];
    let expected = Clause::Threshold(
        2,
        vec![
            Clause::Key(key_of(1, &h)),
            Clause::Key(key_of(2, &h)),
            Clause::Key(key_of(3, &h)),
        ],
    );
    assert_eq!(f.get_signer_for(&h), Ok(expected));
    assert_eq!(calls.get(), 3);
}

#[test]
fn two_of_three_collects_three_signatures() {
    let calls = Rc::new(Cell::new(0));
    let f = FederatedEmulatorConnection::new(
        vec![local(1, &calls), local(2, &calls), local(3, &calls)],
        2,
    );
    let signed = f.sign(request()).unwrap();
    assert_eq!(calls.get(), 3);
    let sigs = signed.inputs()[0].partial_sigs();
    assert_eq!(sigs.len(), 3);
    let h = commitment();
    for (i, seed) in [1u8, 2, 3].iter().enumerate() {
        assert_eq!(sigs[i].key, key_of(*seed, &h));
        assert_eq!(sigs[i].sig.len(), 65);
        assert!(verifies(&sigs[i].sig[..64], &sigs[i].key));
    }
}

#[test]
fn a_failing_member_fails_the_clause_and_the_later_members_are_not_asked() {
    let calls = Rc::new(Cell::new(0));
    let f = FederatedEmulatorConnection::new(
        vec![local(1, &calls), failing(EmulatorError::Transport, &calls), local(3, &calls)],
        2,
    );
    assert_eq!(f.get_signer_for(&[0x44u8; 32]), Err(EmulatorError::Transport));
    assert_eq!(calls.get(), 2);
}

#[test]
fn a_failing_member_fails_the_signing_and_the_later_members_are_not_asked() {
    let calls = Rc::new(Cell::new(0));
    let f = FederatedEmulatorConnection::new(
        vec![local(1, &calls), failing(EmulatorError::Merge, &calls), local(3, &calls)],
        2,
    );
    assert_eq!(f.sign(request()).err(), Some(EmulatorError::Merge));
    assert_eq!(calls.get(), 2);
}

#[test]
fn the_first_failure_is_the_one_reported() {
    let calls = Rc::new(Cell::new(0));
    let f = FederatedEmulatorConnection::new(
        vec![
            failing(EmulatorError::Protocol, &calls),
            failing(EmulatorError::Transport, &calls),
        ],
        1,
    );
    assert_eq!(f.get_signer_for(&[0u8; 32]), Err(EmulatorError::Protocol));
    assert_eq!(f.sign(request()).err(), Some(EmulatorError::Protocol));
    assert_eq!(calls.get(), 2);
}

#[test]
fn a_federation_without_members_answers_by_itself() {
    let f = FederatedEmulatorConnection::new(Vec::new(), 0);
    assert_eq!(f.get_signer_for(&[0u8; 32]), Ok(Clause::Threshold(0, Vec::new())));
    let signed = f.sign(request()).unwrap();
    assert_eq!(signed.tx(), request().tx());
    assert!(signed.inputs()[0].partial_sigs().is_empty());
}

#[test]
fn the_threshold_is_taken_as_given() {
    let calls = Rc::new(Cell::new(0));
    let f = FederatedEmulatorConnection::new(vec![local(1, &calls)], 255);
    match f.get_signer_for(&[1u8; 32]) {
        Ok(Clause::Threshold(k, subs)) => {
            assert_eq!(k, 255);
            assert_eq!(subs.len(), 1);
        }
        other => panic!("unexpected clause: {:?}", other),
    }
}

#[test]
fn a_federation_can_be_a_member_of_a_federation() {
    let calls = Rc::new(Cell::new(0));
    let inner = FederatedEmulatorConnection::new(vec![local(2, &calls), local(3, &calls)], 1);
    let outer = FederatedEmulatorConnection::new(vec![local(1, &calls), Box::new(inner)], 2);
    let h = [0x10u8; 32];
    let expected = Clause::Threshold(
        2,
        vec![
            Clause::Key(key_of(1, &h)),
            Clause::Threshold(1, vec![Clause::Key(key_of(2, &h)), Clause::Key(key_of(3, &h))]),
        ],
    );
    assert_eq!(outer.get_signer_for(&h), Ok(expected));
    let signed = outer.sign(request()).unwrap();
    assert_eq!(signed.inputs()[0].partial_sigs().len(), 3);
}
