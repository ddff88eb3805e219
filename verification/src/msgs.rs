//! The messages that a client and an oracle exchange. On the wire each one is
//! a JSON payload inside a frame (see `wire`).

use crate::request::{SpendRequest, SpendRequestView};
use vstd::prelude::*;

verus! {

/// Asks the oracle to prove that it is alive and holds its master key.
#[derive(Debug)]
pub struct ConfirmKey(
    /// An ephemeral public key of the caller.
    pub Vec<u8>,
    /// The caller's nonce.
    pub [u8; 32],
);

/// The oracle's proof: a signature of its master key, in compact form, on the
/// SHA-256 digest of the challenge hash followed by the caller's nonce; and
/// the challenge hash.
#[derive(Debug)]
pub struct KeyConfirmed(pub Vec<u8>, pub [u8; 32]);

/// What a client may ask.
#[derive(Debug)]
pub enum Request {
    /// Sign this spend.
    SignPSBT(SpendRequest),
    /// Prove possession of the master key.
    ConfirmKey(ConfirmKey),
}

/// What the oracle answers, in the order of the requests.
#[derive(Debug)]
pub enum Response {
    /// The spend with the oracle's signature added.
    PSBT(SpendRequest),
    /// The proof of possession.
    KeyConfirmed(KeyConfirmed),
}

/// A request as a mathematical value.
pub enum RequestView {
    SignPSBT(SpendRequestView),
    /// The ephemeral public key and the nonce.
    ConfirmKey(Seq<u8>, Seq<u8>),
}

/// A response as a mathematical value.
pub enum ResponseView {
    PSBT(SpendRequestView),
    /// The signature and the challenge hash.
    KeyConfirmed(Seq<u8>, Seq<u8>),
}

impl View for Request {
    type V = RequestView;

    open spec fn view(&self) -> RequestView {
        match self {
            Request::SignPSBT(b) => RequestView::SignPSBT(b@),
            Request::ConfirmKey(c) => RequestView::ConfirmKey(c.0@, c.1@),
        }
    }
}

impl View for Response {
    type V = ResponseView;

    open spec fn view(&self) -> ResponseView {
        match self {
            Response::PSBT(b) => ResponseView::PSBT(b@),
            Response::KeyConfirmed(k) => ResponseView::KeyConfirmed(k.0@, k.1@),
        }
    }
}

} // verus!
