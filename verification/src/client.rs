//! The client of one oracle. It holds the oracle's master public key, so it can
//! tell which key will sign for a commitment hash without asking, and it
//! decides what a call of `sign` does next: the transport itself is the
//! caller's, who opens it, sends and receives, and reports what happened.

use crate::bytes::to_vec;
use crate::codec::{hash_to_child_vec, path_of};
use crate::emulator::{Clause, EmulatorError};
use crate::msgs::{Response, ResponseView};
use crate::oracle::{lemma_merge_signed, signed, MAX_ROOT_DEPTH};
use crate::primitives::{child_public, derive_pub};
use crate::request::{SpendRequest, SpendRequestView};
use vstd::prelude::*;

verus! {

/// The client's side of the connection to one oracle.
pub struct HDOracleEmulatorConnection {
    root: [u8; 78],
    connected: bool,
}

/// The public key of the child that an oracle with the master public key
/// `root` signs with for the commitment hash `h`.
pub open spec fn public_key_for(root: Seq<u8>, h: Seq<u8>) -> Option<Seq<u8>> {
    if root[4] <= MAX_ROOT_DEPTH {
        child_public(root, path_of(h))
    } else {
        None
    }
}

/// Where a call of `sign` stands, and what its caller has to do next.
#[derive(Debug)]
pub enum SignCall {
    /// Open a transport to the oracle, then report `Connected` or a failure.
    Connect(SpendRequest),
    /// Send the request to sign this spend and read one response, then report
    /// `Answered` or a failure.
    Exchange(SpendRequest),
    /// The call is over, with this result.
    Done(Result<SpendRequest, EmulatorError>),
}

/// What the caller reports after it did what a `SignCall` asked for.
#[derive(Debug)]
pub enum SignEvent {
    /// The transport is open.
    Connected,
    /// The oracle sent this response.
    Answered(Response),
    /// The transport could not be opened or broke, or a frame was refused.
    TransportFailed,
    /// What the oracle sent could not be read as a response.
    ProtocolFailed,
}

/// A call of `sign` as a mathematical value.
pub enum SignCallView {
    Connect(SpendRequestView),
    Exchange(SpendRequestView),
    Done(Result<SpendRequestView, EmulatorError>),
}

/// An event as a mathematical value.
pub enum SignEventView {
    Connected,
    Answered(ResponseView),
    TransportFailed,
    ProtocolFailed,
}

impl View for SignCall {
    type V = SignCallView;

    open spec fn view(&self) -> SignCallView {
        match self {
            SignCall::Connect(b) => SignCallView::Connect(b@),
            SignCall::Exchange(b) => SignCallView::Exchange(b@),
            SignCall::Done(Ok(b)) => SignCallView::Done(Ok(b@)),
            SignCall::Done(Err(e)) => SignCallView::Done(Err(*e)),
        }
    }
}

impl View for SignEvent {
    type V = SignEventView;

    open spec fn view(&self) -> SignEventView {
        match self {
            SignEvent::Connected => SignEventView::Connected,
            SignEvent::Answered(a) => SignEventView::Answered(a@),
            SignEvent::TransportFailed => SignEventView::TransportFailed,
            SignEvent::ProtocolFailed => SignEventView::ProtocolFailed,
        }
    }
}

/// How a call of `sign` begins: with the exchange where a connection is open,
/// else with one attempt to connect.
pub open spec fn sign_start(connected: bool, b: SpendRequestView) -> SignCallView {
    if connected {
        SignCallView::Exchange(b)
    } else {
        SignCallView::Connect(b)
    }
}

/// How a call of `sign` goes on after an event: whether a connection is open
/// afterwards, and where the call then stands.
///
/// A failure ends the call and gives the connection up, as does an event that
/// the call did not ask for. The signed spend that comes back is merged into
/// the caller's; if it does not fit, the call fails and the connection stays.
pub open spec fn sign_next(connected: bool, call: SignCallView, event: SignEventView) -> (
    bool,
    SignCallView,
) {
    match call {
        SignCallView::Done(r) => (connected, SignCallView::Done(r)),
        SignCallView::Connect(b) => match event {
            SignEventView::Connected => (true, SignCallView::Exchange(b)),
            SignEventView::TransportFailed => (
                false,
                SignCallView::Done(Err(EmulatorError::Transport)),
            ),
            _ => (false, SignCallView::Done(Err(EmulatorError::Protocol))),
        },
        SignCallView::Exchange(b) => match event {
            SignEventView::Answered(ResponseView::PSBT(s)) => if b.fits(s) {
                (connected, SignCallView::Done(Ok(b.merged(s))))
            } else {
                (connected, SignCallView::Done(Err(EmulatorError::Merge)))
            },
            SignEventView::TransportFailed => (
                false,
                SignCallView::Done(Err(EmulatorError::Transport)),
            ),
            _ => (false, SignCallView::Done(Err(EmulatorError::Protocol))),
        },
    }
}

/// A call asks to connect at its beginning or never: one call makes at most
/// one attempt to connect.
pub proof fn lemma_one_connection_attempt(
    connected: bool,
    call: SignCallView,
    event: SignEventView,
)
    ensures
        !(sign_next(connected, call, event).1 is Connect),
{
}

/// A failure ends the call with an error and gives the connection up, so that
/// the next call begins by connecting anew.
pub proof fn lemma_failure_gives_connection_up(
    connected: bool,
    call: SignCallView,
    event: SignEventView,
    later: SpendRequestView,
)
    requires
        !(call is Done),
        event is TransportFailed || event is ProtocolFailed,
    ensures
        sign_next(connected, call, event).1 is Done,
        sign_next(connected, call, event).1->Done_0 is Err,
        !sign_next(connected, call, event).0,
        sign_start(sign_next(connected, call, event).0, later) == SignCallView::Connect(later),
{
}

/// A call that finds no connection open connects, exchanges, and returns the
/// caller's spend merged with the oracle's answer, with nothing asked of the
/// caller but the two steps; the connection stays open for the next call.
pub proof fn lemma_reconnect(b: SpendRequestView, s: SpendRequestView)
    requires
        b.fits(s),
    ensures
        sign_start(false, b) == SignCallView::Connect(b),
        sign_next(false, SignCallView::Connect(b), SignEventView::Connected) == (
            true,
            SignCallView::Exchange(b),
        ),
        sign_next(
            true,
            SignCallView::Exchange(b),
            SignEventView::Answered(ResponseView::PSBT(s)),
        ) == (true, SignCallView::Done(Ok(b.merged(s)))),
{
}

/// Where the oracle answers a request with what `signed` says, a call that
/// meets no failure returns exactly the oracle's signed spend.
pub proof fn lemma_sign_returns_the_oracle_answer(oracle_root: Seq<u8>, b: SpendRequestView)
    requires
        signed(oracle_root, b) is Ok,
    ensures
        sign_next(
            true,
            SignCallView::Exchange(b),
            SignEventView::Answered(ResponseView::PSBT(signed(oracle_root, b)->Ok_0)),
        ) == (true, SignCallView::Done(signed(oracle_root, b))),
{
    lemma_merge_signed(oracle_root, b);
}

impl HDOracleEmulatorConnection {
    /// The 78-byte encoding of the oracle's master public key.
    pub closed spec fn root(&self) -> Seq<u8> {
        self.root@
    }

    /// Whether a connection to the oracle is open.
    pub closed spec fn connected(&self) -> bool {
        self.connected
    }

    /// A client of the oracle with the master public key `root`, not yet
    /// connected.
    pub fn new(root: [u8; 78]) -> (r: Self)
        ensures
            r.root() == root@,
            !r.connected(),
    {
        HDOracleEmulatorConnection { root, connected: false }
    }

    /// The public key that the oracle signs with for the commitment hash `h`.
    pub fn derive(&self, h: &[u8; 32]) -> (r: Result<[u8; 33], EmulatorError>)
        ensures
            match r {
                Ok(k) => public_key_for(self.root(), h@) == Some(k@),
                Err(e) => e == EmulatorError::KeyDerivation && public_key_for(self.root(), h@)
                    is None,
            },
    {
        if self.root[4] > MAX_ROOT_DEPTH {
            return Err(EmulatorError::KeyDerivation);
        }
        let c = hash_to_child_vec(h);
        match derive_pub(&self.root, &c) {
            Ok(k) => Ok(k),
            Err(_) => Err(EmulatorError::KeyDerivation),
        }
    }

    /// The clause that the oracle will satisfy for spends that commit to `h`:
    /// the key it signs them with. Nothing is sent.
    pub fn get_signer_for(&self, h: &[u8; 32]) -> (r: Result<Clause, EmulatorError>)
        ensures
            match r {
                Ok(c) => public_key_for(self.root(), h@) == Some(c@->Key_0) && c@ is Key,
                Err(e) => e == EmulatorError::KeyDerivation && public_key_for(self.root(), h@)
                    is None,
            },
    {
        match self.derive(h) {
            Ok(k) => Ok(Clause::Key(to_vec(&k))),
            Err(e) => Err(e),
        }
    }

    /// Begins a call of `sign` on the spend `b`.
    pub fn start_sign(&self, b: SpendRequest) -> (call: SignCall)
        ensures
            call@ == sign_start(self.connected(), b@),
    {
        if self.connected {
            SignCall::Exchange(b)
        } else {
            SignCall::Connect(b)
        }
    }

    /// Goes on with a call of `sign` after the caller did what `call` asked
    /// for and `event` happened.
    pub fn next_sign(&mut self, call: SignCall, event: SignEvent) -> (next: SignCall)
        ensures
            (final(self).connected(), next@) == sign_next(old(self).connected(), call@, event@),
            final(self).root() == old(self).root(),
    {
        match call {
            SignCall::Done(r) => SignCall::Done(r),
            SignCall::Connect(b) => match event {
                SignEvent::Connected => {
                    self.connected = true;
                    SignCall::Exchange(b)
                },
                SignEvent::TransportFailed => {
                    self.connected = false;
                    SignCall::Done(Err(EmulatorError::Transport))
                },
                _ => {
                    self.connected = false;
                    SignCall::Done(Err(EmulatorError::Protocol))
                },
            },
            SignCall::Exchange(b) => match event {
                SignEvent::Answered(Response::PSBT(s)) => {
                    let mut b = b;
                    match b.merge(s) {
                        Ok(_) => SignCall::Done(Ok(b)),
                        Err(e) => SignCall::Done(Err(e)),
                    }
                },
                SignEvent::TransportFailed => {
                    self.connected = false;
                    SignCall::Done(Err(EmulatorError::Transport))
                },
                _ => {
                    self.connected = false;
                    SignCall::Done(Err(EmulatorError::Protocol))
                },
            },
        }
    }
}

} // verus!
