//! What every signer offers: the clause that authorizes a commitment hash, and
//! a signature on a spend.

use crate::request::{outcome, SpendRequest, SpendRequestView};
use vstd::prelude::*;

verus! {

/// Why a signer could not answer.
#[derive(Clone, Copy, Debug, PartialEq, Eq, Structural)]
pub enum EmulatorError {
    /// The connection could not be opened or broke, or a frame was malformed
    /// or too long. The connection is given up; the next call opens a new one.
    Transport,
    /// The peer's answer could not be understood.
    Protocol,
    /// The bytes of the transaction are not a transaction.
    MalformedTransaction,
    /// The master key is unusable, the derivation rejected the path, or the
    /// key that came out of it cannot sign.
    KeyDerivation,
    /// Input 0 does not exist or carries no witness script.
    MissingWitnessScript,
    /// Input 0 carries no funding amount.
    MissingFundingAmount,
    /// The message to sign could not be built.
    MessageConstruction,
    /// The signed request that came back does not fit the request that was
    /// sent.
    Merge,
}

/// A fragment of a spending policy.
#[derive(Debug, PartialEq, Eq)]
pub enum Clause {
    /// Satisfied by a signature of this public key (33 bytes, compressed).
    Key(Vec<u8>),
    /// Satisfied when at least the given number of the sub-clauses are.
    Threshold(usize, Vec<Clause>),
}

/// A clause as a mathematical value.
pub enum ClauseView {
    /// The public key that must sign.
    Key(Seq<u8>),
    /// How many of the sub-clauses must be satisfied, and the sub-clauses.
    Threshold(nat, Seq<ClauseView>),
}

/// The mathematical value of a clause.
pub open spec fn clause_view(c: Clause) -> ClauseView
    decreases c,
{
    match c {
        Clause::Key(k) => ClauseView::Key(k@),
        Clause::Threshold(n, subs) => ClauseView::Threshold(
            n as nat,
            Seq::new(
                subs@.len(),
                |i: int|
                    if 0 <= i < subs@.len() {
                        clause_view(subs@[i])
                    } else {
                        ClauseView::Key(Seq::empty())
                    },
            ),
        ),
    }
}

impl View for Clause {
    type V = ClauseView;

    open spec fn view(&self) -> ClauseView {
        clause_view(*self)
    }
}

/// The view of a list of clauses, element by element.
pub open spec fn clause_views(cs: Seq<Clause>) -> Seq<ClauseView> {
    Seq::new(cs.len(), |i: int| cs[i]@)
}

/// The view of a threshold clause is the threshold over the views of its
/// sub-clauses.
pub proof fn lemma_threshold_view(n: usize, subs: Vec<Clause>)
    ensures
        Clause::Threshold(n, subs)@ == ClauseView::Threshold(n as nat, clause_views(subs@)),
{
    assert(Clause::Threshold(n, subs)@->Threshold_1 =~= clause_views(subs@));
}

/// The answer of a signer, as a mathematical value.
pub open spec fn clause_answer(r: Result<Clause, EmulatorError>) -> Result<
    ClauseView,
    EmulatorError,
> {
    match r {
        Ok(c) => Ok(c@),
        Err(e) => Err(e),
    }
}

/// A signer: a single oracle, a federation of signers, or whatever else can
/// answer the two questions.
///
/// A signer may say what its answers can be, by the two relations: its methods
/// then keep to them. A signer that says nothing promises nothing.
pub trait CTVEmulator {
    /// Whether `r` can be this signer's answer to `get_signer_for` on `h`.
    open spec fn may_answer(&self, h: Seq<u8>, r: Result<ClauseView, EmulatorError>) -> bool {
        true
    }

    /// Whether `r` can be this signer's answer to `sign` on `b`.
    open spec fn may_sign(
        &self,
        b: SpendRequestView,
        r: Result<SpendRequestView, EmulatorError>,
    ) -> bool {
        true
    }

    /// The clause that this signer will satisfy for spends that commit to `h`.
    fn get_signer_for(&self, h: &[u8; 32]) -> (r: Result<Clause, EmulatorError>)
        ensures
            self.may_answer(h@, clause_answer(r)),
    ;

    /// Adds this signer's signature to the request.
    fn sign(&self, b: SpendRequest) -> (r: Result<SpendRequest, EmulatorError>)
        ensures
            self.may_sign(b@, outcome(r)),
    ;
}

} // verus!
