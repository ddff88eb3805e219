//! Several signers behind one: a threshold of their clauses, and all of their
//! signatures.

use crate::emulator::{
    clause_views, lemma_threshold_view, CTVEmulator, Clause, ClauseView, EmulatorError,
};
use crate::request::{outcome, SpendRequest, SpendRequestView};
use vstd::prelude::*;

verus! {

/// A federation of signers, of which `threshold` must sign.
pub struct FederatedEmulatorConnection {
    emulators: Vec<Box<dyn CTVEmulator>>,
    threshold: u8,
}

/// Whether the first members of a federation, as many as `subs` is long, can
/// answer `get_signer_for` on `h` with the clauses `subs`, each with its own.
pub open spec fn all_answer(
    members: Seq<Box<dyn CTVEmulator>>,
    h: Seq<u8>,
    subs: Seq<ClauseView>,
) -> bool {
    &&& subs.len() <= members.len()
    &&& forall|i: int| 0 <= i < subs.len() ==> #[trigger] members[i].may_answer(h, Ok(subs[i]))
}

/// Whether the first members of a federation, one fewer than `chain` is
/// long, can sign in turn: the first signs `chain[0]`, and each hands on what
/// the next one signs.
pub open spec fn all_sign(members: Seq<Box<dyn CTVEmulator>>, chain: Seq<SpendRequestView>) -> bool {
    &&& 1 <= chain.len() <= members.len() + 1
    &&& forall|i: int|
        0 <= i < chain.len() - 1 ==> #[trigger] members[i].may_sign(chain[i], Ok(chain[i + 1]))
}

impl FederatedEmulatorConnection {
    /// The members, in the order in which they are asked.
    pub closed spec fn members(&self) -> Seq<Box<dyn CTVEmulator>> {
        self.emulators@
    }

    /// How many of the members must sign.
    pub closed spec fn threshold(&self) -> u8 {
        self.threshold
    }

    /// A federation of `emulators`, of which `threshold` must sign.
    pub fn new(emulators: Vec<Box<dyn CTVEmulator>>, threshold: u8) -> (r: Self)
        ensures
            r.members() == emulators@,
            r.threshold() == threshold,
    {
        FederatedEmulatorConnection { emulators, threshold }
    }
}

impl CTVEmulator for FederatedEmulatorConnection {
    /// The federation answers with the threshold over the clauses of all its
    /// members, in their order; or with the failure of a member, when all
    /// members before it have answered.
    open spec fn may_answer(&self, h: Seq<u8>, r: Result<ClauseView, EmulatorError>) -> bool {
        exists|subs: Seq<ClauseView>|
            #![trigger all_answer(self.members(), h, subs)]
            all_answer(self.members(), h, subs) && match r {
                Ok(c) => subs.len() == self.members().len() && c == ClauseView::Threshold(
                    self.threshold() as nat,
                    subs,
                ),
                Err(e) => subs.len() < self.members().len()
                    && self.members()[subs.len() as int].may_answer(h, Err(e)),
            }
    }

    /// The federation answers with what its last member hands on, when every
    /// member has signed what the one before it handed on; or with the failure
    /// of a member, when all members before it have signed.
    open spec fn may_sign(
        &self,
        b: SpendRequestView,
        r: Result<SpendRequestView, EmulatorError>,
    ) -> bool {
        exists|chain: Seq<SpendRequestView>|
            #![trigger all_sign(self.members(), chain)]
            all_sign(self.members(), chain) && chain[0] == b && match r {
                Ok(s) => chain.len() == self.members().len() + 1 && s == chain.last(),
                Err(e) => chain.len() <= self.members().len()
                    && self.members()[chain.len() - 1].may_sign(chain.last(), Err(e)),
            }
    }

    /// Asks each member in turn and stops at the first that fails.
    fn get_signer_for(&self, h: &[u8; 32]) -> (r: Result<Clause, EmulatorError>)
        ensures
            self.members().len() == 0 ==> r is Ok,
            r matches Ok(c) ==> c@ is Threshold && c@->Threshold_0 == self.threshold()
                && c@->Threshold_1.len() == self.members().len(),
    {
        let mut v: Vec<Clause> = Vec::new();
        let ghost mut subs: Seq<ClauseView> = Seq::empty();
        let mut i: usize = 0;
        while i < self.emulators.len()
            invariant
                i <= self.emulators.len(),
                v@.len() == i,
                subs.len() == i,
                forall|k: int| 0 <= k < i ==> #[trigger] v@[k]@ == subs[k],
                all_answer(self.members(), h@, subs),
            decreases self.emulators.len() - i,
        {
            match self.emulators[i].get_signer_for(h) {
                Ok(c) => {
                    proof {
                        subs = subs.push(c@);
                    }
                    v.push(c);
                },
                Err(e) => {
                    proof {
                        assert(self.members()[subs.len() as int].may_answer(h@, Err(e)));
                        assert(all_answer(self.members(), h@, subs));
                    }
                    return Err(e);
                },
            }
            i += 1;
        }
        proof {
            lemma_threshold_view(self.threshold as usize, v);
            assert(clause_views(v@) =~= subs);
        }
        let c = Clause::Threshold(self.threshold as usize, v);
        proof {
            assert(c@ == ClauseView::Threshold(self.threshold() as nat, subs));
            assert(all_answer(self.members(), h@, subs));
        }
        Ok(c)
    }

    /// Lets each member in turn sign what the member before it handed on, and
    /// stops at the first that fails: what the members before it added is
    /// then lost to the caller.
    fn sign(&self, b: SpendRequest) -> (r: Result<SpendRequest, EmulatorError>)
        ensures
            self.members().len() == 0 ==> outcome(r) == Ok::<SpendRequestView, EmulatorError>(b@),
    {
        let ghost start = b@;
        let mut cur = b;
        let ghost mut chain: Seq<SpendRequestView> = seq![start];
        let mut i: usize = 0;
        while i < self.emulators.len()
            invariant
                i <= self.emulators.len(),
                chain.len() == i + 1,
                start == b@,
                chain[0] == start,
                chain.last() == cur@,
                all_sign(self.members(), chain),
            decreases self.emulators.len() - i,
        {
            match self.emulators[i].sign(cur) {
                Ok(s) => {
                    proof {
                        chain = chain.push(s@);
                    }
                    cur = s;
                },
                Err(e) => {
                    proof {
                        assert(self.members()[chain.len() - 1].may_sign(chain.last(), Err(e)));
                        assert(all_sign(self.members(), chain) && chain[0] == start);
                    }
                    return Err(e);
                },
            }
            i += 1;
        }
        proof {
            assert(all_sign(self.members(), chain) && chain[0] == start);
        }
        Ok(cur)
    }
}

} // verus!
