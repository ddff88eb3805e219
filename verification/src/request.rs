//! A spend that asks for signatures: the transaction and, for each of its
//! inputs, what a signer needs to know and the signatures collected so far.

use crate::bytes::{copy_option, option_bytes, same_bytes};
use crate::emulator::EmulatorError;
use vstd::prelude::*;

verus! {

/// One collected signature: the signer's public key and the signature, which
/// is the 64-byte compact form followed by the signature-hash type byte.
#[derive(Debug)]
pub struct PartialSig {
    pub key: Vec<u8>,
    pub sig: Vec<u8>,
}

/// The signatures of a list as a map from public key to signature. Where a key
/// stands twice, the later entry counts.
pub open spec fn sig_map(s: Seq<PartialSig>) -> Map<Seq<u8>, Seq<u8>>
    decreases s.len(),
{
    if s.len() == 0 {
        Map::empty()
    } else {
        sig_map(s.drop_last()).insert(s.last().key@, s.last().sig@)
    }
}

/// No public key stands twice in the list.
pub open spec fn distinct_keys(s: Seq<PartialSig>) -> bool {
    forall|i: int, j: int| 0 <= i < j < s.len() ==> s[i].key@ != s[j].key@
}

/// A key has a signature in the map exactly when it stands in the list.
pub proof fn lemma_sig_map_dom(s: Seq<PartialSig>, k: Seq<u8>)
    ensures
        sig_map(s).dom().contains(k) <==> exists|i: int| 0 <= i < s.len() && s[i].key@ == k,
    decreases s.len(),
{
    if s.len() > 0 {
        let t = s.drop_last();
        lemma_sig_map_dom(t, k);
        if sig_map(s).dom().contains(k) {
            if s.last().key@ == k {
                assert(s[s.len() - 1].key@ == k);
            } else {
                let i = choose|i: int| 0 <= i < t.len() && t[i].key@ == k;
                assert(s[i].key@ == k);
            }
        }
        if exists|i: int| 0 <= i < s.len() && s[i].key@ == k {
            let i = choose|i: int| 0 <= i < s.len() && s[i].key@ == k;
            if i < s.len() - 1 {
                assert(t[i].key@ == k);
            }
        }
    }
}

/// With distinct keys, each entry of the list is what the map holds for its
/// key.
pub proof fn lemma_sig_map_entry(s: Seq<PartialSig>, i: int)
    requires
        distinct_keys(s),
        0 <= i < s.len(),
    ensures
        sig_map(s).dom().contains(s[i].key@),
        sig_map(s)[s[i].key@] == s[i].sig@,
    decreases s.len(),
{
    if i < s.len() - 1 {
        let t = s.drop_last();
        assert(t[i].key@ == s[i].key@);
        lemma_sig_map_entry(t, i);
    }
}

/// With distinct keys, the map holds as many signatures as the list.
pub proof fn lemma_sig_map_len(s: Seq<PartialSig>)
    requires
        distinct_keys(s),
    ensures
        sig_map(s).dom().finite(),
        sig_map(s).dom().len() == s.len(),
    decreases s.len(),
{
    if s.len() > 0 {
        let t = s.drop_last();
        lemma_sig_map_len(t);
        lemma_sig_map_dom(t, s.last().key@);
        assert(sig_map(s).dom() =~= sig_map(t).dom().insert(s.last().key@));
    }
}

/// With distinct keys, replacing the signature of entry `i` is inserting it
/// into the map.
proof fn lemma_sig_map_replace(s: Seq<PartialSig>, i: int, p: PartialSig)
    requires
        distinct_keys(s),
        0 <= i < s.len(),
        p.key@ == s[i].key@,
    ensures
        distinct_keys(s.update(i, p)),
        sig_map(s.update(i, p)) == sig_map(s).insert(p.key@, p.sig@),
    decreases s.len(),
{
    let u = s.update(i, p);
    if i == s.len() - 1 {
        assert(u.drop_last() =~= s.drop_last());
        assert(sig_map(u) =~= sig_map(s).insert(p.key@, p.sig@));
    } else {
        let t = s.drop_last();
        assert(t[i].key@ == s[i].key@);
        lemma_sig_map_replace(t, i, p);
        assert(u.drop_last() =~= t.update(i, p));
        assert(u.last() == s.last());
        assert(s[i].key@ != s[s.len() - 1].key@);
        assert(sig_map(u) =~= sig_map(s).insert(p.key@, p.sig@));
    }
}

/// What a signer reads of one input, and what signers have written to it.
#[derive(Debug)]
pub struct SpendInput {
    witness_script: Option<Vec<u8>>,
    witness_value: Option<u64>,
    partial_sigs: Vec<PartialSig>,
}

/// An input as a mathematical value.
pub struct SpendInputView {
    /// The script that the signature commits to, if known.
    pub witness_script: Option<Seq<u8>>,
    /// The amount of the output that this input spends, if known.
    pub witness_value: Option<u64>,
    /// The signatures collected so far, by public key.
    pub partial_sigs: Map<Seq<u8>, Seq<u8>>,
}

impl SpendInputView {
    /// This input with what `other` knows added: the script and the amount
    /// where this input has none, and all signatures of `other`, which count
    /// where both have one of the same key.
    pub open spec fn merged(self, other: SpendInputView) -> SpendInputView {
        SpendInputView {
            witness_script: if self.witness_script is None {
                other.witness_script
            } else {
                self.witness_script
            },
            witness_value: if self.witness_value is None {
                other.witness_value
            } else {
                self.witness_value
            },
            partial_sigs: self.partial_sigs.union_prefer_right(other.partial_sigs),
        }
    }
}

impl View for SpendInput {
    type V = SpendInputView;

    closed spec fn view(&self) -> SpendInputView {
        SpendInputView {
            witness_script: option_bytes(self.witness_script),
            witness_value: self.witness_value,
            partial_sigs: sig_map(self.partial_sigs@),
        }
    }
}

impl SpendInput {
    #[verifier::type_invariant]
    spec fn keys_are_distinct(self) -> bool {
        distinct_keys(self.partial_sigs@)
    }

    /// An input without signatures.
    pub fn new(witness_script: Option<Vec<u8>>, witness_value: Option<u64>) -> (r: Self)
        ensures
            r@ == (SpendInputView {
                witness_script: option_bytes(witness_script),
                witness_value: witness_value,
                partial_sigs: Map::empty(),
            }),
    {
        SpendInput { witness_script, witness_value, partial_sigs: Vec::new() }
    }

    /// The script that a signature on this input commits to, if known.
    pub fn witness_script(&self) -> (r: &Option<Vec<u8>>)
        ensures
            option_bytes(*r) == self@.witness_script,
    {
        &self.witness_script
    }

    /// The amount of the output that this input spends, if known.
    pub fn witness_value(&self) -> (r: Option<u64>)
        ensures
            r == self@.witness_value,
    {
        self.witness_value
    }

    /// The signatures collected so far, each public key once.
    pub fn partial_sigs(&self) -> (r: &Vec<PartialSig>)
        ensures
            distinct_keys(r@),
            sig_map(r@) == self@.partial_sigs,
            self@.partial_sigs.dom().finite(),
            self@.partial_sigs.dom().len() == r@.len(),
            forall|i: int|
                0 <= i < r@.len() ==> self@.partial_sigs.dom().contains(#[trigger] r@[i].key@)
                    && self@.partial_sigs[r@[i].key@] == r@[i].sig@,
    {
        proof {
            use_type_invariant(self);
            lemma_sig_map_len(self.partial_sigs@);
            assert forall|i: int| 0 <= i < self.partial_sigs@.len() implies sig_map(
                self.partial_sigs@,
            ).dom().contains(#[trigger] self.partial_sigs@[i].key@) && sig_map(
                self.partial_sigs@,
            )[self.partial_sigs@[i].key@] == self.partial_sigs@[i].sig@ by {
                lemma_sig_map_entry(self.partial_sigs@, i);
            }
        }
        &self.partial_sigs
    }

    /// Records `sig` as the signature of `key`, in place of an earlier one of
    /// the same key.
    pub fn insert_partial_sig(&mut self, key: Vec<u8>, sig: Vec<u8>)
        ensures
            final(self)@ == (SpendInputView {
                partial_sigs: old(self)@.partial_sigs.insert(key@, sig@),
                ..old(self)@
            }),
    {
        proof {
            use_type_invariant(&*self);
        }
        let mut sigs: Vec<PartialSig> = Vec::new();
        core::mem::swap(&mut self.partial_sigs, &mut sigs);
        let mut i: usize = 0;
        while i < sigs.len()
            invariant
                i <= sigs.len(),
                forall|k: int| 0 <= k < i ==> sigs@[k].key@ != key@,
            ensures
                i < sigs.len() ==> sigs@[i as int].key@ == key@,
            decreases sigs.len() - i,
        {
            if same_bytes(&sigs[i].key, &key) {
                break ;
            }
            i += 1;
        }
        let p = PartialSig { key, sig };
        if i < sigs.len() {
            proof {
                lemma_sig_map_replace(sigs@, i as int, p);
            }
            sigs.set(i, p);
        } else {
            proof {
                assert(sigs@.push(p).drop_last() =~= sigs@);
                assert(distinct_keys(sigs@.push(p)));
            }
            sigs.push(p);
        }
        core::mem::swap(&mut self.partial_sigs, &mut sigs);
    }
}

impl SpendInput {
    /// Adds what `other` knows to this input.
    pub fn merge(&mut self, other: &SpendInput)
        ensures
            final(self)@ == old(self)@.merged(other@),
    {
        proof {
            use_type_invariant(&*self);
        }
        if self.witness_script.is_none() {
            self.witness_script = copy_option(&other.witness_script);
        }
        if self.witness_value.is_none() {
            self.witness_value = other.witness_value;
        }
        let ghost start = self@;
        let sigs = &other.partial_sigs;
        let mut j: usize = 0;
        assert(start.partial_sigs.union_prefer_right(sig_map(sigs@.take(0)))
            =~= start.partial_sigs);
        while j < sigs.len()
            invariant
                j <= sigs.len(),
                self@ == (SpendInputView {
                    partial_sigs: start.partial_sigs.union_prefer_right(
                        sig_map(sigs@.take(j as int)),
                    ),
                    ..start
                }),
            decreases sigs.len() - j,
        {
            let key = sigs[j].key.clone();
            let sig = sigs[j].sig.clone();
            proof {
                let before = sigs@.take(j as int);
                let after = sigs@.take(j + 1);
                assert(after.drop_last() =~= before);
                assert(after.last() == sigs@[j as int]);
                assert(start.partial_sigs.union_prefer_right(sig_map(after))
                    =~= start.partial_sigs.union_prefer_right(sig_map(before)).insert(key@, sig@));
            }
            self.insert_partial_sig(key, sig);
            j += 1;
        }
        assert(sigs@.take(sigs.len() as int) =~= sigs@);
    }
}

/// A spend that asks for signatures.
#[derive(Debug)]
pub struct SpendRequest {
    tx: Vec<u8>,
    inputs: Vec<SpendInput>,
}

/// A spend as a mathematical value.
pub struct SpendRequestView {
    /// The unsigned transaction in its consensus encoding.
    pub tx: Seq<u8>,
    /// One entry for each input of the transaction.
    pub inputs: Seq<SpendInputView>,
}

impl SpendRequestView {
    /// Whether `other` asks for signatures on the same transaction, with as
    /// many inputs.
    pub open spec fn fits(self, other: SpendRequestView) -> bool {
        self.tx == other.tx && self.inputs.len() == other.inputs.len()
    }

    /// This spend with what `other` knows added to each input.
    pub open spec fn merged(self, other: SpendRequestView) -> SpendRequestView {
        SpendRequestView {
            tx: self.tx,
            inputs: Seq::new(self.inputs.len(), |i: int| self.inputs[i].merged(other.inputs[i])),
        }
    }

    /// This spend with `sig` recorded as the signature of `key` on input
    /// `index`.
    pub open spec fn with_sig(self, index: int, key: Seq<u8>, sig: Seq<u8>) -> SpendRequestView {
        SpendRequestView {
            inputs: self.inputs.update(
                index,
                SpendInputView {
                    partial_sigs: self.inputs[index].partial_sigs.insert(key, sig),
                    ..self.inputs[index]
                },
            ),
            ..self
        }
    }
}

/// The views of a list of inputs, element by element.
pub open spec fn input_views(s: Seq<SpendInput>) -> Seq<SpendInputView> {
    Seq::new(s.len(), |i: int| s[i]@)
}

impl View for SpendRequest {
    type V = SpendRequestView;

    closed spec fn view(&self) -> SpendRequestView {
        SpendRequestView { tx: self.tx@, inputs: input_views(self.inputs@) }
    }
}

impl SpendRequest {
    /// A spend of the transaction with the encoding `tx`.
    pub fn new(tx: Vec<u8>, inputs: Vec<SpendInput>) -> (r: Self)
        ensures
            r@ == (SpendRequestView { tx: tx@, inputs: input_views(inputs@) }),
    {
        SpendRequest { tx, inputs }
    }

    /// The unsigned transaction in its consensus encoding.
    pub fn tx(&self) -> (r: &Vec<u8>)
        ensures
            r@ == self@.tx,
    {
        &self.tx
    }

    /// The inputs, one for each input of the transaction.
    pub fn inputs(&self) -> (r: &Vec<SpendInput>)
        ensures
            input_views(r@) == self@.inputs,
    {
        &self.inputs
    }

    /// Adds what `other` knows to this spend: the signatures that `other`
    /// collected, and the witness data that this spend lacks. Fails, and
    /// leaves this spend as it is, where `other` is about another transaction.
    pub fn merge(&mut self, other: SpendRequest) -> (r: Result<(), EmulatorError>)
        ensures
            match r {
                Ok(_) => old(self)@.fits(other@) && final(self)@ == old(self)@.merged(other@),
                Err(e) => e == EmulatorError::Merge && !old(self)@.fits(other@) && final(self)@
                    == old(self)@,
            },
    {
        if !same_bytes(&self.tx, &other.tx) || self.inputs.len() != other.inputs.len() {
            return Err(EmulatorError::Merge);
        }
        let n = self.inputs.len();
        let mut i: usize = 0;
        while i < n
            invariant
                i <= n,
                n == self.inputs.len(),
                n == other.inputs.len(),
                self.tx == old(self).tx,
                forall|k: int|
                    #![trigger self.inputs@[k]]
                    0 <= k < i ==> self.inputs@[k]@ == old(self).inputs@[k]@.merged(
                        other.inputs@[k]@,
                    ),
                forall|k: int|
                    #![trigger self.inputs@[k]]
                    i <= k < n ==> self.inputs@[k]@ == old(self).inputs@[k]@,
            decreases n - i,
        {
            self.inputs[i].merge(&other.inputs[i]);
            i += 1;
        }
        assert(self@.inputs =~= old(self)@.merged(other@).inputs);
        Ok(())
    }

    /// Records `sig` as the signature of `key` on input `index`.
    pub fn insert_partial_sig(&mut self, index: usize, key: Vec<u8>, sig: Vec<u8>)
        requires
            index < old(self)@.inputs.len(),
        ensures
            final(self)@ == old(self)@.with_sig(index as int, key@, sig@),
    {
        self.inputs[index].insert_partial_sig(key, sig);
        assert(self@.inputs =~= old(self)@.with_sig(index as int, key@, sig@).inputs);
    }
}

/// Adding to an input what it already knows changes nothing.
pub proof fn lemma_merge_input_with_itself(a: SpendInputView)
    ensures
        a.merged(a) == a,
{
    assert(a.partial_sigs.union_prefer_right(a.partial_sigs) =~= a.partial_sigs);
}

/// Adding to a spend the same spend with one more signature gives the spend
/// with that signature.
pub proof fn lemma_merge_with_signed(b: SpendRequestView, index: int, key: Seq<u8>, sig: Seq<u8>)
    requires
        0 <= index < b.inputs.len(),
    ensures
        b.fits(b.with_sig(index, key, sig)),
        b.merged(b.with_sig(index, key, sig)) == b.with_sig(index, key, sig),
{
    let s = b.with_sig(index, key, sig);
    let m = b.merged(s);
    assert forall|i: int| 0 <= i < b.inputs.len() implies m.inputs[i] == s.inputs[i] by {
        if i == index {
            let sigs = b.inputs[i].partial_sigs;
            assert(sigs.union_prefer_right(sigs.insert(key, sig)) =~= sigs.insert(key, sig));
        } else {
            lemma_merge_input_with_itself(b.inputs[i]);
        }
    }
    assert(m.inputs =~= s.inputs);
}

/// Recording a signature a second time changes nothing.
pub proof fn lemma_with_sig_twice(b: SpendRequestView, index: int, key: Seq<u8>, sig: Seq<u8>)
    requires
        0 <= index < b.inputs.len(),
    ensures
        b.with_sig(index, key, sig).with_sig(index, key, sig) == b.with_sig(index, key, sig),
{
    let s = b.with_sig(index, key, sig);
    let sigs = b.inputs[index].partial_sigs;
    assert(sigs.insert(key, sig).insert(key, sig) =~= sigs.insert(key, sig));
    assert(s.with_sig(index, key, sig).inputs =~= s.inputs);
}

/// The result of a call on a spend, as mathematical values.
pub open spec fn outcome(r: Result<SpendRequest, EmulatorError>) -> Result<
    SpendRequestView,
    EmulatorError,
> {
    match r {
        Ok(b) => Ok(b@),
        Err(e) => Err(e),
    }
}

} // verus!
