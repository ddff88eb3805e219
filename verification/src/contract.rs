//! What a contract is made of, and the funds that its compilation may spend.

use vstd::prelude::*;

verus! {

/// The error of the amount parser of sapio-bitcoin. Nothing is read of it.
#[verifier::external_type_specification]
#[verifier::external_body]
pub struct ExParseAmountError(sapio_bitcoin::util::amount::ParseAmountError);

/// The error of the policy compiler of sapio-miniscript. Nothing is read of
/// it.
#[verifier::external_type_specification]
#[verifier::external_body]
pub struct ExCompilerError(sapio_miniscript::policy::compiler::CompilerError);

/// Why a contract could not be compiled.
#[derive(Debug)]
pub enum CompilationError {
    TerminateCompilation,
    MissingTemplates,
    EmptyPolicy,
    /// The contract asks for more funds than it was given.
    OutOfFunds,
    /// An amount could not be read.
    ParseAmountError(sapio_bitcoin::util::amount::ParseAmountError),
    /// The policy compiler refused a policy.
    Miniscript(sapio_miniscript::policy::compiler::CompilerError),
}

impl From<sapio_bitcoin::util::amount::ParseAmountError> for CompilationError {
    fn from(b: sapio_bitcoin::util::amount::ParseAmountError) -> (r: Self) {
        CompilationError::ParseAmountError(b)
    }
}

impl vstd::std_specs::convert::FromSpecImpl<sapio_bitcoin::util::amount::ParseAmountError> for CompilationError {
    open spec fn obeys_from_spec() -> bool {
        true
    }

    open spec fn from_spec(b: sapio_bitcoin::util::amount::ParseAmountError) -> Self {
        CompilationError::ParseAmountError(b)
    }
}

impl From<sapio_miniscript::policy::compiler::CompilerError> for CompilationError {
    fn from(v: sapio_miniscript::policy::compiler::CompilerError) -> (r: Self) {
        CompilationError::Miniscript(v)
    }
}

impl vstd::std_specs::convert::FromSpecImpl<sapio_miniscript::policy::compiler::CompilerError> for CompilationError {
    open spec fn obeys_from_spec() -> bool {
        true
    }

    open spec fn from_spec(v: sapio_miniscript::policy::compiler::CompilerError) -> Self {
        CompilationError::Miniscript(v)
    }
}

/// A contract whose parts are fixed when it is written: three lists of the
/// constructors of its actions. The items of a list are of a type of the
/// contract's choice.
pub trait Contract where Self: Sized + 'static, Option<Self::StatefulArguments>: Default {
    /// What a caller hands to an action that may finish or go on.
    type StatefulArguments;

    /// A constructor of an action that the contract takes by itself.
    type ThenFn: 'static;

    /// A constructor of an action that finishes the contract or goes on.
    type FinishOrFn: 'static;

    /// A constructor of a condition that finishes the contract.
    type FinishFn: 'static;

    const THEN_FNS: &'static [Self::ThenFn];

    const FINISH_OR_FUNCS: &'static [Self::FinishOrFn];

    const FINISH_FNS: &'static [Self::FinishFn];
}

/// A contract whose parts are put together while the program runs: the three
/// lists, and the data that the actions read.
pub struct DynamicContract<T, S, A, B, C> where S: 'static {
    pub then_fns: Vec<A>,
    pub finish_or: Vec<B>,
    pub finish: Vec<C>,
    pub data: S,
    pub stateful: core::marker::PhantomData<T>,
}

/// What can be compiled: anything that hands out the three lists and its
/// data, however it holds them.
pub trait AnyContract where Self: Sized {
    type StatefulArguments;

    type Ref;

    type ThenFn;

    type FinishOrFn;

    type FinishFn;

    /// The constructors of the actions that the contract takes by itself.
    spec fn then_list(&self) -> Seq<Self::ThenFn>;

    /// The constructors of the actions that finish the contract or go on.
    spec fn finish_or_list(&self) -> Seq<Self::FinishOrFn>;

    /// The constructors of the conditions that finish the contract.
    spec fn finish_list(&self) -> Seq<Self::FinishFn>;

    /// The data that the actions read.
    spec fn inner(&self) -> Self::Ref;

    fn then_fns<'a>(&'a self) -> (r: &'a [Self::ThenFn])
        ensures
            r@ == self.then_list(),
    ;

    fn finish_or_fns<'a>(&'a self) -> (r: &'a [Self::FinishOrFn])
        ensures
            r@ == self.finish_or_list(),
    ;

    fn finish_fns<'a>(&'a self) -> (r: &'a [Self::FinishFn])
        ensures
            r@ == self.finish_list(),
    ;

    fn get_inner_ref<'a>(&'a self) -> (r: &'a Self::Ref)
        ensures
            *r == self.inner(),
    ;
}

impl<T, S, A, B, C> AnyContract for DynamicContract<T, S, A, B, C> {
    type StatefulArguments = T;

    type Ref = S;

    type ThenFn = A;

    type FinishOrFn = B;

    type FinishFn = C;

    open spec fn then_list(&self) -> Seq<A> {
        self.then_fns@
    }

    open spec fn finish_or_list(&self) -> Seq<B> {
        self.finish_or@
    }

    open spec fn finish_list(&self) -> Seq<C> {
        self.finish@
    }

    open spec fn inner(&self) -> S {
        self.data
    }

    fn then_fns<'a>(&'a self) -> (r: &'a [A]) {
        self.then_fns.as_slice()
    }

    fn finish_or_fns<'a>(&'a self) -> (r: &'a [B]) {
        self.finish_or.as_slice()
    }

    fn finish_fns<'a>(&'a self) -> (r: &'a [C]) {
        self.finish.as_slice()
    }

    fn get_inner_ref<'a>(&'a self) -> (r: &'a S) {
        &self.data
    }
}

impl<K> AnyContract for K where K: Contract + Sized {
    type StatefulArguments = K::StatefulArguments;

    type Ref = Self;

    type ThenFn = K::ThenFn;

    type FinishOrFn = K::FinishOrFn;

    type FinishFn = K::FinishFn;

    open spec fn then_list(&self) -> Seq<K::ThenFn> {
        Self::THEN_FNS@
    }

    open spec fn finish_or_list(&self) -> Seq<K::FinishOrFn> {
        Self::FINISH_OR_FUNCS@
    }

    open spec fn finish_list(&self) -> Seq<K::FinishFn> {
        Self::FINISH_FNS@
    }

    open spec fn inner(&self) -> Self {
        *self
    }

    fn then_fns<'a>(&'a self) -> (r: &'a [K::ThenFn]) {
        Self::THEN_FNS
    }

    fn finish_or_fns<'a>(&'a self) -> (r: &'a [K::FinishOrFn]) {
        Self::FINISH_OR_FUNCS
    }

    fn finish_fns<'a>(&'a self) -> (r: &'a [K::FinishFn]) {
        Self::FINISH_FNS
    }

    fn get_inner_ref<'a>(&'a self) -> (r: &'a Self) {
        self
    }
}

/// What the compilation of a contract knows of its surroundings: the funds
/// that it may still spend, in satoshis.
#[derive(Clone, Copy, Debug)]
pub struct Context {
    available_funds: u64,
}

impl Context {
    /// The funds that may still be spent.
    pub closed spec fn funds(&self) -> u64 {
        self.available_funds
    }

    /// A context with `amount` to spend.
    pub fn new(amount: u64) -> (r: Self)
        ensures
            r.funds() == amount,
    {
        Context { available_funds: amount }
    }

    /// A context with exactly `amount` to spend, which must not be more than
    /// this one has.
    pub fn with_amount(&self, amount: u64) -> (r: Result<Self, CompilationError>)
        ensures
            match r {
                Ok(c) => amount <= self.funds() && c.funds() == amount,
                Err(e) => amount > self.funds() && e is OutOfFunds,
            },
    {
        if self.available_funds < amount {
            Err(CompilationError::OutOfFunds)
        } else {
            Ok(Context { available_funds: amount })
        }
    }

    /// Takes `amount` from the funds, or fails and leaves them as they are.
    pub fn spend_amount(&mut self, amount: u64) -> (r: Result<(), CompilationError>)
        ensures
            match r {
                Ok(_) => amount <= old(self).funds() && final(self).funds() == old(self).funds()
                    - amount,
                Err(e) => amount > old(self).funds() && e is OutOfFunds && final(self).funds()
                    == old(self).funds(),
            },
    {
        if self.available_funds < amount {
            Err(CompilationError::OutOfFunds)
        } else {
            self.available_funds -= amount;
            Ok(())
        }
    }

    /// Adds `amount` to the funds.
    pub fn add_amount(&mut self, amount: u64)
        requires
            old(self).funds() + amount <= u64::MAX,
        ensures
            final(self).funds() == old(self).funds() + amount,
    {
        self.available_funds += amount;
    }
}

} // verus!
