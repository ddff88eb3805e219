use ctv_emulators::contract::{AnyContract, CompilationError, Context, Contract, DynamicContract};
use std::marker::PhantomData;

#[test]
fn with_amount_narrows_the_funds() {
    let ctx = Context::new(100);
    let sub = ctx.with_amount(40).unwrap();
    let mut probe = sub;
    assert!(probe.spend_amount(40).is_ok());
    assert!(matches!(probe.spend_amount(1), Err(CompilationError::OutOfFunds)));
}

#[test]
fn with_amount_of_all_funds_is_allowed() {
    let ctx = Context::new(100);
    let mut all = ctx.with_amount(100).unwrap();
    assert!(all.spend_amount(100).is_ok());
    assert!(matches!(all.spend_amount(1), Err(CompilationError::OutOfFunds)));
}

#[test]
fn with_amount_beyond_the_funds_fails() {
    let ctx = Context::new(100);
    assert!(matches!(ctx.with_amount(101), Err(CompilationError::OutOfFunds)));
}

#[test]
fn spend_amount_takes_from_the_funds() {
    let mut ctx = Context::new(10);
    assert!(ctx.spend_amount(3).is_ok());
    assert!(ctx.spend_amount(7).is_ok());
    assert!(matches!(ctx.spend_amount(1), Err(CompilationError::OutOfFunds)));
    assert!(ctx.spend_amount(0).is_ok());
}

#[test]
fn a_failed_spend_leaves_the_funds() {
    let mut ctx = Context::new(10);
    assert!(matches!(ctx.spend_amount(11), Err(CompilationError::OutOfFunds)));
    assert!(ctx.spend_amount(10).is_ok());
}

#[test]
fn add_amount_adds_to_the_funds() {
    let mut ctx = Context::new(5);
    ctx.add_amount(6);
    assert!(matches!(ctx.with_amount(12), Err(CompilationError::OutOfFunds)));
    assert!(ctx.spend_amount(11).is_ok());
    assert!(matches!(ctx.spend_amount(1), Err(CompilationError::OutOfFunds)));
}

#[test]
fn compilation_error_wraps_an_amount_error() {
    let e = CompilationError::from(sapio_bitcoin::util::amount::ParseAmountError::TooBig);
    assert!(matches!(
        e,
        CompilationError::ParseAmountError(sapio_bitcoin::util::amount::ParseAmountError::TooBig)
    ));
}

#[test]
fn compilation_error_wraps_a_compiler_error() {
    let inner = sapio_miniscript::policy::compiler::CompilerError::LimitsExceeded;
    let e = CompilationError::from(inner);
    assert!(matches!(
        e,
        CompilationError::Miniscript(
            sapio_miniscript::policy::compiler::CompilerError::LimitsExceeded
        )
    ));
}

#[test]
fn dynamic_contract_hands_out_its_lists_and_data() {
    let c: DynamicContract<(), String, u8, u16, u32> = DynamicContract {
        then_fns: vec![1, 2, 3],
        finish_or: vec![10],
        finish: vec![],
        data: String::from("vault"),
        stateful: PhantomData,
    };
    assert_eq!(c.then_fns(), &[1u8, 2, 3][..]);
    assert_eq!(c.finish_or_fns(), &[10u16][..]);
    assert!(c.finish_fns().is_empty());
    assert_eq!(c.get_inner_ref(), "vault");
}

struct Fixed(u8);

impl Contract for Fixed {
    type StatefulArguments = ();
    type ThenFn = &'static str;
    type FinishOrFn = u8;
    type FinishFn = bool;
    const THEN_FNS: &'static [&'static str] = &["first", "second"];
    const FINISH_OR_FUNCS: &'static [u8] = &[];
    const FINISH_FNS: &'static [bool] = &[true];
}

#[test]
fn a_static_contract_hands_out_its_constants_and_itself() {
    let c = Fixed(7);
    assert_eq!(c.then_fns(), &["first", "second"][..]);
    assert!(c.finish_or_fns().is_empty());
    assert_eq!(c.finish_fns(), &[true][..]);
    assert_eq!(c.get_inner_ref().0, 7);
}
