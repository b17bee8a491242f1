//! Instruction dispatch: routes an incoming invocation to the one handler
//! this program exposes, `initialize`, after its account context has been
//! validated, and rejects every other instruction selector.

use vstd::prelude::*;

use crate::context::AccountRef;
use crate::context::AccountRequirement;
use crate::context::ContextError;
use crate::context::ValidatedContext;
use crate::context::shape_satisfied;
use crate::context::validate;

verus! {

/// Dispatch failure: the request named no instruction this program exposes.
pub enum DispatchError {
    /// The instruction selector matches no registered handler.
    UnrecognizedInstruction,
}

/// A failed invocation, as the host runtime observes it: either the account
/// context was rejected before any handler ran, or the selector named no
/// handler at all.
pub enum InvocationError {
    /// Account-context validation rejected the supplied accounts.
    Context(ContextError),
    /// Dispatch found no handler for the requested instruction.
    Dispatch(DispatchError),
}

/// The account context declared by the `initialize` instruction. It requires
/// no accounts, so validation against it is vacuous.
pub struct Initialize {}

/// The account shape the `initialize` instruction declares: the empty list.
pub open spec fn initialize_shape() -> Seq<AccountRequirement> {
    Seq::empty()
}

impl Initialize {
    /// Returns the declared account shape of the `initialize` instruction.
    pub fn declared_shape() -> (shape: Vec<AccountRequirement>)
        ensures
            shape@ == initialize_shape(),
    {
        let shape: Vec<AccountRequirement> = Vec::new();
        proof {
            assert(shape@ =~= initialize_shape());
        }
        shape
    }
}

/// Handler for the `initialize` instruction: it reads no account, writes no
/// state, and always succeeds.
pub fn initialize(_ctx: &ValidatedContext) -> (result: Result<(), InvocationError>)
    ensures
        result == Ok::<(), InvocationError>(()),
{
    Ok(())
}

/// The selector by which callers name the `initialize` instruction.
pub open spec fn initialize_selector() -> Seq<char> {
    "initialize"@
}

/// Relies on `str`'s `PartialEq`: two string slices compare equal exactly
/// when their character sequences are equal.
#[verifier::external_body]
fn selector_eq(a: &str, b: &str) -> (result: bool)
    ensures
        result == (a@ == b@),
{
    a == b
}

/// Routes one invocation of this program. A request that names `initialize`
/// has its supplied accounts validated against the declared (empty) shape and,
/// on success, is handed to the handler, whose result is returned unmodified;
/// any other selector is rejected without reaching any handler. The supplied
/// accounts are left untouched in every case: a successful `initialize`
/// changes no external state.
pub fn dispatch(selector: &str, accounts: &mut Vec<AccountRef>) -> (result: Result<
    (),
    InvocationError,
>)
    ensures
        final(accounts)@ == old(accounts)@,
        selector@ != initialize_selector() ==> result == Err::<(), InvocationError>(
            InvocationError::Dispatch(DispatchError::UnrecognizedInstruction),
        ),
        selector@ == initialize_selector() && old(accounts)@.len() == 0 ==> result == Ok::<
            (),
            InvocationError,
        >(()),
        selector@ == initialize_selector() && old(accounts)@.len() != 0 ==> result == Err::<
            (),
            InvocationError,
        >(InvocationError::Context(ContextError::ShapeMismatch)),
{
    if !selector_eq(selector, "initialize") {
        return Err(InvocationError::Dispatch(DispatchError::UnrecognizedInstruction));
    }
    let shape = Initialize::declared_shape();
    match validate(&shape, accounts) {
        Ok(ctx) => initialize(&ctx),
        Err(e) => Err(InvocationError::Context(e)),
    }
}

} // verus!
