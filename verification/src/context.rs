//! Account-context validation: each instruction declares the exact shape of
//! accounts a caller must supply, and the supplied references are checked
//! against that shape before the handler runs.

use vstd::prelude::*;

use crate::identity::program_id_spec;

verus! {

/// One entry of an instruction's declared account shape: a named account
/// together with the capabilities the caller-supplied reference must carry.
pub struct AccountRequirement {
    /// Name of the account within the instruction, for callers' reference.
    pub name: String,
    /// The supplied account must have signed the transaction.
    pub must_be_signer: bool,
    /// The supplied account must be writable in this transaction.
    pub must_be_writable: bool,
    /// The supplied account must be owned by this program.
    pub must_be_owned_by_program: bool,
}

/// A caller-supplied account reference: the capabilities the reference
/// carries, the owner of the account, and its current data.
pub struct AccountRef {
    /// The account signed the enclosing transaction.
    pub is_signer: bool,
    /// The account is writable in the enclosing transaction.
    pub is_writable: bool,
    /// Identifier of the program that owns the account.
    pub owner: Vec<u8>,
    /// The account's persisted data.
    pub data: Vec<u8>,
}

/// Why validation of a supplied account list failed.
pub enum ContextError {
    /// The supplied account count or order does not match the declared shape.
    ShapeMismatch,
    /// A supplied account lacks a declared capability
    /// (signer, writable, or program ownership).
    CapabilityViolation,
}

/// A supplied account list that passed validation against a declared shape;
/// the handler receives its accounts knowing every declared capability holds.
pub struct ValidatedContext<'a> {
    /// The validated accounts, in declared order.
    pub accounts: &'a Vec<AccountRef>,
}

/// Whether one supplied account carries every capability its requirement
/// declares.
pub open spec fn account_satisfies(req: AccountRequirement, acct: AccountRef) -> bool {
    &&& req.must_be_signer ==> acct.is_signer
    &&& req.must_be_writable ==> acct.is_writable
    &&& req.must_be_owned_by_program ==> acct.owner@ == program_id_spec()
}

/// Whether a supplied account list exactly satisfies a declared shape:
/// the same number of accounts, in declared order, each carrying the
/// capabilities its position requires.
pub open spec fn shape_satisfied(shape: Seq<AccountRequirement>, supplied: Seq<AccountRef>) -> bool {
    &&& supplied.len() == shape.len()
    &&& forall|i: int| 0 <= i < shape.len() ==> account_satisfies(shape[i], #[trigger] supplied[i])
}

/// Validates a caller-supplied account list against an instruction's declared
/// shape. Returns the validated context exactly when the list satisfies the
/// shape; a wrong account count is a `ShapeMismatch`, and a matching count
/// with a missing capability is a `CapabilityViolation`.
pub fn validate<'a>(shape: &Vec<AccountRequirement>, supplied: &'a Vec<AccountRef>) -> (result:
    Result<ValidatedContext<'a>, ContextError>)
    ensures
        shape_satisfied(shape@, supplied@) ==> (result matches Ok(ctx) && ctx.accounts@
            == supplied@),
        supplied@.len() != shape@.len() ==> (result matches Err(e)
            && e == ContextError::ShapeMismatch),
        supplied@.len() == shape@.len() && !shape_satisfied(shape@, supplied@) ==> (result matches Err(
            e,
        ) && e == ContextError::CapabilityViolation),
{
    if supplied.len() != shape.len() {
        return Err(ContextError::ShapeMismatch);
    }
    let mut i: usize = 0;
    while i < shape.len()
        invariant
            0 <= i <= shape.len(),
            supplied@.len() == shape@.len(),
            forall|j: int| 0 <= j < i ==> account_satisfies(shape@[j], #[trigger] supplied@[j]),
        decreases shape.len() - i,
    {
        let req = &shape[i];
        let acct = &supplied[i];
        let signer_ok = !req.must_be_signer || acct.is_signer;
        let writable_ok = !req.must_be_writable || acct.is_writable;
        let owner_ok = !req.must_be_owned_by_program || owner_is_program(&acct.owner);
        if !(signer_ok && writable_ok && owner_ok) {
            return Err(ContextError::CapabilityViolation);
        }
        i = i + 1;
    }
    Ok(ValidatedContext { accounts: supplied })
}

/// Whether an owner identifier equals this program's identifier.
fn owner_is_program(owner: &Vec<u8>) -> (result: bool)
    ensures
        result == (owner@ == program_id_spec()),
{
    let id = crate::identity::program_id();
    if owner.len() != id.len() {
        proof {
            assert(owner@ != program_id_spec());
        }
        return false;
    }
    let mut i: usize = 0;
    while i < id.len()
        invariant
            0 <= i <= id.len(),
            owner@.len() == id@.len(),
            id@ == program_id_spec(),
            forall|j: int| 0 <= j < i ==> owner@[j] == id@[j],
        decreases id.len() - i,
    {
        if owner[i] != id[i] {
            proof {
                assert(owner@ != program_id_spec());
            }
            return false;
        }
        i = i + 1;
    }
    proof {
        assert(owner@ =~= program_id_spec());
    }
    true
}

/// Vacuous validation: an empty declared shape is satisfied by an empty
/// supplied account list, so validation of such a pair always succeeds.
pub proof fn lemma_empty_shape_accepts_empty(
    shape: Seq<AccountRequirement>,
    supplied: Seq<AccountRef>,
)
    requires
        shape.len() == 0,
        supplied.len() == 0,
    ensures
        shape_satisfied(shape, supplied),
{
}

/// Extra-account rejection: no non-empty supplied account list satisfies an
/// empty declared shape, so validation of such a pair always fails, and with
/// a shape mismatch, since the account counts differ.
pub proof fn lemma_empty_shape_rejects_extra(
    shape: Seq<AccountRequirement>,
    supplied: Seq<AccountRef>,
)
    requires
        shape.len() == 0,
        supplied.len() > 0,
    ensures
        !shape_satisfied(shape, supplied),
        supplied.len() != shape.len(),
{
}

} // verus!
