use tic_tac_toe_contract::context::AccountRef;
use tic_tac_toe_contract::context::AccountRequirement;
use tic_tac_toe_contract::context::ContextError;
use tic_tac_toe_contract::context::validate;
use tic_tac_toe_contract::dispatch::DispatchError;
use tic_tac_toe_contract::dispatch::Initialize;
use tic_tac_toe_contract::dispatch::InvocationError;
use tic_tac_toe_contract::dispatch::dispatch;
use tic_tac_toe_contract::dispatch::initialize;
use tic_tac_toe_contract::identity::PROGRAM_ID_LEN;
use tic_tac_toe_contract::identity::program_id;

fn stray_account() -> AccountRef {
    AccountRef {
        is_signer: false,
        is_writable: false,
        owner: vec![7u8; 32],
        data: vec![1u8, 2, 3],
    }
}

#[test]
fn program_id_is_stable_and_fixed_length() {
    let first = program_id();
    let second = program_id();
    assert_eq!(first, second);
    assert_eq!(first.len(), PROGRAM_ID_LEN);
    assert_eq!(first.len(), 32);
}

#[test]
fn program_id_exact_value() {
    let id = program_id();
    assert_eq!(
        id,
        vec![
            23u8, 155, 152, 191, 172, 132, 21, 156, 16, 132, 218, 205, 33, 73, 105, 71, 66, 148,
            18, 71, 202, 37, 84, 211, 225, 203, 197, 129, 46, 242, 32, 223,
        ]
    );
}

#[test]
fn empty_shape_accepts_empty_accounts() {
    let shape: Vec<AccountRequirement> = Vec::new();
    let supplied: Vec<AccountRef> = Vec::new();
    let result = validate(&shape, &supplied);
    assert!(matches!(result, Ok(ctx) if ctx.accounts.is_empty()));
}

#[test]
fn empty_shape_rejects_extra_account() {
    let shape: Vec<AccountRequirement> = Vec::new();
    let supplied = vec![stray_account()];
    let result = validate(&shape, &supplied);
    assert!(matches!(result, Err(ContextError::ShapeMismatch)));
}

#[test]
fn declared_shape_of_initialize_is_empty() {
    let shape = Initialize::declared_shape();
    assert!(shape.is_empty());
}

#[test]
fn initialize_handler_always_succeeds() {
    let shape = Initialize::declared_shape();
    let supplied: Vec<AccountRef> = Vec::new();
    let ctx = validate(&shape, &supplied).unwrap_or_else(|_| panic!());
    assert!(matches!(initialize(&ctx), Ok(())));
}

#[test]
fn missing_signer_is_a_capability_violation() {
    let shape = vec![AccountRequirement {
        name: String::from("payer"),
        must_be_signer: true,
        must_be_writable: false,
        must_be_owned_by_program: false,
    }];
    let supplied = vec![stray_account()];
    let result = validate(&shape, &supplied);
    assert!(matches!(result, Err(ContextError::CapabilityViolation)));
}

#[test]
fn missing_writability_is_a_capability_violation() {
    let shape = vec![AccountRequirement {
        name: String::from("state"),
        must_be_signer: false,
        must_be_writable: true,
        must_be_owned_by_program: false,
    }];
    let supplied = vec![stray_account()];
    let result = validate(&shape, &supplied);
    assert!(matches!(result, Err(ContextError::CapabilityViolation)));
}

#[test]
fn foreign_owner_is_a_capability_violation() {
    let shape = vec![AccountRequirement {
        name: String::from("state"),
        must_be_signer: false,
        must_be_writable: false,
        must_be_owned_by_program: true,
    }];
    let supplied = vec![stray_account()];
    let result = validate(&shape, &supplied);
    assert!(matches!(result, Err(ContextError::CapabilityViolation)));
}

#[test]
fn satisfied_capabilities_validate() {
    let shape = vec![AccountRequirement {
        name: String::from("state"),
        must_be_signer: true,
        must_be_writable: true,
        must_be_owned_by_program: true,
    }];
    let supplied = vec![AccountRef {
        is_signer: true,
        is_writable: true,
        owner: program_id(),
        data: Vec::new(),
    }];
    let result = validate(&shape, &supplied);
    assert!(matches!(result, Ok(ctx) if ctx.accounts.len() == 1));
}

#[test]
fn initialize_with_no_accounts_succeeds() {
    let mut accounts: Vec<AccountRef> = Vec::new();
    let result = dispatch("initialize", &mut accounts);
    assert!(matches!(result, Ok(())));
    assert!(accounts.is_empty());
}

#[test]
fn initialize_with_extra_account_is_a_shape_mismatch() {
    let mut accounts = vec![stray_account()];
    let result = dispatch("initialize", &mut accounts);
    assert!(matches!(
        result,
        Err(InvocationError::Context(ContextError::ShapeMismatch))
    ));
}

#[test]
fn unknown_selector_is_rejected() {
    let mut accounts: Vec<AccountRef> = Vec::new();
    let result = dispatch("foo", &mut accounts);
    assert!(matches!(
        result,
        Err(InvocationError::Dispatch(DispatchError::UnrecognizedInstruction))
    ));
}

#[test]
fn failed_dispatch_leaves_accounts_byte_identical() {
    let mut accounts = vec![stray_account()];
    let result = dispatch("initialize", &mut accounts);
    assert!(result.is_err());
    assert_eq!(accounts.len(), 1);
    assert_eq!(accounts[0].is_signer, false);
    assert_eq!(accounts[0].is_writable, false);
    assert_eq!(accounts[0].owner, vec![7u8; 32]);
    assert_eq!(accounts[0].data, vec![1u8, 2, 3]);
}

#[test]
fn successful_dispatch_leaves_accounts_byte_identical() {
    let mut accounts: Vec<AccountRef> = Vec::new();
    let result = dispatch("initialize", &mut accounts);
    assert!(result.is_ok());
    assert!(accounts.is_empty());
}
