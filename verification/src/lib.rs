//! A minimal on-chain program core: a fixed program identifier, a single
//! `initialize` instruction that touches no accounts and changes no state,
//! and the account-context validation that guards every instruction.

pub mod context;
pub mod dispatch;
pub mod identity;
