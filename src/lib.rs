//! An escrow-mediated, open-ascending auction: the state machine that decides
//! each transition and the custody operations it issues, with the ledger
//! semantics those operations are proved against.

pub mod key;
pub mod error;
pub mod codec;
pub mod record;
pub mod layout;
pub mod instruction;
pub mod custody;
pub mod ledger;
pub mod machine;
pub mod processor;
pub mod guarantees;
