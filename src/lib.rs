//! A time-locked custody vault: deposits are moved into a holding account
//! controlled by a program-derived address, recorded with an unlock time, and
//! released exactly once to the recorded receiver after that time.
//!
//! Every instruction is a transition over snapshots of the accounts it is
//! given, stated as an error check (`*_error`) and an effect (`*_effect`).

pub mod address;
pub mod pda;
pub mod state;
pub mod ledger;
pub mod vault;
pub mod lockup;
pub mod release;
pub mod laws;
