//! Sierra: a typed, register-machine-like intermediate representation.
//!
//! The crate holds the program model, the catalog of instruction and type
//! families with their specialization, an interpreter, and two static
//! analyses: the change of the allocation pointer per instruction and branch,
//! and the variables that must be alive when a statement is entered.

pub mod ap_change;
pub mod big_value;
pub mod dup_and_ignore;
pub mod edit_state;
pub mod extensions;
pub mod ids;
pub mod ordered_var_set;
pub mod pre_sierra;
pub mod program;
pub mod simulation;
