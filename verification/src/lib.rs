//! A fungible token with allowances that expire, and a payroll that pays employees
//! out of its owner's allowance on that token, as two contracts for the Soroban host.
//!
//! The library is the part of the two contracts that computes. A contract's entry
//! point asks the host for the authorization that the operation needs, reads the
//! entries that the operation touches, calls the library, and does what the library
//! returns: it writes each value under the key that comes with it, makes the call
//! into the token, publishes the event. Where an operation cannot go on, the library
//! returns a `Trap`, and the contract aborts the invocation.
//!
//! - `token_rules` and `payroll_rules` hold the arithmetic: plain numbers in, plain
//!   numbers out, each function proved to compute its specification.
//! - `token_steps` and `payroll_steps` hold one decision for each entry point: from
//!   the arguments and the entries that were read to every value that is written,
//!   together with the key that it goes under, the event that is published and the
//!   call that is made. Each is proved to compute its specification.
//! - `token` and `payroll` hold the entry points by their names, each with the
//!   specification of its step as its contract, and the keys of the two storages.
//! - `token_model` and `payroll_model` describe the two ledgers as mathematical values
//!   and every entry point as a transition that applies the specification of its step;
//!   `token_laws` and `payroll_laws` prove what holds of those transitions.
//! - `events` publishes the payroll's events.
//! - `host` is the boundary to `soroban_sdk`; nothing in it is proved.
pub mod errors;
pub mod events;
pub mod host;
pub mod ledger_sum;
pub mod payroll;
pub mod payroll_laws;
pub mod payroll_model;
pub mod payroll_rules;
pub mod payroll_steps;
pub mod storage;
pub mod token;
pub mod token_laws;
pub mod token_model;
pub mod token_rules;
pub mod token_steps;

pub use errors::EmployeeContractError;
pub use errors::Sep0041Error;
pub use errors::Trap;
pub use events::emit_employee_paid;
pub use events::emit_employee_suspended;
pub use events::emit_remove_employee;
pub use events::Approve;
pub use events::EmployeePaid;
pub use events::EmployeeRemoved;
pub use events::EmployeeSuspended;
pub use payroll::Employee;
pub use payroll::EmployeeContract;
pub use payroll_rules::Rank;
pub use token::ISep0041;
pub use token::Sep0041;
pub use token_rules::AllowanaceDetails;
