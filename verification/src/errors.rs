use vstd::prelude::*;

verus! {

/// The recoverable failure of the token, handed back to the caller as a value.
#[derive(Clone, Copy, Debug, PartialEq, Eq, Structural)]
pub enum Sep0041Error {
    /// The amount to mint was zero or negative.
    InsufficientBalance,
}

impl Sep0041Error {
    /// The code under which the host reports this failure.
    pub fn code(&self) -> (code: u32)
        ensures
            code == 1,
    {
        1
    }
}

/// The recoverable failure of the payroll, handed back to the caller as a value.
#[derive(Clone, Copy, Debug, PartialEq, Eq, Structural)]
pub enum EmployeeContractError {
    /// The address has no employee record.
    NotAnEmployee,
}

impl EmployeeContractError {
    /// The code under which the host reports this failure.
    pub fn code(&self) -> (code: u32)
        ensures
            code == 1,
    {
        1
    }
}

/// Why an invocation has to be aborted.
///
/// A function of this library returns the reason, having written nothing, and the
/// contract entry point that called it aborts the transaction.
#[derive(Clone, Copy, Debug, PartialEq, Eq, Structural)]
pub enum Trap {
    /// The required address has not authorized the invocation. No function of this
    /// library returns this reason: the contract asks the host for the authorization
    /// before it calls the library, and the host ends an invocation that lacks it. The
    /// models of the two ledgers return it.
    Unauthorized,
    /// An amount was zero or negative.
    InvalidAmount,
    /// The lifetime of an approval, in seconds, does not exceed the ledger time.
    InvalidDeadline,
    /// The debited balance is smaller than the amount.
    InsufficientBalance,
    /// The total supply is smaller than the amount to burn.
    InsufficientSupply,
    /// The allowance is smaller than the amount.
    InsufficientAllowance,
    /// The ledger time is past the allowance's deadline.
    AllowanceExpired,
    /// A sum or difference leaves the range of its integer type.
    Overflow,
    /// An entry that the operation needs is not in storage.
    MissingEntry,
    /// A stored entry does not hold a value of the expected shape.
    MalformedEntry,
    /// The contract was constructed before.
    AlreadyInitialized,
    /// The address already has an employee record.
    AlreadyEmployee,
    /// The call into the token contract failed. No function of this library returns
    /// this reason: the contract makes the call, and the host ends an invocation whose
    /// call fails. The model of the payroll returns it.
    TokenCallFailed,
}

/// The words in which a trap is reported.
pub open spec fn trap_message(trap: Trap) -> Seq<char> {
    match trap {
        Trap::Unauthorized => "not authorized"@,
        Trap::InvalidAmount => "invalid amount"@,
        Trap::InvalidDeadline => "deadline is not after the ledger time"@,
        Trap::InsufficientBalance => "insufficient balance"@,
        Trap::InsufficientSupply => "insufficient supply"@,
        Trap::InsufficientAllowance => "insufficient allowance or exceed deadline"@,
        Trap::AllowanceExpired => "insufficient allowance or exceed deadline"@,
        Trap::Overflow => "arithmetic overflow"@,
        Trap::MissingEntry => "missing storage entry"@,
        Trap::MalformedEntry => "malformed storage entry"@,
        Trap::AlreadyInitialized => "already initialized"@,
        Trap::AlreadyEmployee => "already an employee"@,
        Trap::TokenCallFailed => "token call failed"@,
    }
}

impl Trap {
    /// The words in which the trap is reported to whoever reads the abort.
    pub fn message(&self) -> (text: &'static str)
        ensures
            text@ == trap_message(*self),
    {
        match self {
            Trap::Unauthorized => "not authorized",
            Trap::InvalidAmount => "invalid amount",
            Trap::InvalidDeadline => "deadline is not after the ledger time",
            Trap::InsufficientBalance => "insufficient balance",
            Trap::InsufficientSupply => "insufficient supply",
            Trap::InsufficientAllowance => "insufficient allowance or exceed deadline",
            Trap::AllowanceExpired => "insufficient allowance or exceed deadline",
            Trap::Overflow => "arithmetic overflow",
            Trap::MissingEntry => "missing storage entry",
            Trap::MalformedEntry => "malformed storage entry",
            Trap::AlreadyInitialized => "already initialized",
            Trap::AlreadyEmployee => "already an employee",
            Trap::TokenCallFailed => "token call failed",
        }
    }
}

/// Whether `trap` says that storage does not hold what an operation needs.
pub open spec fn is_storage_trap(trap: Trap) -> bool {
    trap == Trap::MissingEntry || trap == Trap::MalformedEntry
}

} // verus!
