use vstd::prelude::*;


verus! {

/// The errors that the session program defines for itself.
#[derive(Clone, Copy, Debug, PartialEq, Eq, Structural)]
pub enum SessionError {
    ValidityTooLong,
    InvalidToken,
    NoToken,
    AccountStopped,
    Unauthorized,
}

/// The first code given to a program-defined error; later variants follow in order.
pub const ERROR_CODE_OFFSET: u32 = 6000;

/// Position of the variant in the declaration of `SessionError`.
pub open spec fn spec_error_index(e: SessionError) -> u32 {
    match e {
        SessionError::ValidityTooLong => 0,
        SessionError::InvalidToken => 1,
        SessionError::NoToken => 2,
        SessionError::AccountStopped => 3,
        SessionError::Unauthorized => 4,
    }
}

/// The human-readable message attached to each error.
pub open spec fn spec_error_message(e: SessionError) -> Seq<char> {
    match e {
        SessionError::ValidityTooLong => "Requested validity is too long"@,
        SessionError::InvalidToken => "Invalid session token"@,
        SessionError::NoToken => "No session token provided"@,
        SessionError::AccountStopped => "Account is stopped"@,
        SessionError::Unauthorized => "Unauthorized"@,
    }
}

impl SessionError {
    /// The numeric error code reported to clients: the offset plus the
    /// variant's position.
    pub fn code(&self) -> (c: u32)
        ensures
            c == ERROR_CODE_OFFSET + spec_error_index(*self),
    {
        match self {
            SessionError::ValidityTooLong => ERROR_CODE_OFFSET,
            SessionError::InvalidToken => ERROR_CODE_OFFSET + 1,
            SessionError::NoToken => ERROR_CODE_OFFSET + 2,
            SessionError::AccountStopped => ERROR_CODE_OFFSET + 3,
            SessionError::Unauthorized => ERROR_CODE_OFFSET + 4,
        }
    }

    /// The message shown for the error.
    pub fn message(&self) -> (m: &'static str)
        ensures
            m@ == spec_error_message(*self),
    {
        match self {
            SessionError::ValidityTooLong => "Requested validity is too long",
            SessionError::InvalidToken => "Invalid session token",
            SessionError::NoToken => "No session token provided",
            SessionError::AccountStopped => "Account is stopped",
            SessionError::Unauthorized => "Unauthorized",
        }
    }
}

/// Why an account handed to an instruction was refused before its handler ran.
#[derive(Clone, Copy, Debug, PartialEq, Eq, Structural)]
pub enum AccountError {
    /// The account given as this program is another account.
    InvalidProgramId,
    /// The account given as this program is not executable.
    InvalidProgramExecutable,
    /// An account that must sign the transaction did not.
    AccountNotSigner,
    /// An account that must be writable was not.
    ConstraintMut,
    /// An account that must hold a program was not executable.
    ConstraintExecutable,
}

/// Everything an instruction of the program can fail with.
#[derive(Debug)]
pub enum ProcessError {
    /// One of the program's own errors.
    Session(SessionError),
    /// An account constraint failed.
    Account(AccountError),
    /// The runtime refused to hand out the clock.
    Clock(anchor_lang::prelude::ProgramError),
    /// The default expiry time does not fit in an `i64`.
    ArithmeticOverflow,
}

} // verus!
