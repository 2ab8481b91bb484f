//! Session tokens: a payer delegates to a session signer the right to act
//! against one target program until an expiry time.
//!
//! The accounts, the token and the instructions are modelled with plain
//! values; reading the clock goes through the runtime, and the lamport
//! top-up is handed back as a transfer for the caller to make.

pub mod accounts;
pub mod clock;
pub mod constants;
pub mod error;
pub mod laws;
pub mod processor;
pub mod program;
pub mod pubkey;
pub mod state;

pub use accounts::{AccountRef, LamportTransfer};
pub use constants::{DEFAULT_TOKEN_EXPIRATION_SECONDS, PROGRAM_ID};
pub use error::{AccountError, ProcessError, SessionError, ERROR_CODE_OFFSET};
pub use processor::create_session::{create_session_token_handler, CreateSessionToken};
pub use processor::revoke_session::{revoke_session_token_handler, RevokeSessionToken};
pub use program::{
    create_session, create_session_at, create_session_with_clock, create_session_with_time,
    revoke_session,
};
pub use pubkey::Pubkey;
pub use state::session_token::{
    session_token_address_seed, session_token_seeds, AccountStatus, SessionToken, ValidityChecker,
    SEED_PREFIX,
};
