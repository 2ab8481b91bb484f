use vstd::prelude::*;

use crate::accounts::{AccountRef, LamportTransfer};
use crate::constants::PROGRAM_ID;
use crate::error::{AccountError, ProcessError};
use crate::pubkey::Pubkey;
use crate::state::session_token::{
    light_address_seed,
    session_token_address_seed,
    session_token_seeds,
    spec_session_seeds,
    SessionToken,
};

verus! {

/// The accounts of the instruction that opens a session token. The token
/// itself is handed to the handler separately.
#[derive(Clone, Copy, Debug)]
pub struct CreateSessionToken {
    /// Pays for the token and for the top-up; must sign and be writable.
    pub payer: AccountRef,
    /// This program; must be it, and executable.
    pub self_program: AccountRef,
    pub cpi_signer: Pubkey,
    /// The key that the session delegates to; must sign and be writable.
    pub session_signer: AccountRef,
    /// The program the session is for; must be executable.
    pub target_program: AccountRef,
}

/// The account checks of token creation, in the order they are made: each
/// account's kind in field order (the payer signs, this program is this
/// program and executable, the session signer signs), then writability, then
/// the target program.
pub open spec fn spec_check_create_accounts(a: CreateSessionToken) -> Result<(), AccountError> {
    if !a.payer.is_signer {
        Err(AccountError::AccountNotSigner)
    } else if a.self_program.key@ != PROGRAM_ID@ {
        Err(AccountError::InvalidProgramId)
    } else if !a.self_program.executable {
        Err(AccountError::InvalidProgramExecutable)
    } else if !a.session_signer.is_signer {
        Err(AccountError::AccountNotSigner)
    } else if !a.payer.is_writable {
        Err(AccountError::ConstraintMut)
    } else if !a.session_signer.is_writable {
        Err(AccountError::ConstraintMut)
    } else if !a.target_program.executable {
        Err(AccountError::ConstraintExecutable)
    } else {
        Ok(())
    }
}

/// The token after the handler has filled it in: the payer becomes the
/// authority, the accounts give the target program and the session signer,
/// the expiry is the one asked for, and the status is left as it was.
pub open spec fn spec_filled_token(
    token: SessionToken,
    accounts: CreateSessionToken,
    valid_until: i64,
) -> SessionToken {
    SessionToken {
        authority: accounts.payer.key,
        target_program: accounts.target_program.key,
        session_signer: accounts.session_signer.key,
        valid_until: valid_until,
        account_status: token.account_status,
    }
}

/// The top-up that the handler asks for: from the payer to the session
/// signer, and only when the amount is positive.
pub open spec fn spec_top_up(accounts: CreateSessionToken, lamports: u64) -> Option<LamportTransfer> {
    if lamports > 0 {
        Some(
            LamportTransfer {
                from: accounts.payer.key,
                to: accounts.session_signer.key,
                lamports: lamports,
            },
        )
    } else {
        None
    }
}

impl CreateSessionToken {
    /// Checks the accounts before the handler runs.
    pub fn check_accounts(&self) -> (r: Result<(), ProcessError>)
        ensures
            match spec_check_create_accounts(*self) {
                Ok(()) => r matches Ok(()),
                Err(e) => r == Err::<(), ProcessError>(ProcessError::Account(e)),
            },
    {
        if !self.payer.is_signer {
            return Err(ProcessError::Account(AccountError::AccountNotSigner));
        }
        if !self.self_program.key.key_eq(&Pubkey::new_from_array(PROGRAM_ID)) {
            return Err(ProcessError::Account(AccountError::InvalidProgramId));
        }
        if !self.self_program.executable {
            return Err(ProcessError::Account(AccountError::InvalidProgramExecutable));
        }
        if !self.session_signer.is_signer {
            return Err(ProcessError::Account(AccountError::AccountNotSigner));
        }
        if !self.payer.is_writable {
            return Err(ProcessError::Account(AccountError::ConstraintMut));
        }
        if !self.session_signer.is_writable {
            return Err(ProcessError::Account(AccountError::ConstraintMut));
        }
        if !self.target_program.executable {
            return Err(ProcessError::Account(AccountError::ConstraintExecutable));
        }
        Ok(())
    }

    /// The seeds of the new token's address: the target program, the session
    /// signer and the payer, after the prefix.
    pub fn session_token_seeds(&self) -> (seeds: Vec<Vec<u8>>)
        ensures
            seeds.deep_view() == spec_session_seeds(
                self.target_program.key@,
                self.session_signer.key@,
                self.payer.key@,
            ),
    {
        session_token_seeds(&self.target_program.key, &self.session_signer.key, &self.payer.key)
    }

    /// The address seed of the new token under the program `program_id`.
    pub fn session_token_address_seed(&self, program_id: &Pubkey) -> (seed: [u8; 32])
        ensures
            seed@ == light_address_seed(
                spec_session_seeds(
                    self.target_program.key@,
                    self.session_signer.key@,
                    self.payer.key@,
                ),
                program_id@,
            ),
    {
        session_token_address_seed(
            program_id,
            &self.target_program.key,
            &self.session_signer.key,
            &self.payer.key,
        )
    }
}

/// Fills in a new session token and says which top-up, if any, must be
/// transferred from the payer to the session signer.
pub fn create_session_token_handler(
    accounts: &CreateSessionToken,
    session_token: &mut SessionToken,
    top_up_amount_lamports: u64,
    valid_until: i64,
) -> (transfer: Option<LamportTransfer>)
    ensures
        *final(session_token) == spec_filled_token(*old(session_token), *accounts, valid_until),
        transfer == spec_top_up(*accounts, top_up_amount_lamports),
{
    session_token.valid_until = valid_until;
    session_token.authority = accounts.payer.key;
    session_token.target_program = accounts.target_program.key;
    session_token.session_signer = accounts.session_signer.key;

    if top_up_amount_lamports > 0 {
        Some(
            LamportTransfer {
                from: accounts.payer.key,
                to: accounts.session_signer.key,
                lamports: top_up_amount_lamports,
            },
        )
    } else {
        None
    }
}

} // verus!
