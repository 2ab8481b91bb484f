use vstd::prelude::*;

use crate::accounts::AccountRef;
use crate::constants::PROGRAM_ID;
use crate::error::{AccountError, ProcessError, SessionError};
use crate::pubkey::Pubkey;
use crate::state::session_token::{
    light_address_seed,
    session_token_address_seed,
    spec_session_seeds,
    SessionToken,
};

verus! {

/// The accounts of the instruction that revokes (closes) a session token.
#[derive(Clone, Copy, Debug)]
pub struct RevokeSessionToken {
    /// Must sign, be writable and be the token's authority.
    pub payer: AccountRef,
    /// This program; must be it, and executable.
    pub self_program: AccountRef,
    pub cpi_signer: Pubkey,
    /// The token being closed.
    pub session_token: SessionToken,
}

/// The account checks of revocation, in the order they are made: the payer
/// must sign, this program must be this program and executable, the payer
/// must be writable, and only the token's authority may revoke it.
pub open spec fn spec_check_revoke_accounts(a: RevokeSessionToken) -> Result<(), ProcessError> {
    if !a.payer.is_signer {
        Err(ProcessError::Account(AccountError::AccountNotSigner))
    } else if a.self_program.key@ != PROGRAM_ID@ {
        Err(ProcessError::Account(AccountError::InvalidProgramId))
    } else if !a.self_program.executable {
        Err(ProcessError::Account(AccountError::InvalidProgramExecutable))
    } else if !a.payer.is_writable {
        Err(ProcessError::Account(AccountError::ConstraintMut))
    } else if a.session_token.authority@ != a.payer.key@ {
        Err(ProcessError::Session(SessionError::Unauthorized))
    } else {
        Ok(())
    }
}

impl RevokeSessionToken {
    /// Checks the accounts before the handler runs.
    pub fn check_accounts(&self) -> (r: Result<(), ProcessError>)
        ensures
            r == spec_check_revoke_accounts(*self),
    {
        if !self.payer.is_signer {
            return Err(ProcessError::Account(AccountError::AccountNotSigner));
        }
        if !self.self_program.key.key_eq(&Pubkey::new_from_array(PROGRAM_ID)) {
            return Err(ProcessError::Account(AccountError::InvalidProgramId));
        }
        if !self.self_program.executable {
            return Err(ProcessError::Account(AccountError::InvalidProgramExecutable));
        }
        if !self.payer.is_writable {
            return Err(ProcessError::Account(AccountError::ConstraintMut));
        }
        if !self.session_token.authority.key_eq(&self.payer.key) {
            return Err(ProcessError::Session(SessionError::Unauthorized));
        }
        Ok(())
    }

    /// The seeds of the revoked token's address, read from the token itself.
    pub fn session_token_seeds(&self) -> (seeds: Vec<Vec<u8>>)
        ensures
            seeds.deep_view() == spec_session_seeds(
                self.session_token.target_program@,
                self.session_token.session_signer@,
                self.session_token.authority@,
            ),
    {
        self.session_token.address_seeds()
    }

    /// The address seed of the revoked token under the program `program_id`,
    /// read from the token itself.
    pub fn session_token_address_seed(&self, program_id: &Pubkey) -> (seed: [u8; 32])
        ensures
            seed@ == light_address_seed(
                spec_session_seeds(
                    self.session_token.target_program@,
                    self.session_token.session_signer@,
                    self.session_token.authority@,
                ),
                program_id@,
            ),
    {
        session_token_address_seed(
            program_id,
            &self.session_token.target_program,
            &self.session_token.session_signer,
            &self.session_token.authority,
        )
    }
}

/// Revocation has nothing to do once its accounts are accepted: closing the
/// token is the whole effect.
pub fn revoke_session_token_handler(_accounts: &RevokeSessionToken) -> (r: Result<(), ProcessError>)
    ensures
        r == Ok::<(), ProcessError>(()),
{
    Ok(())
}

} // verus!
