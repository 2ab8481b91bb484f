use vstd::prelude::*;

use crate::pubkey::Pubkey;

verus! {

/// An account handed to an instruction, as far as the instruction's checks
/// read it.
#[derive(Clone, Copy, Debug)]
pub struct AccountRef {
    pub key: Pubkey,
    pub is_signer: bool,
    pub is_writable: bool,
    pub executable: bool,
}

/// A movement of lamports that an instruction asks the system program to make.
#[derive(Clone, Copy, Debug)]
pub struct LamportTransfer {
    pub from: Pubkey,
    pub to: Pubkey,
    pub lamports: u64,
}

} // verus!
