use vstd::prelude::*;

use crate::clock::current_unix_timestamp;
use crate::error::{ProcessError, SessionError};
use crate::pubkey::Pubkey;
use vstd::string::StringSliceAdditionalSpecFns;

verus! {

/// Whether a session token may still be used.
#[derive(Clone, Copy, Debug, PartialEq, Eq, Structural)]
pub enum AccountStatus {
    Active,
    Stopped,
}

/// The tag that names each status in the serialized form: its position in
/// the declaration.
pub open spec fn spec_status_tag(status: AccountStatus) -> u8 {
    match status {
        AccountStatus::Active => 0,
        AccountStatus::Stopped => 1,
    }
}

/// Serializes one byte with borsh (`borsh::to_vec` on a `u8`). The crate's
/// `impl BorshSerialize for u8` writes exactly that byte, and writing into a
/// `Vec` cannot fail, so the result is the one-byte sequence.
#[verifier::external_body]
fn borsh_byte(tag: u8) -> (bytes: Vec<u8>)
    ensures
        bytes@ == seq![tag],
{
    borsh::to_vec(&tag).unwrap()
}

impl AccountStatus {
    /// The tag written for this status when it is serialized.
    pub fn tag(&self) -> (t: u8)
        ensures
            t == spec_status_tag(*self),
    {
        match self {
            AccountStatus::Active => 0,
            AccountStatus::Stopped => 1,
        }
    }

    /// The status as the list of byte strings that is hashed into the
    /// account: a single entry, the borsh encoding of the status.
    pub fn as_byte_vec(&self) -> (v: Vec<Vec<u8>>)
        ensures
            v@.len() == 1,
            v@[0]@ == seq![spec_status_tag(*self)],
    {
        let bytes = borsh_byte(self.tag());
        let mut v: Vec<Vec<u8>> = Vec::new();
        v.push(bytes);
        v
    }
}

impl Default for AccountStatus {
    /// A new token is active.
    fn default() -> (s: AccountStatus)
        ensures
            s == AccountStatus::Active,
    {
        AccountStatus::Active
    }
}

/// Lets `session_signer` act for `authority` against `target_program` until
/// `valid_until` (a unix timestamp, exclusive), while the status is active.
#[derive(Clone, Copy, Debug)]
pub struct SessionToken {
    pub authority: Pubkey,
    pub target_program: Pubkey,
    pub session_signer: Pubkey,
    pub valid_until: i64,
    pub account_status: AccountStatus,
}

/// The text that starts the address seeds of every session token.
pub const SEED_PREFIX: &'static str = "lux_session_token";

/// What `validate` answers for a token at time `now`.
pub open spec fn spec_validate(token: SessionToken, now: i64) -> Result<bool, SessionError> {
    if token.account_status == AccountStatus::Stopped {
        Err(SessionError::AccountStopped)
    } else {
        Ok(now < token.valid_until)
    }
}

/// The seeds of a session token's address: the prefix, then the target
/// program, the session signer and the authority.
pub open spec fn spec_session_seeds(
    target_program: Seq<u8>,
    session_signer: Seq<u8>,
    authority: Seq<u8>,
) -> Seq<Seq<u8>> {
    seq![SEED_PREFIX.spec_bytes(), target_program, session_signer, authority]
}

impl Default for SessionToken {
    /// All keys zero, expiry at time zero, active.
    fn default() -> (t: SessionToken)
        ensures
            t.authority@ == Seq::new(32, |i: int| 0u8),
            t.target_program@ == Seq::new(32, |i: int| 0u8),
            t.session_signer@ == Seq::new(32, |i: int| 0u8),
            t.valid_until == 0,
            t.account_status == AccountStatus::Active,
    {
        SessionToken {
            authority: Pubkey::default_key(),
            target_program: Pubkey::default_key(),
            session_signer: Pubkey::default_key(),
            valid_until: 0,
            account_status: AccountStatus::default(),
        }
    }
}

/// Whether `token` is still in time at `now`: `now` is before its expiry.
pub open spec fn spec_in_time(token: SessionToken, now: i64) -> bool {
    now < token.valid_until
}

/// What a token answers for a reading of the clock: whether the time read is
/// before its expiry, or the clock's error.
pub open spec fn spec_in_time_with_clock(
    token: SessionToken,
    clock: Result<i64, anchor_lang::prelude::ProgramError>,
) -> Result<bool, ProcessError> {
    match clock {
        Ok(now) => Ok(spec_in_time(token, now)),
        Err(e) => Err(ProcessError::Clock(e)),
    }
}

/// What `validate` answers for a reading of the clock: a stopped token is
/// refused whatever the clock says; an active one gets whether the time read
/// is before its expiry, or the clock's error.
pub open spec fn spec_validate_with_clock(
    token: SessionToken,
    clock: Result<i64, anchor_lang::prelude::ProgramError>,
) -> Result<bool, ProcessError> {
    if token.account_status == AccountStatus::Stopped {
        Err(ProcessError::Session(SessionError::AccountStopped))
    } else {
        spec_in_time_with_clock(token, clock)
    }
}

impl SessionToken {
    /// Whether the token is still in time at `now`: true exactly when `now`
    /// is before `valid_until`.
    pub fn in_time_at(&self, now: i64) -> (in_time: bool)
        ensures
            in_time == spec_in_time(*self, now),
    {
        now < self.valid_until
    }

    /// Whether the token is still in time for a reading of the clock, or the
    /// clock's error.
    pub fn is_expired_with_clock(
        &self,
        clock: Result<i64, anchor_lang::prelude::ProgramError>,
    ) -> (r: Result<bool, ProcessError>)
        ensures
            r == spec_in_time_with_clock(*self, clock),
    {
        match clock {
            Ok(now) => Ok(self.in_time_at(now)),
            Err(e) => Err(ProcessError::Clock(e)),
        }
    }

    /// Reads the clock and tells whether the token is still in time:
    /// `Ok(true)` means the token has not yet expired (the current time is
    /// before `valid_until`), `Ok(false)` that it has. Fails only when the
    /// clock cannot be read.
    pub fn is_expired(&self) -> (r: Result<bool, ProcessError>)
        ensures
            r is Err ==> r matches Err(ProcessError::Clock(_)),
            r matches Ok(in_time) ==> exists|now: i64| #[trigger] spec_in_time(*self, now) == in_time,
    {
        let clock = current_unix_timestamp();
        let ghost reading = clock;
        let r = self.is_expired_with_clock(clock);
        proof {
            if let Ok(now) = reading {
                assert(spec_in_time(*self, now) == r->Ok_0);
            }
        }
        r
    }

    /// Validates the token at time `now`: a stopped token is refused with
    /// `AccountStopped`; otherwise the answer is whether it is still in time.
    pub fn validate_at(&self, now: i64) -> (r: Result<bool, SessionError>)
        ensures
            r == spec_validate(*self, now),
    {
        if self.account_status == AccountStatus::Stopped {
            return Err(SessionError::AccountStopped);
        }
        Ok(self.in_time_at(now))
    }

    /// Validates the token for a reading of the clock: a stopped token is
    /// refused with `AccountStopped`; an active one gets `validate_at` of the
    /// time read, or the clock's error.
    pub fn validate_with_clock(
        &self,
        clock: Result<i64, anchor_lang::prelude::ProgramError>,
    ) -> (r: Result<bool, ProcessError>)
        ensures
            r == spec_validate_with_clock(*self, clock),
            clock matches Ok(now) ==> (r matches Ok(b) ==> spec_validate(*self, now) == Ok::<
                bool,
                SessionError,
            >(b)),
    {
        if self.account_status == AccountStatus::Stopped {
            return Err(ProcessError::Session(SessionError::AccountStopped));
        }
        match clock {
            Ok(now) => match self.validate_at(now) {
                Ok(b) => Ok(b),
                Err(e) => Err(ProcessError::Session(e)),
            },
            Err(e) => Err(ProcessError::Clock(e)),
        }
    }

    /// Validates the token against the clock. A stopped token is refused with
    /// `AccountStopped` before the clock is read; an active one gets whether
    /// the current time is before `valid_until`, or the clock's error.
    pub fn validate(&self, _checker: &ValidityChecker) -> (r: Result<bool, ProcessError>)
        ensures
            self.account_status == AccountStatus::Stopped ==> r matches Err(
                ProcessError::Session(SessionError::AccountStopped),
            ),
            self.account_status == AccountStatus::Active ==> (r matches Ok(_) || r matches Err(
                ProcessError::Clock(_),
            )),
            r matches Ok(b) ==> exists|now: i64| #[trigger] spec_validate(*self, now) == Ok::<
                bool,
                SessionError,
            >(b),
    {
        if self.account_status == AccountStatus::Stopped {
            return Err(ProcessError::Session(SessionError::AccountStopped));
        }
        let clock = current_unix_timestamp();
        let ghost reading = clock;
        let r = self.validate_with_clock(clock);
        proof {
            if let Ok(now) = reading {
                if let Ok(b) = r {
                    assert(spec_validate(*self, now) == Ok::<bool, SessionError>(b));
                }
            }
        }
        r
    }

    /// The seeds of this token's address, from its own fields.
    pub fn address_seeds(&self) -> (seeds: Vec<Vec<u8>>)
        ensures
            seeds.deep_view() == spec_session_seeds(
                self.target_program@,
                self.session_signer@,
                self.authority@,
            ),
    {
        session_token_seeds(&self.target_program, &self.session_signer, &self.authority)
    }
}

/// The seeds of the address of the session token that `authority` opens for
/// `session_signer` on `target_program`.
pub fn session_token_seeds(target_program: &Pubkey, session_signer: &Pubkey, authority: &Pubkey) -> (seeds: Vec<Vec<u8>>)
    ensures
        seeds.deep_view() == spec_session_seeds(target_program@, session_signer@, authority@),
{
    let mut seeds: Vec<Vec<u8>> = Vec::new();
    seeds.push(vstd::slice::slice_to_vec(SEED_PREFIX.as_bytes()));
    seeds.push(vstd::slice::slice_to_vec(target_program.bytes.as_slice()));
    seeds.push(vstd::slice::slice_to_vec(session_signer.bytes.as_slice()));
    seeds.push(vstd::slice::slice_to_vec(authority.bytes.as_slice()));
    assert(seeds.deep_view() =~~= spec_session_seeds(target_program@, session_signer@, authority@));
    seeds
}

/// The address seed that Light Protocol derives for a compressed account from
/// the account's seeds and the program that owns it.
pub uninterp spec fn light_address_seed(seeds: Seq<Seq<u8>>, program_id: Seq<u8>) -> Seq<u8>;

/// Calls `light_sdk::address::derive_address_seed`, which hashes the program
/// id followed by the seeds (keccak, cut to the BN254 field). Claimed: the
/// 32-byte result is `light_address_seed` of the seeds and the program id, so
/// equal inputs give equal addresses; nothing is claimed of the hash itself.
#[verifier::external_body]
fn derive_address_seed(seeds: &Vec<Vec<u8>>, program_id: &Pubkey) -> (seed: [u8; 32])
    ensures
        seed@ == light_address_seed(seeds.deep_view(), program_id@),
{
    let slices: Vec<&[u8]> = seeds.iter().map(|s| s.as_slice()).collect();
    let owner = anchor_lang::prelude::Pubkey::new_from_array(program_id.bytes);
    light_sdk::address::derive_address_seed(&slices, &owner)
}

/// The address seed of the session token that `authority` opens for
/// `session_signer` on `target_program`, under the program `program_id`.
pub fn session_token_address_seed(
    program_id: &Pubkey,
    target_program: &Pubkey,
    session_signer: &Pubkey,
    authority: &Pubkey,
) -> (seed: [u8; 32])
    ensures
        seed@ == light_address_seed(
            spec_session_seeds(target_program@, session_signer@, authority@),
            program_id@,
        ),
{
    let seeds = session_token_seeds(target_program, session_signer, authority);
    derive_address_seed(&seeds, program_id)
}

/// The accounts against which a session token is checked.
pub struct ValidityChecker {
    pub session_token: SessionToken,
    pub session_signer: Pubkey,
    pub authority: Pubkey,
    pub target_program: Pubkey,
}

} // verus!
