use vstd::prelude::*;

use crate::accounts::LamportTransfer;
use crate::clock::current_unix_timestamp;
use crate::constants::DEFAULT_TOKEN_EXPIRATION_SECONDS;
use crate::error::ProcessError;
use crate::processor::create_session::{
    create_session_token_handler,
    spec_check_create_accounts,
    spec_filled_token,
    spec_top_up,
    CreateSessionToken,
};
use crate::processor::revoke_session::{
    revoke_session_token_handler,
    spec_check_revoke_accounts,
    RevokeSessionToken,
};
use crate::state::session_token::SessionToken;

verus! {

/// The expiry of a new token: the one asked for, or `now` plus the default
/// validity.
pub open spec fn spec_session_expiry(valid_until: Option<i64>, now: i64) -> int {
    match valid_until {
        Some(v) => v as int,
        None => now + DEFAULT_TOKEN_EXPIRATION_SECONDS,
    }
}

/// The top-up of a new token: the amount asked for, or none.
pub open spec fn spec_top_up_amount(top_up_amount_lamports: Option<u64>) -> u64 {
    match top_up_amount_lamports {
        Some(a) => a,
        None => 0,
    }
}

/// Opens a session token at time `now`. The default expiry is computed
/// whether or not an expiry was given, so `now` plus the default must fit in
/// an `i64`. The accounts are not checked here: `create_session_with_time`
/// checks them first.
pub fn create_session_at(
    accounts: &CreateSessionToken,
    session_token: &mut SessionToken,
    top_up_amount_lamports: Option<u64>,
    valid_until: Option<i64>,
    now: i64,
) -> (transfer: Option<LamportTransfer>)
    requires
        now + DEFAULT_TOKEN_EXPIRATION_SECONDS <= i64::MAX,
    ensures
        *final(session_token) == spec_filled_token(
            *old(session_token),
            *accounts,
            spec_session_expiry(valid_until, now) as i64,
        ),
        transfer == spec_top_up(*accounts, spec_top_up_amount(top_up_amount_lamports)),
{
    let top_up: u64 = match top_up_amount_lamports {
        Some(a) => a,
        None => 0,
    };
    let default_expiry: i64 = now + DEFAULT_TOKEN_EXPIRATION_SECONDS;
    let expiry: i64 = match valid_until {
        Some(v) => v,
        None => default_expiry,
    };
    create_session_token_handler(accounts, session_token, top_up, expiry)
}

/// The token after a successful opening at `now`.
pub open spec fn spec_created_token(
    token: SessionToken,
    accounts: CreateSessionToken,
    valid_until: Option<i64>,
    now: i64,
) -> SessionToken {
    spec_filled_token(token, accounts, spec_session_expiry(valid_until, now) as i64)
}

/// What opening a token at `now` answers: the accounts' refusal if they fail
/// their checks; `ArithmeticOverflow` if `now` plus the default validity does
/// not fit in an `i64` (it is computed even when an expiry is given);
/// otherwise the top-up to make.
pub open spec fn spec_create_result(
    accounts: CreateSessionToken,
    top_up_amount_lamports: Option<u64>,
    now: i64,
) -> Result<Option<LamportTransfer>, ProcessError> {
    match spec_check_create_accounts(accounts) {
        Err(e) => Err(ProcessError::Account(e)),
        Ok(()) => if now > i64::MAX - DEFAULT_TOKEN_EXPIRATION_SECONDS {
            Err(ProcessError::ArithmeticOverflow)
        } else {
            Ok(spec_top_up(accounts, spec_top_up_amount(top_up_amount_lamports)))
        },
    }
}

/// What opening a token answers for a reading of the clock: the accounts'
/// refusal first, then the clock's error, then what opening at the time read
/// answers.
pub open spec fn spec_create_result_with_clock(
    accounts: CreateSessionToken,
    top_up_amount_lamports: Option<u64>,
    clock: Result<i64, anchor_lang::prelude::ProgramError>,
) -> Result<Option<LamportTransfer>, ProcessError> {
    match spec_check_create_accounts(accounts) {
        Err(e) => Err(ProcessError::Account(e)),
        Ok(()) => match clock {
            Err(e) => Err(ProcessError::Clock(e)),
            Ok(now) => spec_create_result(accounts, top_up_amount_lamports, now),
        },
    }
}

/// The whole `create_session` instruction at time `now`: checks the
/// accounts, computes the default expiry, and fills the token. On an error
/// the token is left as it was.
pub fn create_session_with_time(
    accounts: &CreateSessionToken,
    session_token: &mut SessionToken,
    top_up_amount_lamports: Option<u64>,
    valid_until: Option<i64>,
    now: i64,
) -> (r: Result<Option<LamportTransfer>, ProcessError>)
    ensures
        r == spec_create_result(*accounts, top_up_amount_lamports, now),
        r is Err ==> *final(session_token) == *old(session_token),
        r is Ok ==> *final(session_token) == spec_created_token(
            *old(session_token),
            *accounts,
            valid_until,
            now,
        ),
{
    match accounts.check_accounts() {
        Err(e) => return Err(e),
        Ok(()) => {},
    }
    if now > i64::MAX - DEFAULT_TOKEN_EXPIRATION_SECONDS {
        return Err(ProcessError::ArithmeticOverflow);
    }
    Ok(create_session_at(accounts, session_token, top_up_amount_lamports, valid_until, now))
}

/// The whole `create_session` instruction for a reading of the clock: the
/// accounts are checked first, then the clock's error is passed on, then the
/// token is opened at the time read.
pub fn create_session_with_clock(
    accounts: &CreateSessionToken,
    session_token: &mut SessionToken,
    top_up_amount_lamports: Option<u64>,
    valid_until: Option<i64>,
    clock: Result<i64, anchor_lang::prelude::ProgramError>,
) -> (r: Result<Option<LamportTransfer>, ProcessError>)
    ensures
        r == spec_create_result_with_clock(*accounts, top_up_amount_lamports, clock),
        r is Err ==> *final(session_token) == *old(session_token),
        clock matches Ok(now) ==> (r is Ok ==> *final(session_token) == spec_created_token(
            *old(session_token),
            *accounts,
            valid_until,
            now,
        )),
{
    match accounts.check_accounts() {
        Err(e) => return Err(e),
        Ok(()) => {},
    }
    match clock {
        Err(e) => Err(ProcessError::Clock(e)),
        Ok(now) => create_session_with_time(
            accounts,
            session_token,
            top_up_amount_lamports,
            valid_until,
            now,
        ),
    }
}

/// The `create_session` instruction: refuses accounts that fail their checks
/// before reading the clock; then fails, leaving the token as it was, when
/// the clock cannot be read or the default expiry would not fit in an `i64`;
/// otherwise fills the token in as `create_session_at` does at the time read.
pub fn create_session(
    accounts: &CreateSessionToken,
    session_token: &mut SessionToken,
    top_up_amount_lamports: Option<u64>,
    valid_until: Option<i64>,
) -> (r: Result<Option<LamportTransfer>, ProcessError>)
    ensures
        spec_check_create_accounts(*accounts) matches Err(e) ==> r == Err::<
            Option<LamportTransfer>,
            ProcessError,
        >(ProcessError::Account(e)),
        r is Err ==> *final(session_token) == *old(session_token),
        spec_check_create_accounts(*accounts) is Ok ==> (r is Err ==> (r matches Err(
            ProcessError::Clock(_),
        ) || r matches Err(ProcessError::ArithmeticOverflow))),
        r matches Ok(transfer) ==> exists|now: i64|
            #![trigger spec_created_token(*old(session_token), *accounts, valid_until, now)]
            {
                &&& now <= i64::MAX - DEFAULT_TOKEN_EXPIRATION_SECONDS
                &&& *final(session_token) == spec_created_token(
                    *old(session_token),
                    *accounts,
                    valid_until,
                    now,
                )
            },
        r matches Ok(transfer) ==> transfer == spec_top_up(
            *accounts,
            spec_top_up_amount(top_up_amount_lamports),
        ),
        r is Ok ==> (valid_until matches Some(v) ==> final(session_token).valid_until == v),
{
    match accounts.check_accounts() {
        Err(e) => return Err(e),
        Ok(()) => {},
    }
    let clock = current_unix_timestamp();
    let ghost reading = clock;
    let r = create_session_with_clock(
        accounts,
        session_token,
        top_up_amount_lamports,
        valid_until,
        clock,
    );
    proof {
        if let Ok(now) = reading {
            if r is Ok {
                assert(*final(session_token) == spec_created_token(
                    *old(session_token),
                    *accounts,
                    valid_until,
                    now,
                ));
            }
        }
    }
    r
}

/// The `revoke_session` instruction: the accounts are checked (the payer must
/// sign, be writable and be the token's authority); once they pass, closing
/// the token is the whole effect.
pub fn revoke_session(accounts: &RevokeSessionToken) -> (r: Result<(), ProcessError>)
    ensures
        r == spec_check_revoke_accounts(*accounts),
{
    match accounts.check_accounts() {
        Err(e) => return Err(e),
        Ok(()) => {},
    }
    revoke_session_token_handler(accounts)
}

} // verus!
