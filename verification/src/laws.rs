use vstd::prelude::*;

use crate::constants::{DEFAULT_TOKEN_EXPIRATION_SECONDS, PROGRAM_ID};
use crate::error::{spec_error_index, ProcessError, SessionError, ERROR_CODE_OFFSET};
use crate::accounts::LamportTransfer;
use vstd::string::StringSliceAdditionalSpecFns;
use crate::processor::create_session::{
    spec_check_create_accounts,
    spec_filled_token,
    spec_top_up,
    CreateSessionToken,
};
use crate::processor::revoke_session::{spec_check_revoke_accounts, RevokeSessionToken};
use crate::program::{
    spec_create_result,
    spec_create_result_with_clock,
    spec_created_token,
    spec_session_expiry,
};
use crate::state::session_token::{
    light_address_seed,
    spec_session_seeds,
    SEED_PREFIX,
    spec_status_tag,
    spec_validate,
    spec_validate_with_clock,
    AccountStatus,
    SessionToken,
};

verus! {

/// Only the payer who opened a session token can revoke it: with a payer that
/// signs and is writable, and this program given as itself, revocation of a
/// freshly filled token is accepted exactly when the payer is the one who
/// created it, and is otherwise refused as `Unauthorized`.
pub proof fn lemma_only_creator_revokes(
    create: CreateSessionToken,
    token: SessionToken,
    valid_until: i64,
    revoke: RevokeSessionToken,
)
    requires
        revoke.session_token == spec_filled_token(token, create, valid_until),
        revoke.payer.is_signer,
        revoke.payer.is_writable,
        revoke.self_program.key@ == PROGRAM_ID@,
        revoke.self_program.executable,
    ensures
        spec_check_revoke_accounts(revoke) is Ok <==> revoke.payer.key@ == create.payer.key@,
        revoke.payer.key@ != create.payer.key@ ==> spec_check_revoke_accounts(revoke) == Err::<
            (),
            ProcessError,
        >(ProcessError::Session(SessionError::Unauthorized)),
{
}

/// A token opened by `create_session` can be revoked by its creator: when
/// opening at `now` succeeds, revoking the token it filled, with the same
/// payer signing and writable and this program given as itself, is accepted.
pub proof fn lemma_create_then_revoke(
    create: CreateSessionToken,
    token: SessionToken,
    top_up_amount_lamports: Option<u64>,
    valid_until: Option<i64>,
    now: i64,
    revoke: RevokeSessionToken,
)
    requires
        spec_create_result(create, top_up_amount_lamports, now) is Ok,
        revoke.session_token == spec_created_token(token, create, valid_until, now),
        revoke.payer.key@ == create.payer.key@,
        revoke.payer.is_signer,
        revoke.payer.is_writable,
        revoke.self_program.key@ == PROGRAM_ID@,
        revoke.self_program.executable,
    ensures
        spec_check_revoke_accounts(revoke) == Ok::<(), ProcessError>(()),
{
}

/// Tokens of the same authority, target program and session signer lie at the
/// same address under any owning program; the address tree, which holds at
/// most one account per address, thus holds at most one live token for them.
pub proof fn lemma_same_parties_same_address(
    first: SessionToken,
    second: SessionToken,
    program_id: Seq<u8>,
)
    requires
        first.authority@ == second.authority@,
        first.target_program@ == second.target_program@,
        first.session_signer@ == second.session_signer@,
    ensures
        light_address_seed(
            spec_session_seeds(first.target_program@, first.session_signer@, first.authority@),
            program_id,
        ) == light_address_seed(
            spec_session_seeds(second.target_program@, second.session_signer@, second.authority@),
            program_id,
        ),
{
}

/// Expiry is final for `validate` too: of two clock readings, if the later
/// one finds the token valid so does the earlier, and if the earlier finds it
/// expired so does the later.
pub proof fn lemma_validate_expiry_is_final(token: SessionToken, earlier: i64, later: i64)
    requires
        earlier <= later,
    ensures
        spec_validate_with_clock(token, Ok(later)) == Ok::<bool, ProcessError>(true)
            ==> spec_validate_with_clock(token, Ok(earlier)) == Ok::<bool, ProcessError>(true),
        spec_validate_with_clock(token, Ok(earlier)) == Ok::<bool, ProcessError>(false)
            ==> spec_validate_with_clock(token, Ok(later)) == Ok::<bool, ProcessError>(false),
{
}

/// Revocation finds the token where creation put it: the address seeds read
/// from a filled token are the seeds that creation derived from its accounts.
pub proof fn lemma_revoke_seeds_match_create(
    create: CreateSessionToken,
    token: SessionToken,
    valid_until: i64,
)
    ensures
        ({
            let filled = spec_filled_token(token, create, valid_until);
            spec_session_seeds(filled.target_program@, filled.session_signer@, filled.authority@)
                == spec_session_seeds(
                create.target_program.key@,
                create.session_signer.key@,
                create.payer.key@,
            )
        }),
{
}

/// Revocation closes the account that creation opened: under any owning
/// program, the address derived from a filled token is the address that
/// creation derived from its accounts.
pub proof fn lemma_revoke_address_matches_create(
    create: CreateSessionToken,
    token: SessionToken,
    valid_until: i64,
    program_id: Seq<u8>,
)
    ensures
        ({
            let filled = spec_filled_token(token, create, valid_until);
            light_address_seed(
                spec_session_seeds(
                    filled.target_program@,
                    filled.session_signer@,
                    filled.authority@,
                ),
                program_id,
            ) == light_address_seed(
                spec_session_seeds(
                    create.target_program.key@,
                    create.session_signer.key@,
                    create.payer.key@,
                ),
                program_id,
            )
        }),
{
}

/// A freshly opened (active) token is valid at exactly the times before the
/// expiry it was given.
pub proof fn lemma_new_token_valid_until_expiry(
    create: CreateSessionToken,
    token: SessionToken,
    valid_until: i64,
    now: i64,
)
    requires
        token.account_status == AccountStatus::Active,
    ensures
        spec_validate(spec_filled_token(token, create, valid_until), now) == Ok::<
            bool,
            SessionError,
        >(now < valid_until),
{
}

/// A token opened at `now` without an explicit expiry lasts the default
/// validity: it is valid at `now` and at every time before `now` plus the
/// default, and not from then on.
pub proof fn lemma_default_expiry(create: CreateSessionToken, token: SessionToken, now: i64, t: i64)
    requires
        token.account_status == AccountStatus::Active,
        now + DEFAULT_TOKEN_EXPIRATION_SECONDS <= i64::MAX,
    ensures
        ({
            let filled = spec_filled_token(
                token,
                create,
                spec_session_expiry(None, now) as i64,
            );
            &&& spec_validate(filled, t) == Ok::<bool, SessionError>(
                t < now + DEFAULT_TOKEN_EXPIRATION_SECONDS,
            )
            &&& spec_validate(filled, now) == Ok::<bool, SessionError>(true)
        }),
{
}

/// A stopped token is refused at every time.
pub proof fn lemma_stopped_token_refused(token: SessionToken, now: i64)
    requires
        token.account_status == AccountStatus::Stopped,
    ensures
        spec_validate(token, now) == Err::<bool, SessionError>(SessionError::AccountStopped),
{
}

/// Expiry is final: a token valid at some time was valid at every earlier
/// time, and one that has expired stays expired.
pub proof fn lemma_expiry_is_final(token: SessionToken, earlier: i64, later: i64)
    requires
        earlier <= later,
    ensures
        spec_validate(token, later) == Ok::<bool, SessionError>(true) ==> spec_validate(
            token,
            earlier,
        ) == Ok::<bool, SessionError>(true),
        spec_validate(token, earlier) == Ok::<bool, SessionError>(false) ==> spec_validate(
            token,
            later,
        ) == Ok::<bool, SessionError>(false),
{
}

/// Different statuses serialize differently.
pub proof fn lemma_status_encoding_injective(a: AccountStatus, b: AccountStatus)
    ensures
        spec_status_tag(a) == spec_status_tag(b) <==> a == b,
{
}

/// Different errors carry different codes, all at or above the offset.
pub proof fn lemma_error_codes_distinct(a: SessionError, b: SessionError)
    ensures
        ERROR_CODE_OFFSET + spec_error_index(a) == ERROR_CODE_OFFSET + spec_error_index(b) <==> a
            == b,
        ERROR_CODE_OFFSET <= ERROR_CODE_OFFSET + spec_error_index(a),
{
}

/// An active token validated against a clock reading of time `t` is valid
/// exactly when `t` is before its expiry; a stopped token is refused whatever
/// the clock reads; an active token passes on the clock's error.
pub proof fn lemma_validate_answers_time_before_expiry(
    token: SessionToken,
    t: i64,
    e: anchor_lang::prelude::ProgramError,
)
    ensures
        token.account_status == AccountStatus::Active ==> spec_validate_with_clock(token, Ok(t))
            == Ok::<bool, ProcessError>(t < token.valid_until),
        token.account_status == AccountStatus::Active ==> spec_validate_with_clock(token, Err(e))
            == Err::<bool, ProcessError>(ProcessError::Clock(e)),
        token.account_status == AccountStatus::Stopped ==> spec_validate_with_clock(token, Ok(t))
            == Err::<bool, ProcessError>(ProcessError::Session(SessionError::AccountStopped)),
        token.account_status == AccountStatus::Stopped ==> spec_validate_with_clock(token, Err(e))
            == Err::<bool, ProcessError>(ProcessError::Session(SessionError::AccountStopped)),
{
}

/// A token opened at time `t` gets the payer as authority, the target
/// program and session signer of the accounts, the expiry asked for or else
/// `t` plus one hour, and keeps its status.
pub proof fn lemma_created_token_fields(
    token: SessionToken,
    accounts: CreateSessionToken,
    valid_until: Option<i64>,
    t: i64,
)
    requires
        t <= i64::MAX - DEFAULT_TOKEN_EXPIRATION_SECONDS,
    ensures
        ({
            let created = spec_created_token(token, accounts, valid_until, t);
            &&& created.authority@ == accounts.payer.key@
            &&& created.target_program@ == accounts.target_program.key@
            &&& created.session_signer@ == accounts.session_signer.key@
            &&& created.account_status == token.account_status
            &&& (valid_until matches Some(v) ==> created.valid_until == v)
            &&& (valid_until is None ==> created.valid_until == t + 3600)
        }),
{
}

/// With accepted accounts and a clock reading of time `t`, opening a token
/// fails only when `t` plus one hour does not fit in an `i64`, and then with
/// `ArithmeticOverflow`; otherwise it succeeds, asking for a transfer of
/// exactly the top-up from the payer to the session signer when the top-up is
/// positive, and for none when it is absent or zero. Refused accounts are
/// reported whatever the clock reads.
pub proof fn lemma_create_fails_only_on_overflow(
    accounts: CreateSessionToken,
    top_up_amount_lamports: Option<u64>,
    t: i64,
    e: anchor_lang::prelude::ProgramError,
)
    ensures
        spec_create_result_with_clock(accounts, top_up_amount_lamports, Ok(t)) == spec_create_result(
            accounts,
            top_up_amount_lamports,
            t,
        ),
        spec_check_create_accounts(accounts) is Ok ==> (spec_create_result(
            accounts,
            top_up_amount_lamports,
            t,
        ) is Err <==> t > i64::MAX - 3600),
        spec_check_create_accounts(accounts) is Ok && t > i64::MAX - 3600 ==> spec_create_result(
            accounts,
            top_up_amount_lamports,
            t,
        ) == Err::<Option<LamportTransfer>, ProcessError>(ProcessError::ArithmeticOverflow),
        spec_check_create_accounts(accounts) is Ok && t <= i64::MAX - 3600 ==> match top_up_amount_lamports {
            Some(amount) => amount > 0 ==> spec_create_result(accounts, top_up_amount_lamports, t)
                == Ok::<Option<LamportTransfer>, ProcessError>(
                Some(
                    LamportTransfer {
                        from: accounts.payer.key,
                        to: accounts.session_signer.key,
                        lamports: amount,
                    },
                ),
            ),
            None => spec_create_result(accounts, top_up_amount_lamports, t) == Ok::<
                Option<LamportTransfer>,
                ProcessError,
            >(None),
        },
        spec_check_create_accounts(accounts) is Ok && t <= i64::MAX - 3600
            && top_up_amount_lamports == Some(0u64) ==> spec_create_result(
            accounts,
            top_up_amount_lamports,
            t,
        ) == Ok::<Option<LamportTransfer>, ProcessError>(None),
        spec_check_create_accounts(accounts) matches Err(a) ==> spec_create_result_with_clock(
            accounts,
            top_up_amount_lamports,
            Err(e),
        ) == Err::<Option<LamportTransfer>, ProcessError>(ProcessError::Account(a)),
        spec_check_create_accounts(accounts) is Ok ==> spec_create_result_with_clock(
            accounts,
            top_up_amount_lamports,
            Err(e),
        ) == Err::<Option<LamportTransfer>, ProcessError>(ProcessError::Clock(e)),
{
}

/// A top-up carries exactly the amount asked for, from the payer to the
/// session signer, and is asked for exactly when the amount is positive.
pub proof fn lemma_top_up_carries_the_amount(accounts: CreateSessionToken, lamports: u64)
    ensures
        spec_top_up(accounts, lamports) is Some <==> lamports > 0,
        spec_top_up(accounts, lamports) matches Some(transfer) ==> {
            &&& transfer.lamports == lamports
            &&& transfer.from@ == accounts.payer.key@
            &&& transfer.to@ == accounts.session_signer.key@
        },
{
}

/// The seeds of a session token are the seed prefix, the bytes of
/// "lux_session_token", followed by the target program, the session signer
/// and the authority, each as its own 32 bytes in order.
pub proof fn lemma_session_seeds_are_the_keys(t: Seq<u8>, s: Seq<u8>, a: Seq<u8>)
    ensures
        spec_session_seeds(t, s, a).len() == 4,
        spec_session_seeds(t, s, a)[0] == seq![
            108u8, 117, 120, 95, 115, 101, 115, 115, 105, 111, 110, 95, 116, 111, 107, 101, 110,
        ],
        spec_session_seeds(t, s, a)[1] == t,
        spec_session_seeds(t, s, a)[2] == s,
        spec_session_seeds(t, s, a)[3] == a,
{
    reveal_strlit("lux_session_token");
    broadcast use vstd::string::is_ascii_spec_bytes;
    assert(vstd::string::is_ascii(SEED_PREFIX));
    assert(SEED_PREFIX.spec_bytes() =~= seq![
        108u8, 117, 120, 95, 115, 101, 115, 115, 105, 111, 110, 95, 116, 111, 107, 101, 110,
    ]);
}

} // verus!
