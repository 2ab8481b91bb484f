use lux_session::{
    create_session, create_session_at, create_session_with_clock, create_session_with_time, create_session_token_handler, revoke_session,
    revoke_session_token_handler, session_token_address_seed, session_token_seeds, AccountError, AccountRef, AccountStatus,
    CreateSessionToken, LamportTransfer, ProcessError, Pubkey, RevokeSessionToken,
    SessionError, SessionToken, ValidityChecker, DEFAULT_TOKEN_EXPIRATION_SECONDS,
    ERROR_CODE_OFFSET, PROGRAM_ID, SEED_PREFIX,
};

const LAMPORTS_PER_SOL: u64 = 1_000_000_000;

fn key(b: u8) -> Pubkey {
    Pubkey::new_from_array([b; 32])
}

fn signer(k: Pubkey) -> AccountRef {
    AccountRef { key: k, is_signer: true, is_writable: true, executable: false }
}

fn program(k: Pubkey) -> AccountRef {
    AccountRef { key: k, is_signer: false, is_writable: false, executable: true }
}

fn create_accounts(payer: Pubkey, session_signer: Pubkey, target: Pubkey) -> CreateSessionToken {
    CreateSessionToken {
        payer: signer(payer),
        self_program: program(Pubkey::new_from_array(PROGRAM_ID)),
        cpi_signer: key(201),
        session_signer: signer(session_signer),
        target_program: program(target),
    }
}

fn revoke_accounts(payer: Pubkey, token: SessionToken) -> RevokeSessionToken {
    RevokeSessionToken {
        payer: signer(payer),
        self_program: program(Pubkey::new_from_array(PROGRAM_ID)),
        cpi_signer: key(201),
        session_token: token,
    }
}

fn same(a: &Pubkey, b: &Pubkey) -> bool {
    a.to_bytes() == b.to_bytes()
}

fn checker(token: SessionToken) -> ValidityChecker {
    ValidityChecker {
        session_token: token,
        session_signer: token.session_signer,
        authority: token.authority,
        target_program: token.target_program,
    }
}

#[test]
fn test() {
    let payer = key(1);
    let session_signer = key(2);
    let program_id = <anchor_lang::prelude::Pubkey as std::str::FromStr>::from_str(
        "2SmNpccSbqmfxgVhRgu9gsvZyZj1h8FE6ZHLvV5JNiMW",
    )
    .unwrap();
    let target_program = Pubkey::new_from_array(program_id.to_bytes());
    let accounts = create_accounts(payer, session_signer, target_program);
    let top_up_amount_lamports = 10 * LAMPORTS_PER_SOL;
    let seconds_to_advance: i64 = 3600;
    let clock_unix_timestamp: i64 = 1_700_000_000;
    let valid_until: i64 = clock_unix_timestamp + seconds_to_advance;

    assert!(accounts.check_accounts().is_ok());
    let mut session_token = SessionToken::default();
    let transfer = create_session_at(
        &accounts,
        &mut session_token,
        Some(top_up_amount_lamports),
        Some(valid_until),
        clock_unix_timestamp,
    );
    assert!(same(&session_token.authority, &payer));
    assert!(same(&session_token.target_program, &target_program));
    assert!(same(&session_token.session_signer, &session_signer));
    assert_eq!(session_token.valid_until, valid_until);
    let transfer = transfer.unwrap();
    assert!(same(&transfer.from, &payer));
    assert!(same(&transfer.to, &session_signer));
    assert_eq!(transfer.lamports, 10 * LAMPORTS_PER_SOL);
}

#[test]
fn handler_without_top_up_asks_no_transfer() {
    let accounts = create_accounts(key(1), key(2), key(3));
    let mut token = SessionToken::default();
    let transfer = create_session_token_handler(&accounts, &mut token, 0, 42);
    assert!(transfer.is_none());
    assert_eq!(token.valid_until, 42);
    assert_eq!(token.account_status, AccountStatus::Active);
}

#[test]
fn handler_keeps_status() {
    let accounts = create_accounts(key(1), key(2), key(3));
    let mut token = SessionToken::default();
    token.account_status = AccountStatus::Stopped;
    let transfer = create_session_token_handler(&accounts, &mut token, 5, 42);
    assert_eq!(token.account_status, AccountStatus::Stopped);
    let t: LamportTransfer = transfer.unwrap();
    assert_eq!(t.lamports, 5);
}

#[test]
fn default_expiry_is_one_hour_after_now() {
    let accounts = create_accounts(key(1), key(2), key(3));
    let mut token = SessionToken::default();
    let transfer = create_session_at(&accounts, &mut token, None, None, 1000);
    assert!(transfer.is_none());
    assert_eq!(DEFAULT_TOKEN_EXPIRATION_SECONDS, 3600);
    assert_eq!(token.valid_until, 4600);
    assert_eq!(token.validate_at(1000), Ok(true));
    assert_eq!(token.validate_at(4599), Ok(true));
    assert_eq!(token.validate_at(4600), Ok(false));
    assert_eq!(token.validate_at(100_000), Ok(false));
}

#[test]
fn explicit_expiry_wins_over_default() {
    let accounts = create_accounts(key(1), key(2), key(3));
    let mut token = SessionToken::default();
    create_session_at(&accounts, &mut token, Some(0), Some(-5), 1000);
    assert_eq!(token.valid_until, -5);
    assert_eq!(token.validate_at(1000), Ok(false));
}

#[test]
fn stopped_token_is_refused_at_every_time() {
    let mut token = SessionToken::default();
    token.valid_until = i64::MAX;
    token.account_status = AccountStatus::Stopped;
    assert_eq!(token.validate_at(0), Err(SessionError::AccountStopped));
    assert_eq!(token.validate_at(i64::MIN), Err(SessionError::AccountStopped));
    match token.validate(&checker(token)) {
        Err(ProcessError::Session(SessionError::AccountStopped)) => {}
        other => panic!("unexpected {:?}", other),
    }
}

#[test]
fn in_time_at_compares_with_expiry() {
    let mut token = SessionToken::default();
    token.valid_until = 10;
    assert!(token.in_time_at(9));
    assert!(!token.in_time_at(10));
    assert!(!token.in_time_at(11));
}

#[test]
fn clock_is_unavailable_off_chain() {
    let token = SessionToken::default();
    assert!(matches!(token.is_expired(), Err(ProcessError::Clock(_))));
    assert!(matches!(token.validate(&checker(token)), Err(ProcessError::Clock(_))));

    let accounts = create_accounts(key(1), key(2), key(3));
    let mut created = SessionToken::default();
    created.valid_until = 77;
    let r = create_session(&accounts, &mut created, Some(5), Some(99));
    assert!(matches!(r, Err(ProcessError::Clock(_))));
    assert_eq!(created.valid_until, 77);
    assert!(same(&created.authority, &key(0)));

    // Refused accounts are reported before the clock is read.
    let mut refused = accounts;
    refused.target_program.executable = false;
    let r = create_session(&refused, &mut created, Some(5), Some(99));
    assert!(matches!(r, Err(ProcessError::Account(AccountError::ConstraintExecutable))));
    assert_eq!(created.valid_until, 77);
}

fn unsupported() -> anchor_lang::prelude::ProgramError {
    anchor_lang::prelude::ProgramError::UnsupportedSysvar
}

#[test]
fn create_session_with_time_results() {
    let accounts = create_accounts(key(1), key(2), key(3));
    let mut token = SessionToken::default();
    let r = create_session_with_time(&accounts, &mut token, Some(7), None, 100);
    let transfer = r.unwrap().unwrap();
    assert_eq!(transfer.lamports, 7);
    assert_eq!(token.valid_until, 3700);
    assert!(same(&token.authority, &key(1)));

    let mut untouched = SessionToken::default();
    let r = create_session_with_time(&accounts, &mut untouched, None, Some(5), i64::MAX - 3599);
    assert!(matches!(r, Err(ProcessError::ArithmeticOverflow)));
    assert_eq!(untouched.valid_until, 0);
    let r = create_session_with_time(&accounts, &mut untouched, None, Some(5), i64::MAX - 3600);
    assert!(r.unwrap().is_none());
    assert_eq!(untouched.valid_until, 5);

    let mut unsigned = accounts;
    unsigned.payer.is_signer = false;
    let mut other = SessionToken::default();
    let r = create_session_with_time(&unsigned, &mut other, None, None, 100);
    assert!(matches!(r, Err(ProcessError::Account(AccountError::AccountNotSigner))));
    assert_eq!(other.valid_until, 0);
}

#[test]
fn create_session_with_clock_results() {
    let accounts = create_accounts(key(1), key(2), key(3));
    let mut token = SessionToken::default();
    let r = create_session_with_clock(&accounts, &mut token, None, None, Err(unsupported()));
    assert!(matches!(r, Err(ProcessError::Clock(anchor_lang::prelude::ProgramError::UnsupportedSysvar))));
    assert_eq!(token.valid_until, 0);

    let r = create_session_with_clock(&accounts, &mut token, Some(3), None, Ok(50));
    assert_eq!(r.unwrap().unwrap().lamports, 3);
    assert_eq!(token.valid_until, 3650);

    let mut read_only = accounts;
    read_only.session_signer.is_writable = false;
    let mut other = SessionToken::default();
    let r = create_session_with_clock(&read_only, &mut other, None, None, Err(unsupported()));
    assert!(matches!(r, Err(ProcessError::Account(AccountError::ConstraintMut))));
}

#[test]
fn validate_and_expiry_with_clock() {
    let mut token = SessionToken::default();
    token.valid_until = 10;
    assert!(matches!(token.is_expired_with_clock(Ok(9)), Ok(true)));
    assert!(matches!(token.is_expired_with_clock(Ok(10)), Ok(false)));
    assert!(matches!(token.is_expired_with_clock(Err(unsupported())), Err(ProcessError::Clock(_))));
    assert!(matches!(token.validate_with_clock(Ok(9)), Ok(true)));
    assert!(matches!(token.validate_with_clock(Ok(11)), Ok(false)));
    assert!(matches!(token.validate_with_clock(Err(unsupported())), Err(ProcessError::Clock(_))));
    token.account_status = AccountStatus::Stopped;
    assert!(matches!(
        token.validate_with_clock(Ok(9)),
        Err(ProcessError::Session(SessionError::AccountStopped))
    ));
    assert!(matches!(
        token.validate_with_clock(Err(unsupported())),
        Err(ProcessError::Session(SessionError::AccountStopped))
    ));
}

#[test]
fn revoke_session_runs_the_account_checks() {
    let accounts = create_accounts(key(1), key(2), key(3));
    let mut token = SessionToken::default();
    create_session_with_time(&accounts, &mut token, None, None, 0).unwrap();
    assert!(revoke_session(&revoke_accounts(key(1), token)).is_ok());
    match revoke_session(&revoke_accounts(key(2), token)) {
        Err(ProcessError::Session(e)) => {
            assert_eq!(e, SessionError::Unauthorized);
            assert_eq!(e.code(), 6004);
        }
        other => panic!("unexpected {:?}", other),
    }
    let mut unsigned = revoke_accounts(key(1), token);
    unsigned.payer.is_signer = false;
    assert!(matches!(
        revoke_session(&unsigned),
        Err(ProcessError::Account(AccountError::AccountNotSigner))
    ));
}

#[test]
fn default_token_is_zeroed_and_active() {
    let token = SessionToken::default();
    assert_eq!(token.authority.to_bytes(), [0u8; 32]);
    assert_eq!(token.target_program.to_bytes(), [0u8; 32]);
    assert_eq!(token.session_signer.to_bytes(), [0u8; 32]);
    assert_eq!(token.valid_until, 0);
    assert_eq!(token.account_status, AccountStatus::Active);
    assert_eq!(AccountStatus::default(), AccountStatus::Active);
}

#[test]
fn status_serializes_to_its_tag() {
    assert_eq!(AccountStatus::Active.as_byte_vec(), vec![vec![0u8]]);
    assert_eq!(AccountStatus::Stopped.as_byte_vec(), vec![vec![1u8]]);
    assert_eq!(AccountStatus::Active.tag(), 0);
    assert_eq!(AccountStatus::Stopped.tag(), 1);
}

#[test]
fn error_codes_and_messages() {
    assert_eq!(ERROR_CODE_OFFSET, 6000);
    assert_eq!(SessionError::ValidityTooLong.code(), 6000);
    assert_eq!(SessionError::InvalidToken.code(), 6001);
    assert_eq!(SessionError::NoToken.code(), 6002);
    assert_eq!(SessionError::AccountStopped.code(), 6003);
    assert_eq!(SessionError::Unauthorized.code(), 6004);
    assert_eq!(SessionError::ValidityTooLong.message(), "Requested validity is too long");
    assert_eq!(SessionError::InvalidToken.message(), "Invalid session token");
    assert_eq!(SessionError::NoToken.message(), "No session token provided");
    assert_eq!(SessionError::AccountStopped.message(), "Account is stopped");
    assert_eq!(SessionError::Unauthorized.message(), "Unauthorized");
}

#[test]
fn create_accounts_checks() {
    let good = create_accounts(key(1), key(2), key(3));
    assert!(good.check_accounts().is_ok());

    let mut a = good;
    a.payer.is_signer = false;
    a.target_program.executable = false;
    assert!(matches!(a.check_accounts(), Err(ProcessError::Account(AccountError::AccountNotSigner))));

    let mut a = good;
    a.session_signer.is_signer = false;
    assert!(matches!(a.check_accounts(), Err(ProcessError::Account(AccountError::AccountNotSigner))));

    let mut a = good;
    a.payer.is_writable = false;
    assert!(matches!(a.check_accounts(), Err(ProcessError::Account(AccountError::ConstraintMut))));

    let mut a = good;
    a.session_signer.is_writable = false;
    assert!(matches!(a.check_accounts(), Err(ProcessError::Account(AccountError::ConstraintMut))));

    let mut a = good;
    a.target_program.executable = false;
    assert!(matches!(
        a.check_accounts(),
        Err(ProcessError::Account(AccountError::ConstraintExecutable))
    ));
}

#[test]
fn only_the_creator_revokes() {
    let accounts = create_accounts(key(1), key(2), key(3));
    let mut token = SessionToken::default();
    create_session_at(&accounts, &mut token, None, Some(500), 0);

    assert!(revoke_accounts(key(1), token).check_accounts().is_ok());
    assert!(matches!(
        revoke_accounts(key(2), token).check_accounts(),
        Err(ProcessError::Session(SessionError::Unauthorized))
    ));
    let mut unsigned = revoke_accounts(key(1), token);
    unsigned.payer.is_signer = false;
    assert!(matches!(
        unsigned.check_accounts(),
        Err(ProcessError::Account(AccountError::AccountNotSigner))
    ));
    let mut read_only = revoke_accounts(key(1), token);
    read_only.payer.is_writable = false;
    assert!(matches!(
        read_only.check_accounts(),
        Err(ProcessError::Account(AccountError::ConstraintMut))
    ));
    assert!(revoke_session(&revoke_accounts(key(1), token)).is_ok());
    assert!(revoke_session_token_handler(&revoke_accounts(key(1), token)).is_ok());
}

#[test]
fn revoke_seeds_match_create_seeds() {
    let accounts = create_accounts(key(7), key(8), key(9));
    let mut token = SessionToken::default();
    create_session_at(&accounts, &mut token, None, None, 0);
    let at_create = accounts.session_token_seeds();
    let at_revoke = revoke_accounts(key(7), token).session_token_seeds();
    assert_eq!(at_create, at_revoke);
    assert_eq!(
        at_create,
        vec![
            b"lux_session_token".to_vec(),
            vec![9u8; 32],
            vec![8u8; 32],
            vec![7u8; 32],
        ]
    );
    assert_eq!(SEED_PREFIX, "lux_session_token");
    assert_eq!(session_token_seeds(&key(9), &key(8), &key(7)), at_create);
    assert_eq!(token.address_seeds(), at_create);
}

#[test]
fn key_equality_is_bytewise() {
    let mut bytes = [5u8; 32];
    let a = Pubkey::new_from_array(bytes);
    bytes[31] = 6;
    let b = Pubkey::new_from_array(bytes);
    assert!(a.key_eq(&a));
    assert!(!a.key_eq(&b));
    assert!(Pubkey::default_key().key_eq(&key(0)));
}

#[test]
fn revoke_address_matches_create_address() {
    let program_id = key(42);
    let accounts = create_accounts(key(7), key(8), key(9));
    let mut token = SessionToken::default();
    create_session_at(&accounts, &mut token, Some(1), None, 10);
    let at_create = accounts.session_token_address_seed(&program_id);
    let at_revoke = revoke_accounts(key(7), token).session_token_address_seed(&program_id);
    assert_eq!(at_create, at_revoke);
    assert_eq!(session_token_address_seed(&program_id, &key(9), &key(8), &key(7)), at_create);

    let owner = anchor_lang::prelude::Pubkey::new_from_array([42u8; 32]);
    let direct = light_sdk::address::derive_address_seed(
        &[b"lux_session_token".as_slice(), &[9u8; 32], &[8u8; 32], &[7u8; 32]],
        &owner,
    );
    assert_eq!(at_create, direct);
    assert_eq!(at_create[0], 0);

    let other_payer = create_accounts(key(6), key(8), key(9));
    assert_ne!(other_payer.session_token_address_seed(&program_id), at_create);
    assert_ne!(accounts.session_token_address_seed(&key(43)), at_create);
}

#[test]
fn the_program_account_must_be_this_program() {
    let good = create_accounts(key(1), key(2), key(3));
    let mut wrong = good;
    wrong.self_program.key = key(3);
    assert!(matches!(wrong.check_accounts(), Err(ProcessError::Account(AccountError::InvalidProgramId))));
    let mut not_exec = good;
    not_exec.self_program.executable = false;
    assert!(matches!(
        not_exec.check_accounts(),
        Err(ProcessError::Account(AccountError::InvalidProgramExecutable))
    ));
    let mut token = SessionToken::default();
    assert!(matches!(
        create_session(&wrong, &mut token, None, None),
        Err(ProcessError::Account(AccountError::InvalidProgramId))
    ));

    let mut filled = SessionToken::default();
    create_session_with_time(&good, &mut filled, None, None, 0).unwrap();
    let mut revoke = revoke_accounts(key(1), filled);
    revoke.self_program.key = key(9);
    assert!(matches!(revoke_session(&revoke), Err(ProcessError::Account(AccountError::InvalidProgramId))));
    let mut revoke = revoke_accounts(key(1), filled);
    revoke.self_program.executable = false;
    assert!(matches!(
        revoke_session(&revoke),
        Err(ProcessError::Account(AccountError::InvalidProgramExecutable))
    ));

    let id = <anchor_lang::prelude::Pubkey as std::str::FromStr>::from_str(
        "2SmNpccSbqmfxgVhRgu9gsvZyZj1h8FE6ZHLvV5JNiMW",
    )
    .unwrap();
    assert_eq!(id.to_bytes(), PROGRAM_ID);
}
