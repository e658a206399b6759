use session_keys::create::{DEFAULT_TOP_UP, DEFAULT_VALIDITY, LAMPORTS_PER_SOL, MAX_VALIDITY};
use session_keys::{
    create_session, create_session_token_at, create_session_token_handler,
    create_session_token_internal, create_session_token_with_payer_handler,
    create_session_with_payer, find_session_address, funding_amount, is_too_long,
    process_session_params, CreateSessionToken, CreateSessionTokenWithPayer, Error, Key, Ledger,
    Session, SessionError, SessionToken, Signer, TokenAccount, ValidityChecker,
};

const RENT: u64 = 1_670_400;
const T: i64 = 1_700_000_000;

fn key(byte: u8) -> Key {
    Key::new_from_array([byte; 32])
}

fn program() -> Key {
    key(0x50)
}

fn signer() -> Key {
    key(0x53)
}

fn authority() -> Key {
    key(0x41)
}

fn payer() -> Key {
    key(0x59)
}

fn own_accounts() -> CreateSessionToken {
    CreateSessionToken {
        session_signer: Signer { key: signer() },
        authority: Signer { key: authority() },
        target_program: program(),
    }
}

fn payer_accounts() -> CreateSessionTokenWithPayer {
    CreateSessionTokenWithPayer {
        session_signer: Signer { key: signer() },
        payer: Signer { key: payer() },
        authority: Signer { key: authority() },
        target_program: program(),
    }
}

fn address() -> Key {
    find_session_address(&program(), &signer(), &authority()).unwrap()
}

fn funded_ledger() -> Ledger {
    let mut ledger = Ledger::new(RENT);
    assert!(ledger.fund(&authority(), 5 * LAMPORTS_PER_SOL));
    assert!(ledger.fund(&payer(), 3 * LAMPORTS_PER_SOL));
    ledger
}

#[test]
fn the_constants_have_their_values() {
    assert_eq!(LAMPORTS_PER_SOL, 1_000_000_000);
    assert_eq!(DEFAULT_TOP_UP, 10_000_000);
    assert_eq!(DEFAULT_VALIDITY, 3_600);
    assert_eq!(MAX_VALIDITY, 604_800);
    assert_eq!(SessionToken::LEN, 112);
}

#[test]
fn open_parameters_get_their_defaults() {
    assert_eq!(process_session_params(None, None, T), (false, T + 3_600));
    assert_eq!(process_session_params(Some(true), None, 0), (true, 3_600));
    assert_eq!(process_session_params(Some(false), Some(5), T), (false, 5));
    assert_eq!(process_session_params(None, Some(-1), T), (false, -1));
    assert_eq!(process_session_params(Some(true), Some(i64::MAX), i64::MAX), (true, i64::MAX));
}

#[test]
fn created_token_holds_what_was_asked_for() {
    let mut ledger = funded_ledger();
    let outcome = create_session(&mut ledger, own_accounts(), None, Some(T + 100), None, T);
    assert_eq!(outcome, Ok(()));
    let stored = ledger.token(&address()).unwrap();
    assert_eq!(stored.token.authority, authority());
    assert_eq!(stored.token.target_program, program());
    assert_eq!(stored.token.session_signer, signer());
    assert_eq!(stored.token.valid_until, T + 100);
    assert_eq!(stored.deposit, RENT);
    assert_eq!(ledger.balance(&authority()), 5 * LAMPORTS_PER_SOL - RENT);
    assert_eq!(ledger.balance(&signer()), 0);
    assert_eq!(ledger.supply(), 8 * LAMPORTS_PER_SOL);
}

#[test]
fn default_expiry_and_default_top_up() {
    let mut ledger = funded_ledger();
    let outcome = create_session(&mut ledger, own_accounts(), Some(true), None, None, T);
    assert_eq!(outcome, Ok(()));
    let stored = ledger.token(&address()).unwrap();
    assert_eq!(stored.token.valid_until, T + 3_600);
    assert_eq!(ledger.balance(&signer()), LAMPORTS_PER_SOL / 100);
    assert_eq!(ledger.balance(&signer()), 10_000_000);
    assert_eq!(ledger.balance(&authority()), 5 * LAMPORTS_PER_SOL - RENT - 10_000_000);

    let call = ValidityChecker {
        session_token: TokenAccount { key: address(), token: stored.token },
        session_signer: Signer { key: signer() },
        authority: authority(),
        target_program: program(),
    };
    // The token is valid strictly before its expiry. From the expiry on the
    // check answers `Ok(false)`: it reads "not valid", and it is no error.
    assert_eq!(call.is_valid(T), Ok(true));
    assert_eq!(call.is_valid(T + 3_599), Ok(true));
    assert_eq!(call.is_valid(T + 3_600), Ok(false));
    assert_eq!(call.is_valid(T + 3_600 + 1), Ok(false));
    // `is_expired` answers in the same sense, whatever its name says: `true`
    // while the token is still live, `false` from the expiry on.
    assert!(stored.token.is_expired(T + 3_599));
    assert!(!stored.token.is_expired(T + 3_600));
    assert!(!stored.token.is_expired(T + 3_600 + 1));
}

#[test]
fn payer_pays_and_authority_is_named() {
    let mut ledger = funded_ledger();
    let outcome =
        create_session_with_payer(&mut ledger, payer_accounts(), None, Some(T + 60), None, T);
    assert_eq!(outcome, Ok(()));
    assert_eq!(ledger.balance(&payer()), 3 * LAMPORTS_PER_SOL - RENT);
    assert_eq!(ledger.balance(&authority()), 5 * LAMPORTS_PER_SOL);
    let stored = ledger.token(&address()).unwrap();
    assert_eq!(stored.token.authority, authority());
    assert_ne!(stored.token.authority, payer());
    assert_eq!(stored.deposit, RENT);
}

#[test]
fn payer_pays_the_top_up_too() {
    let mut ledger = funded_ledger();
    let outcome = create_session_with_payer(
        &mut ledger,
        payer_accounts(),
        Some(true),
        None,
        Some(1_234),
        T,
    );
    assert_eq!(outcome, Ok(()));
    assert_eq!(ledger.balance(&payer()), 3 * LAMPORTS_PER_SOL - RENT - 1_234);
    assert_eq!(ledger.balance(&signer()), 1_234);
    assert_eq!(ledger.balance(&authority()), 5 * LAMPORTS_PER_SOL);
}

#[test]
fn an_amount_without_top_up_moves_nothing() {
    let mut ledger = funded_ledger();
    let outcome =
        create_session(&mut ledger, own_accounts(), Some(false), None, Some(1_000_000), T);
    assert_eq!(outcome, Ok(()));
    assert_eq!(ledger.balance(&signer()), 0);
    assert_eq!(ledger.balance(&authority()), 5 * LAMPORTS_PER_SOL - RENT);
}

#[test]
fn expiry_a_week_ahead_is_accepted() {
    let mut ledger = funded_ledger();
    let outcome =
        create_session(&mut ledger, own_accounts(), None, Some(T + 604_800), None, T);
    assert_eq!(outcome, Ok(()));
    assert_eq!(ledger.token(&address()).unwrap().token.valid_until, T + 604_800);
}

#[test]
fn expiry_in_the_past_is_accepted() {
    let mut ledger = funded_ledger();
    let outcome = create_session(&mut ledger, own_accounts(), None, Some(T - 1), None, T);
    assert_eq!(outcome, Ok(()));
    assert_eq!(ledger.token(&address()).unwrap().token.valid_until, T - 1);
}

#[test]
fn expiry_beyond_a_week_is_too_long() {
    let mut ledger = funded_ledger();
    let outcome = create_session(
        &mut ledger,
        own_accounts(),
        Some(true),
        Some(T + 604_800 + 1),
        None,
        T,
    );
    assert_eq!(outcome, Err(Error::Session(SessionError::ValidityTooLong)));
    assert!(ledger.token(&address()).is_none());
    assert_eq!(ledger.balance(&authority()), 5 * LAMPORTS_PER_SOL);
    assert_eq!(ledger.balance(&signer()), 0);
}

#[test]
fn expiry_beyond_a_week_is_too_long_with_a_payer() {
    let mut ledger = funded_ledger();
    let outcome = create_session_with_payer(
        &mut ledger,
        payer_accounts(),
        None,
        Some(i64::MAX),
        None,
        T,
    );
    assert_eq!(outcome, Err(Error::Session(SessionError::ValidityTooLong)));
    assert!(ledger.token(&address()).is_none());
    assert_eq!(ledger.balance(&payer()), 3 * LAMPORTS_PER_SOL);
}

#[test]
fn no_expiry_is_too_long_at_the_end_of_time() {
    let mut ledger = funded_ledger();
    let now = i64::MAX - 10;
    let outcome = create_session(&mut ledger, own_accounts(), None, Some(i64::MAX), None, now);
    assert_eq!(outcome, Ok(()));
    assert_eq!(ledger.token(&address()).unwrap().token.valid_until, i64::MAX);
}

#[test]
fn second_creation_for_a_triple_fails() {
    let mut ledger = funded_ledger();
    assert_eq!(create_session(&mut ledger, own_accounts(), None, Some(T + 10), None, T), Ok(()));
    let before = ledger.token(&address()).unwrap();
    let authority_before = ledger.balance(&authority());

    let again = create_session(&mut ledger, own_accounts(), Some(true), Some(T + 20), None, T + 1);
    assert_eq!(again, Err(Error::Allocation));
    let with_payer =
        create_session_with_payer(&mut ledger, payer_accounts(), None, None, None, T + 2);
    assert_eq!(with_payer, Err(Error::Allocation));

    let after = ledger.token(&address()).unwrap();
    assert_eq!(after.token, before.token);
    assert_eq!(after.deposit, before.deposit);
    assert_eq!(after.token.valid_until, T + 10);
    assert_eq!(ledger.balance(&authority()), authority_before);
    assert_eq!(ledger.balance(&payer()), 3 * LAMPORTS_PER_SOL);
    assert_eq!(ledger.balance(&signer()), 0);
}

#[test]
fn an_occupied_address_comes_before_a_long_expiry() {
    let mut ledger = funded_ledger();
    assert_eq!(create_session(&mut ledger, own_accounts(), None, None, None, T), Ok(()));
    let again = create_session(&mut ledger, own_accounts(), None, Some(i64::MAX), None, T);
    assert_eq!(again, Err(Error::Allocation));
}

#[test]
fn tokens_of_other_triples_do_not_collide() {
    let mut ledger = funded_ledger();
    assert_eq!(create_session(&mut ledger, own_accounts(), None, None, None, T), Ok(()));
    let other = CreateSessionToken {
        session_signer: Signer { key: key(0x54) },
        authority: Signer { key: authority() },
        target_program: program(),
    };
    assert_eq!(create_session(&mut ledger, other, None, Some(T + 5), None, T), Ok(()));
    let other_address = find_session_address(&program(), &key(0x54), &authority()).unwrap();
    assert_eq!(ledger.token(&address()).unwrap().token.valid_until, T + 3_600);
    assert_eq!(ledger.token(&other_address).unwrap().token.valid_until, T + 5);
    assert_eq!(ledger.balance(&authority()), 5 * LAMPORTS_PER_SOL - 2 * RENT);
}

#[test]
fn a_payer_without_the_deposit_cannot_create() {
    let mut ledger = Ledger::new(RENT);
    assert!(ledger.fund(&authority(), RENT - 1));
    let outcome = create_session(&mut ledger, own_accounts(), None, None, None, T);
    assert_eq!(outcome, Err(Error::Allocation));
    assert!(ledger.token(&address()).is_none());
    assert_eq!(ledger.balance(&authority()), RENT - 1);
}

#[test]
fn a_payer_with_just_the_deposit_can_create() {
    let mut ledger = Ledger::new(RENT);
    assert!(ledger.fund(&authority(), RENT));
    let outcome = create_session(&mut ledger, own_accounts(), None, None, None, T);
    assert_eq!(outcome, Ok(()));
    assert_eq!(ledger.balance(&authority()), 0);
    assert_eq!(ledger.supply(), RENT);
}

#[test]
fn a_failed_top_up_leaves_no_token() {
    let mut ledger = Ledger::new(RENT);
    assert!(ledger.fund(&authority(), RENT + 10_000_000 - 1));
    let outcome = create_session(&mut ledger, own_accounts(), Some(true), None, None, T);
    assert_eq!(outcome, Err(Error::Transfer));
    assert!(ledger.token(&address()).is_none());
    assert_eq!(ledger.balance(&authority()), RENT + 10_000_000 - 1);
    assert_eq!(ledger.balance(&signer()), 0);

    assert!(ledger.fund(&authority(), 1));
    let outcome = create_session(&mut ledger, own_accounts(), Some(true), None, None, T);
    assert_eq!(outcome, Ok(()));
    assert_eq!(ledger.balance(&authority()), 0);
    assert_eq!(ledger.balance(&signer()), 10_000_000);
}

#[test]
fn a_long_expiry_comes_before_a_failed_top_up() {
    let mut ledger = Ledger::new(RENT);
    assert!(ledger.fund(&authority(), RENT));
    let outcome =
        create_session(&mut ledger, own_accounts(), Some(true), Some(T + 604_801), None, T);
    assert_eq!(outcome, Err(Error::Session(SessionError::ValidityTooLong)));
}

#[test]
fn a_signer_that_pays_its_own_top_up_keeps_its_funds() {
    let mut ledger = Ledger::new(RENT);
    assert!(ledger.fund(&signer(), RENT + 500));
    let accounts = CreateSessionTokenWithPayer {
        session_signer: Signer { key: signer() },
        payer: Signer { key: signer() },
        authority: Signer { key: authority() },
        target_program: program(),
    };
    let outcome =
        create_session_with_payer(&mut ledger, accounts, Some(true), None, Some(500), T);
    assert_eq!(outcome, Ok(()));
    assert_eq!(ledger.balance(&signer()), 500);

    let mut poor = Ledger::new(RENT);
    assert!(poor.fund(&signer(), RENT + 499));
    let outcome = create_session_with_payer(&mut poor, accounts, Some(true), None, Some(500), T);
    assert_eq!(outcome, Err(Error::Transfer));
}

#[test]
fn handlers_take_the_parameters_as_they_are() {
    let mut ledger = funded_ledger();
    let outcome =
        create_session_token_handler(&mut ledger, own_accounts(), true, T + 7, Some(9), T);
    assert_eq!(outcome, Ok(()));
    assert_eq!(ledger.token(&address()).unwrap().token.valid_until, T + 7);
    assert_eq!(ledger.balance(&signer()), 9);
    assert_eq!(ledger.balance(&authority()), 5 * LAMPORTS_PER_SOL - RENT - 9);

    let mut ledger = funded_ledger();
    let outcome = create_session_token_with_payer_handler(
        &mut ledger,
        payer_accounts(),
        false,
        T + 8,
        Some(9),
        T,
    );
    assert_eq!(outcome, Ok(()));
    assert_eq!(ledger.token(&address()).unwrap().token.valid_until, T + 8);
    assert_eq!(ledger.balance(&signer()), 0);
    assert_eq!(ledger.balance(&payer()), 3 * LAMPORTS_PER_SOL - RENT);
}

#[test]
fn the_shared_routine_names_the_authority_and_charges_the_payer() {
    let mut ledger = funded_ledger();
    let outcome = create_session_token_internal(
        &mut ledger,
        authority(),
        program(),
        signer(),
        payer(),
        true,
        T + 1,
        None,
        T,
    );
    assert_eq!(outcome, Ok(()));
    let stored = ledger.token(&address()).unwrap();
    assert_eq!(
        stored.token,
        SessionToken {
            authority: authority(),
            target_program: program(),
            session_signer: signer(),
            valid_until: T + 1,
        }
    );
    assert_eq!(ledger.balance(&payer()), 3 * LAMPORTS_PER_SOL - RENT - 10_000_000);
    assert_eq!(ledger.balance(&signer()), 10_000_000);
    assert_eq!(ledger.balance(&authority()), 5 * LAMPORTS_PER_SOL);
}

#[test]
fn an_expiry_is_too_long_beyond_a_week() {
    assert!(!is_too_long(T + 604_800, T));
    assert!(is_too_long(T + 604_801, T));
    assert!(!is_too_long(i64::MIN, T));
    assert!(is_too_long(604_801, 0));
    assert!(!is_too_long(i64::MAX, i64::MAX - 604_800));
    assert!(is_too_long(i64::MAX, i64::MAX - 604_801));
    assert!(!is_too_long(i64::MAX, i64::MAX));
    assert!(is_too_long(i64::MIN + 604_801, i64::MIN));
}

#[test]
fn funds_follow_the_flag_and_the_amount() {
    assert_eq!(funding_amount(false, None), 0);
    assert_eq!(funding_amount(false, Some(5)), 0);
    assert_eq!(funding_amount(true, None), 10_000_000);
    assert_eq!(funding_amount(true, Some(5)), 5);
    assert_eq!(funding_amount(true, Some(0)), 0);
    assert_eq!(funding_amount(true, Some(u64::MAX)), u64::MAX);
}

#[test]
fn a_token_without_an_address_cannot_be_stored() {
    let mut ledger = funded_ledger();
    let token = SessionToken {
        authority: authority(),
        target_program: program(),
        session_signer: signer(),
        valid_until: T + 1,
    };
    let outcome = create_session_token_at(&mut ledger, None, token, payer(), 0, T);
    assert_eq!(outcome, Err(Error::Allocation));
    assert_eq!(ledger.balance(&payer()), 3 * LAMPORTS_PER_SOL);
}

#[test]
fn a_token_is_stored_at_the_address_given() {
    let mut ledger = funded_ledger();
    let token = SessionToken {
        authority: authority(),
        target_program: program(),
        session_signer: signer(),
        valid_until: T + 1,
    };
    let outcome = create_session_token_at(&mut ledger, Some(key(0x77)), token, payer(), 12, T);
    assert_eq!(outcome, Ok(()));
    let stored = ledger.token(&key(0x77)).unwrap();
    assert_eq!(stored.token, token);
    assert_eq!(stored.deposit, RENT);
    assert!(ledger.token(&address()).is_none());
    assert_eq!(ledger.balance(&payer()), 3 * LAMPORTS_PER_SOL - RENT - 12);
    assert_eq!(ledger.balance(&signer()), 12);
}

#[test]
fn failures_say_what_went_wrong() {
    assert_eq!(
        Error::Session(SessionError::ValidityTooLong).message(),
        "Requested validity is too long"
    );
    assert_eq!(Error::Session(SessionError::InvalidToken).message(), "Invalid session token");
    assert_eq!(Error::Session(SessionError::NoToken).message(), "No session token provided");
    assert_eq!(Error::Allocation.message(), "The session token could not be stored");
    assert_eq!(Error::Transfer.message(), "The session signer could not be funded");
    assert_eq!(Error::NoRecord.message(), "No session token is stored at the address");
}

#[test]
fn a_taken_address_refuses_every_creation_for_its_triple() {
    let mut ledger = funded_ledger();
    assert_eq!(create_session(&mut ledger, own_accounts(), None, Some(T + 10), None, T), Ok(()));
    let stored = ledger.token(&address()).unwrap();
    let supply = ledger.supply();

    // Whatever the expiry, the funds, the payer and the instant: the ledger
    // cannot store the token, and that is the error, not one of sessions.
    for (valid_until, now) in [
        (None, T),
        (Some(T), T),
        (Some(T + 604_800), T),
        (Some(T + 604_801), T),
        (Some(i64::MAX), T),
        (Some(i64::MIN), i64::MAX),
        (Some(0), i64::MIN),
    ] {
        for (top_up, lamports) in [(None, None), (Some(true), None), (Some(true), Some(u64::MAX))] {
            let own = create_session(&mut ledger, own_accounts(), top_up, valid_until, lamports, now);
            assert_eq!(own, Err(Error::Allocation));
            let paid = create_session_with_payer(
                &mut ledger,
                payer_accounts(),
                top_up,
                valid_until,
                lamports,
                now,
            );
            assert_eq!(paid, Err(Error::Allocation));
        }
    }
    let after = ledger.token(&address()).unwrap();
    assert_eq!(after.token, stored.token);
    assert_eq!(after.deposit, stored.deposit);
    assert_eq!(ledger.supply(), supply);
    assert_eq!(ledger.balance(&authority()), 5 * LAMPORTS_PER_SOL - RENT);
    assert_eq!(ledger.balance(&payer()), 3 * LAMPORTS_PER_SOL);
}
