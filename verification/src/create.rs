use vstd::prelude::*;
use crate::address::{find_session_address, session_address};
use crate::error::{Error, SessionError};
use crate::key::Key;
use crate::ledger::{debited, transferred, Ledger, LedgerView, StoredToken};
use crate::token::{SessionToken, Signer};

verus! {

/// The lamports in one SOL.
pub const LAMPORTS_PER_SOL: u64 = 1_000_000_000;

/// What a session signer is topped up with where no amount is named: a
/// hundredth of a SOL.
pub const DEFAULT_TOP_UP: u64 = LAMPORTS_PER_SOL / 100;

/// How long a token lasts where no expiry is named: an hour, in seconds.
pub const DEFAULT_VALIDITY: i64 = 60 * 60;

/// The longest that a token may last: a week, in seconds.
pub const MAX_VALIDITY: i64 = 60 * 60 * 24 * 7;

/// The accounts of a creation that the authority pays for.
#[derive(Clone, Copy, Debug)]
pub struct CreateSessionToken {
    pub session_signer: Signer,
    pub authority: Signer,
    pub target_program: Key,
}

/// The accounts of a creation that a payer of its own pays for.
#[derive(Clone, Copy, Debug)]
pub struct CreateSessionTokenWithPayer {
    pub session_signer: Signer,
    pub payer: Signer,
    pub authority: Signer,
    pub target_program: Key,
}

impl CreateSessionToken {
    /// The token that these accounts ask for, with the given expiry.
    pub open spec fn token(&self, valid_until: i64) -> SessionToken {
        SessionToken {
            authority: self.authority.key,
            target_program: self.target_program,
            session_signer: self.session_signer.key,
            valid_until,
        }
    }
}

impl CreateSessionTokenWithPayer {
    /// The token that these accounts ask for, with the given expiry. It
    /// names the authority, never the payer.
    pub open spec fn token(&self, valid_until: i64) -> SessionToken {
        SessionToken {
            authority: self.authority.key,
            target_program: self.target_program,
            session_signer: self.session_signer.key,
            valid_until,
        }
    }
}

/// Where `token` belongs: the address of its own triple.
pub open spec fn token_address(token: SessionToken) -> Option<Key> {
    session_address(token.target_program, token.session_signer, token.authority)
}

/// The funds that go to the session signer: none without `top_up`, else the
/// amount named, else the default.
pub open spec fn funding(top_up: bool, lamports: Option<u64>) -> nat {
    if !top_up {
        0
    } else {
        match lamports {
            Some(amount) => amount as nat,
            None => DEFAULT_TOP_UP as nat,
        }
    }
}

/// Why storing `token` at `address` fails on the ledger `pre` at the instant
/// `now`, with `payer` paying the deposit and `funds` for the session signer;
/// `None` where it succeeds.
///
/// The ledger must be able to store the token before anything else is
/// looked at: there is an address, no token is stored at it, and the payer
/// holds the deposit. Then the expiry may lie at most a week ahead. Then the
/// payer must still hold the funds for the session signer once the deposit
/// is paid.
pub open spec fn placement_error(
    pre: LedgerView,
    address: Option<Key>,
    token: SessionToken,
    payer: Key,
    funds: nat,
    now: i64,
) -> Option<Error> {
    if address is None || pre.records.contains_key(address->0) || pre.balances[payer] < pre.rent {
        Some(Error::Allocation)
    } else if token.valid_until > now + MAX_VALIDITY {
        Some(Error::Session(SessionError::ValidityTooLong))
    } else if pre.balances[payer] - pre.rent < funds {
        Some(Error::Transfer)
    } else {
        None
    }
}

/// The ledger after `token` has been stored at `address` on `pre`: the payer
/// has paid the deposit and the funds for the session signer, and the token
/// is stored with the deposit held against it.
pub open spec fn placed(
    pre: LedgerView,
    address: Key,
    token: SessionToken,
    payer: Key,
    funds: nat,
) -> LedgerView
    recommends
        pre.sound(),
{
    LedgerView {
        balances: transferred(
            debited(pre.balances, payer, pre.rent),
            payer,
            token.session_signer,
            funds,
        ),
        records: pre.records.insert(address, StoredToken { token, deposit: pre.rent as u64 }),
        ..pre
    }
}

/// What storing the token answers: nothing on success, else the error.
pub open spec fn placement_outcome(
    pre: LedgerView,
    address: Option<Key>,
    token: SessionToken,
    payer: Key,
    funds: nat,
    now: i64,
) -> Result<(), Error> {
    match placement_error(pre, address, token, payer, funds, now) {
        Some(error) => Err(error),
        None => Ok(()),
    }
}

/// The ledger that storing the token leaves: [`placed`] where it succeeds,
/// and `pre` itself where it fails.
pub open spec fn after_placement(
    pre: LedgerView,
    address: Option<Key>,
    token: SessionToken,
    payer: Key,
    funds: nat,
    now: i64,
) -> LedgerView {
    if placement_error(pre, address, token, payer, funds, now) is None {
        placed(pre, address->0, token, payer, funds)
    } else {
        pre
    }
}

/// What the creation of `token` answers: what storing it at the address of
/// its triple answers.
pub open spec fn creation_outcome(
    pre: LedgerView,
    token: SessionToken,
    payer: Key,
    funds: nat,
    now: i64,
) -> Result<(), Error> {
    placement_outcome(pre, token_address(token), token, payer, funds, now)
}

/// The ledger that the creation of `token` leaves: the one that storing it
/// at the address of its triple leaves.
pub open spec fn after_creation(
    pre: LedgerView,
    token: SessionToken,
    payer: Key,
    funds: nat,
    now: i64,
) -> LedgerView {
    after_placement(pre, token_address(token), token, payer, funds, now)
}

/// The expiry of a creation: the one named, else an hour after `now`.
pub open spec fn expiry(valid_until: Option<i64>, now: i64) -> int {
    match valid_until {
        Some(instant) => instant as int,
        None => now + DEFAULT_VALIDITY,
    }
}

/// Whether an expiry lies more than a week after `now`. Close to the last
/// instant there is, no expiry does.
pub fn is_too_long(valid_until: i64, now: i64) -> (too_long: bool)
    ensures
        too_long == (valid_until > now + MAX_VALIDITY),
{
    now <= i64::MAX - MAX_VALIDITY && valid_until > now + MAX_VALIDITY
}

/// The funds that go to the session signer: see [`funding`].
pub fn funding_amount(top_up: bool, lamports: Option<u64>) -> (amount: u64)
    ensures
        amount == funding(top_up, lamports),
{
    if !top_up {
        0
    } else {
        match lamports {
            Some(amount) => amount,
            None => DEFAULT_TOP_UP,
        }
    }
}

/// Fills in what a caller left open: no top-up, and an expiry one hour after
/// `now`.
pub fn process_session_params(top_up: Option<bool>, valid_until: Option<i64>, now: i64) -> (params:
    (bool, i64))
    requires
        expiry(valid_until, now) <= i64::MAX,
    ensures
        params.0 == (top_up == Some(true)),
        params.1 == expiry(valid_until, now),
{
    let top_up = match top_up {
        Some(flag) => flag,
        None => false,
    };
    let valid_until = match valid_until {
        Some(instant) => instant,
        None => now + DEFAULT_VALIDITY,
    };
    (top_up, valid_until)
}

/// Stores `token` at `address`, the address that its triple was found to
/// have, at the instant `now`; `payer` pays the deposit and moves `funds` to
/// the session signer.
///
/// It answers with [`placement_outcome`] and leaves [`after_placement`]: a
/// failure changes nothing.
pub fn create_session_token_at(
    ledger: &mut Ledger,
    address: Option<Key>,
    token: SessionToken,
    payer: Key,
    funds: u64,
    now: i64,
) -> (outcome: Result<(), Error>)
    requires
        old(ledger).wf(),
    ensures
        final(ledger).wf(),
        outcome == placement_outcome(old(ledger)@, address, token, payer, funds as nat, now),
        final(ledger)@ == after_placement(old(ledger)@, address, token, payer, funds as nat, now),
{
    let address = match address {
        Some(address) => address,
        None => { return Err(Error::Allocation); },
    };
    if ledger.token(&address).is_some() {
        return Err(Error::Allocation);
    }
    let held = ledger.balance(&payer);
    if held < ledger.rent() {
        return Err(Error::Allocation);
    }
    if is_too_long(token.valid_until, now) {
        return Err(Error::Session(SessionError::ValidityTooLong));
    }
    if held - ledger.rent() < funds {
        return Err(Error::Transfer);
    }
    ledger.allocate(&address, token, &payer);
    ledger.transfer(&payer, &token.session_signer, funds);
    Ok(())
}

/// Creates the token of `authority` for `session_signer` and
/// `target_program` at the instant `now`, with `payer` paying.
///
/// It answers with [`creation_outcome`] and leaves [`after_creation`]: a
/// creation that fails changes nothing.
pub fn create_session_token_internal(
    ledger: &mut Ledger,
    authority: Key,
    target_program: Key,
    session_signer: Key,
    payer: Key,
    top_up: bool,
    valid_until: i64,
    lamports: Option<u64>,
    now: i64,
) -> (outcome: Result<(), Error>)
    requires
        old(ledger).wf(),
    ensures
        final(ledger).wf(),
        outcome == creation_outcome(
            old(ledger)@,
            SessionToken { authority, target_program, session_signer, valid_until },
            payer,
            funding(top_up, lamports),
            now,
        ),
        final(ledger)@ == after_creation(
            old(ledger)@,
            SessionToken { authority, target_program, session_signer, valid_until },
            payer,
            funding(top_up, lamports),
            now,
        ),
{
    let token = SessionToken { authority, target_program, session_signer, valid_until };
    let address = find_session_address(&target_program, &session_signer, &authority);
    let funds = funding_amount(top_up, lamports);
    create_session_token_at(ledger, address, token, payer, funds, now)
}

/// Creates a token that its authority pays for.
pub fn create_session_token_handler(
    ledger: &mut Ledger,
    ctx: CreateSessionToken,
    top_up: bool,
    valid_until: i64,
    lamports: Option<u64>,
    now: i64,
) -> (outcome: Result<(), Error>)
    requires
        old(ledger).wf(),
    ensures
        final(ledger).wf(),
        outcome == creation_outcome(
            old(ledger)@,
            ctx.token(valid_until),
            ctx.authority.key,
            funding(top_up, lamports),
            now,
        ),
        final(ledger)@ == after_creation(
            old(ledger)@,
            ctx.token(valid_until),
            ctx.authority.key,
            funding(top_up, lamports),
            now,
        ),
{
    create_session_token_internal(
        ledger,
        ctx.authority.key,
        ctx.target_program,
        ctx.session_signer.key,
        ctx.authority.key,
        top_up,
        valid_until,
        lamports,
        now,
    )
}

/// Creates a token that a payer of its own pays for. The token names the
/// authority, never the payer.
pub fn create_session_token_with_payer_handler(
    ledger: &mut Ledger,
    ctx: CreateSessionTokenWithPayer,
    top_up: bool,
    valid_until: i64,
    lamports: Option<u64>,
    now: i64,
) -> (outcome: Result<(), Error>)
    requires
        old(ledger).wf(),
    ensures
        final(ledger).wf(),
        outcome == creation_outcome(
            old(ledger)@,
            ctx.token(valid_until),
            ctx.payer.key,
            funding(top_up, lamports),
            now,
        ),
        final(ledger)@ == after_creation(
            old(ledger)@,
            ctx.token(valid_until),
            ctx.payer.key,
            funding(top_up, lamports),
            now,
        ),
{
    create_session_token_internal(
        ledger,
        ctx.authority.key,
        ctx.target_program,
        ctx.session_signer.key,
        ctx.payer.key,
        top_up,
        valid_until,
        lamports,
        now,
    )
}

/// Creates a session token at the instant `now`; the authority pays the
/// deposit and, with `top_up`, the funds for the session signer.
///
/// Where the caller names no expiry, an hour after `now` must be an instant
/// that the clock can show.
pub fn create_session(
    ledger: &mut Ledger,
    ctx: CreateSessionToken,
    top_up: Option<bool>,
    valid_until: Option<i64>,
    lamports: Option<u64>,
    now: i64,
) -> (outcome: Result<(), Error>)
    requires
        old(ledger).wf(),
        expiry(valid_until, now) <= i64::MAX,
    ensures
        final(ledger).wf(),
        outcome == creation_outcome(
            old(ledger)@,
            ctx.token(expiry(valid_until, now) as i64),
            ctx.authority.key,
            funding(top_up == Some(true), lamports),
            now,
        ),
        final(ledger)@ == after_creation(
            old(ledger)@,
            ctx.token(expiry(valid_until, now) as i64),
            ctx.authority.key,
            funding(top_up == Some(true), lamports),
            now,
        ),
{
    let (top_up, valid_until) = process_session_params(top_up, valid_until, now);
    create_session_token_handler(ledger, ctx, top_up, valid_until, lamports, now)
}

/// Creates a session token at the instant `now`; the payer pays the deposit
/// and, with `top_up`, the funds for the session signer.
///
/// Where the caller names no expiry, an hour after `now` must be an instant
/// that the clock can show.
pub fn create_session_with_payer(
    ledger: &mut Ledger,
    ctx: CreateSessionTokenWithPayer,
    top_up: Option<bool>,
    valid_until: Option<i64>,
    lamports: Option<u64>,
    now: i64,
) -> (outcome: Result<(), Error>)
    requires
        old(ledger).wf(),
        expiry(valid_until, now) <= i64::MAX,
    ensures
        final(ledger).wf(),
        outcome == creation_outcome(
            old(ledger)@,
            ctx.token(expiry(valid_until, now) as i64),
            ctx.payer.key,
            funding(top_up == Some(true), lamports),
            now,
        ),
        final(ledger)@ == after_creation(
            old(ledger)@,
            ctx.token(expiry(valid_until, now) as i64),
            ctx.payer.key,
            funding(top_up == Some(true), lamports),
            now,
        ),
{
    let (top_up, valid_until) = process_session_params(top_up, valid_until, now);
    create_session_token_with_payer_handler(ledger, ctx, top_up, valid_until, lamports, now)
}

} // verus!
