use vstd::prelude::*;
use crate::address::session_address;
use crate::create::{after_creation, creation_outcome, token_address, MAX_VALIDITY};
use crate::error::{Error, SessionError};
use crate::key::Key;
use crate::ledger::{LedgerView, StoredToken};
use crate::revoke::{after_revocation, revocation_outcome};
use crate::token::{validity, Session, SessionToken, Signer, TokenAccount};

verus! {

/// Whether the ledger `pre` can take the token from `payer`: the token has
/// an address, no token is stored there, and the payer holds the deposit and
/// the funds for the session signer besides.
pub open spec fn admits(pre: LedgerView, token: SessionToken, payer: Key, funds: nat) -> bool {
    &&& token_address(token) is Some
    &&& !pre.records.contains_key(token_address(token)->0)
    &&& pre.balances[payer] >= pre.rent + funds
}

/// A creation whose expiry lies at most a week ahead succeeds on a ledger
/// that admits it, and the token then stored at its address is the very
/// token asked for, with the rent held against it.
pub proof fn law_creation_stores_the_token(
    pre: LedgerView,
    token: SessionToken,
    payer: Key,
    funds: nat,
    now: i64,
)
    requires
        pre.sound(),
        admits(pre, token, payer, funds),
        token.valid_until <= now + MAX_VALIDITY,
    ensures
        creation_outcome(pre, token, payer, funds, now) is Ok,
        after_creation(pre, token, payer, funds, now).records.contains_key(
            token_address(token)->0,
        ),
        after_creation(pre, token, payer, funds, now).records[token_address(token)->0] == (
        StoredToken { token, deposit: pre.rent as u64 }),
{
}

/// A token that has just been created passes the check of a call that
/// presents it from its address and claims its triple, strictly before its
/// expiry; from the expiry on the check answers that it is no longer valid.
pub proof fn law_created_token_passes_the_check(
    pre: LedgerView,
    token: SessionToken,
    payer: Key,
    funds: nat,
    now: i64,
    later: i64,
)
    requires
        pre.sound(),
        creation_outcome(pre, token, payer, funds, now) is Ok,
    ensures
        validity(
            Some(
                TokenAccount {
                    key: token_address(token)->0,
                    token: after_creation(pre, token, payer, funds, now).records[token_address(
                        token,
                    )->0].token,
                },
            ),
            Signer { key: token.session_signer },
            token.authority,
            token.target_program,
            later,
        ) == Ok::<bool, SessionError>(later < token.valid_until),
{
}

/// A creation whose expiry lies more than a week ahead is refused as too
/// long on a ledger that could store the token, and no token is stored at
/// its address afterwards.
pub proof fn law_long_validity_is_refused(
    pre: LedgerView,
    token: SessionToken,
    payer: Key,
    funds: nat,
    now: i64,
)
    requires
        pre.sound(),
        token_address(token) is Some,
        !pre.records.contains_key(token_address(token)->0),
        pre.balances[payer] >= pre.rent,
        token.valid_until > now + MAX_VALIDITY,
    ensures
        creation_outcome(pre, token, payer, funds, now) == Err::<(), Error>(
            Error::Session(SessionError::ValidityTooLong),
        ),
        after_creation(pre, token, payer, funds, now) == pre,
        !after_creation(pre, token, payer, funds, now).records.contains_key(
            token_address(token)->0,
        ),
{
}

/// An expiry that lies more than a week ahead is never accepted, whatever
/// the ledger holds.
pub proof fn law_long_validity_never_succeeds(
    pre: LedgerView,
    token: SessionToken,
    payer: Key,
    funds: nat,
    now: i64,
)
    requires
        token.valid_until > now + MAX_VALIDITY,
    ensures
        creation_outcome(pre, token, payer, funds, now) is Err,
        after_creation(pre, token, payer, funds, now) == pre,
{
}

/// While a token is stored at the address of a triple, every creation for
/// that triple fails because the ledger cannot store the token, whoever
/// pays and whatever expiry and funds it asks for, at any instant. The error
/// is never one of sessions, and the ledger, the stored token with it, stays
/// as it was.
pub proof fn law_creation_at_a_taken_address_fails(
    pre: LedgerView,
    token: SessionToken,
    payer: Key,
    funds: nat,
    now: i64,
)
    requires
        token_address(token) is Some,
        pre.records.contains_key(token_address(token)->0),
    ensures
        creation_outcome(pre, token, payer, funds, now) == Err::<(), Error>(Error::Allocation),
        after_creation(pre, token, payer, funds, now) == pre,
{
}

/// Once a token has been created for a triple, a second creation for the
/// same triple fails, whoever pays and whatever expiry it asks for, and the
/// first token stays as it was stored.
pub proof fn law_second_creation_fails(
    pre: LedgerView,
    first: SessionToken,
    payer: Key,
    funds: nat,
    now: i64,
    second: SessionToken,
    other_payer: Key,
    other_funds: nat,
    later: i64,
)
    requires
        pre.sound(),
        creation_outcome(pre, first, payer, funds, now) is Ok,
        second.authority == first.authority,
        second.target_program == first.target_program,
        second.session_signer == first.session_signer,
    ensures
        creation_outcome(
            after_creation(pre, first, payer, funds, now),
            second,
            other_payer,
            other_funds,
            later,
        ) == Err::<(), Error>(Error::Allocation),
        after_creation(
            after_creation(pre, first, payer, funds, now),
            second,
            other_payer,
            other_funds,
            later,
        ) == after_creation(pre, first, payer, funds, now),
        after_creation(pre, first, payer, funds, now).records[token_address(first)->0].token
            == first,
{
}

/// A creation changes no token that was stored before it: each is still
/// stored at its address, with the fields and the deposit that it had.
pub proof fn law_creation_keeps_stored_tokens(
    pre: LedgerView,
    token: SessionToken,
    payer: Key,
    funds: nat,
    now: i64,
    address: Key,
)
    requires
        pre.sound(),
        pre.records.contains_key(address),
    ensures
        after_creation(pre, token, payer, funds, now).records.contains_key(address),
        after_creation(pre, token, payer, funds, now).records[address] == pre.records[address],
{
}

/// Revoking a stored token removes it from its address and adds exactly its
/// deposit to the funds of the authority that the token names; the funds of
/// every other key and all other tokens stay as they were.
pub proof fn law_revocation_returns_the_deposit(pre: LedgerView, address: Key)
    requires
        pre.sound(),
        pre.records.contains_key(address),
    ensures
        revocation_outcome(pre, address) is Ok,
        !after_revocation(pre, address).records.contains_key(address),
        after_revocation(pre, address).balances[pre.records[address].token.authority]
            == pre.balances[pre.records[address].token.authority] + pre.records[address].deposit,
        forall|key: Key|
            key != pre.records[address].token.authority ==> #[trigger] after_revocation(
                pre,
                address,
            ).balances[key] == pre.balances[key],
        forall|other: Key|
            other != address ==> (#[trigger] after_revocation(pre, address).records.contains_key(
                other,
            ) == pre.records.contains_key(other) && after_revocation(pre, address).records[other]
                == pre.records[other]),
{
}

/// After a token has been revoked, a token can be created at its address
/// again: a creation for a triple with that address succeeds if its expiry
/// lies at most a week ahead and the payer holds the deposit and the funds.
pub proof fn law_creation_succeeds_after_revocation(
    pre: LedgerView,
    address: Key,
    token: SessionToken,
    payer: Key,
    funds: nat,
    now: i64,
)
    requires
        pre.sound(),
        pre.records.contains_key(address),
        token_address(token) == Some(address),
        token.valid_until <= now + MAX_VALIDITY,
        after_revocation(pre, address).balances[payer] >= pre.rent + funds,
    ensures
        creation_outcome(after_revocation(pre, address), token, payer, funds, now) is Ok,
        after_creation(after_revocation(pre, address), token, payer, funds, now).records[address]
            == (StoredToken { token, deposit: pre.rent as u64 }),
{
}

/// Neither a creation nor a revocation changes the supply or the rent of the
/// ledger.
pub proof fn law_supply_is_kept(
    pre: LedgerView,
    token: SessionToken,
    payer: Key,
    funds: nat,
    now: i64,
    address: Key,
)
    ensures
        after_creation(pre, token, payer, funds, now).supply == pre.supply,
        after_creation(pre, token, payer, funds, now).rent == pre.rent,
        after_revocation(pre, address).supply == pre.supply,
        after_revocation(pre, address).rent == pre.rent,
{
}

/// A call that presents a token from another address than the one that its
/// claimed triple has is refused as invalid, whatever the token says and
/// whatever is stored elsewhere.
pub proof fn law_misplaced_token_is_invalid(
    account: TokenAccount,
    session_signer: Signer,
    authority: Key,
    target_program: Key,
    now: i64,
)
    requires
        session_address(target_program, session_signer.key, authority) != Some(account.key),
    ensures
        validity(Some(account), session_signer, authority, target_program, now) == Err::<
            bool,
            SessionError,
        >(SessionError::InvalidToken),
{
}

/// A call that presents no token is refused for want of one, whatever triple
/// it claims.
pub proof fn law_missing_token_is_refused(
    session_signer: Signer,
    authority: Key,
    target_program: Key,
    now: i64,
)
    ensures
        validity(None, session_signer, authority, target_program, now) == Err::<
            bool,
            SessionError,
        >(SessionError::NoToken),
{
}

/// A call whose token accessor gives nothing is refused for want of a token,
/// whatever its other accessors give.
pub proof fn law_call_without_token_is_refused<S: Session>(
    call: &S,
    now: i64,
    outcome: Result<bool, SessionError>,
)
    requires
        call_ensures(S::is_valid, (call, now), outcome),
        forall|token: Option<TokenAccount>| #[trigger]
            call_ensures(S::session_token, (call,), token) ==> token is None,
    ensures
        outcome == Err::<bool, SessionError>(SessionError::NoToken),
{
}

/// Whether the accessors of `call` may give these four values.
pub open spec fn offers<S: Session>(
    call: &S,
    token: Option<TokenAccount>,
    signer: Signer,
    authority: Key,
    program: Key,
) -> bool {
    &&& call_ensures(S::session_token, (call,), token)
    &&& call_ensures(S::session_signer, (call,), signer)
    &&& call_ensures(S::session_authority, (call,), authority)
    &&& call_ensures(S::target_program, (call,), program)
}

/// A call is never found valid on a token that lies elsewhere than at the
/// address of the triple that its accessors give: it is refused, as invalid
/// where it presents a token and for want of one where it presents none.
pub proof fn law_call_with_misplaced_token_is_refused<S: Session>(
    call: &S,
    now: i64,
    outcome: Result<bool, SessionError>,
)
    requires
        call_ensures(S::is_valid, (call, now), outcome),
        forall|token: Option<TokenAccount>, signer: Signer, authority: Key, program: Key|
            #[trigger] offers(call, token, signer, authority, program) && token is Some
                ==> session_address(program, signer.key, authority) != Some(token->0.key),
    ensures
        outcome == Err::<bool, SessionError>(SessionError::InvalidToken) || outcome == Err::<
            bool,
            SessionError,
        >(SessionError::NoToken),
{
    let (token, signer, authority, program) = choose|
        token: Option<TokenAccount>,
        signer: Signer,
        authority: Key,
        program: Key,
    |
        {
            &&& #[trigger] call_ensures(S::session_token, (call,), token)
            &&& #[trigger] call_ensures(S::session_signer, (call,), signer)
            &&& #[trigger] call_ensures(S::session_authority, (call,), authority)
            &&& #[trigger] call_ensures(S::target_program, (call,), program)
            &&& outcome == validity(token, signer, authority, program, now)
        };
    assert(offers(call, token, signer, authority, program));
}

/// A token presented from the address of the claimed triple is valid
/// strictly before its expiry and no longer valid from its expiry on; it is
/// never an error.
pub proof fn law_placed_token_is_live_until_expiry(
    account: TokenAccount,
    session_signer: Signer,
    authority: Key,
    target_program: Key,
    now: i64,
)
    requires
        session_address(target_program, session_signer.key, authority) == Some(account.key),
    ensures
        validity(Some(account), session_signer, authority, target_program, now) == Ok::<
            bool,
            SessionError,
        >(now < account.token.valid_until),
{
}

} // verus!
