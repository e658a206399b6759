use vstd::prelude::*;
use crate::error::Error;
use crate::key::Key;
use crate::ledger::{credited, Ledger, LedgerView};

verus! {

/// The accounts of a revocation: the address of the token to revoke. No
/// signer is among them, since anyone may revoke.
#[derive(Clone, Copy, Debug)]
pub struct RevokeSessionToken {
    pub session_token: Key,
}

/// The ledger after the token stored at `address` has been revoked: the token
/// is gone, and its deposit is with the authority that the token named.
pub open spec fn revoked(pre: LedgerView, address: Key) -> LedgerView
    recommends
        pre.records.contains_key(address),
{
    LedgerView {
        balances: credited(
            pre.balances,
            pre.records[address].token.authority,
            pre.records[address].deposit as nat,
        ),
        records: pre.records.remove(address),
        ..pre
    }
}

/// What the revocation answers: an error where no token is stored at
/// `address`.
pub open spec fn revocation_outcome(pre: LedgerView, address: Key) -> Result<(), Error> {
    if pre.records.contains_key(address) {
        Ok(())
    } else {
        Err(Error::NoRecord)
    }
}

/// The ledger that the revocation leaves: [`revoked`] where a token is
/// stored at `address`, and `pre` itself where none is.
pub open spec fn after_revocation(pre: LedgerView, address: Key) -> LedgerView {
    if pre.records.contains_key(address) {
        revoked(pre, address)
    } else {
        pre
    }
}

/// Removes the token that `ctx` names and returns its deposit to the
/// authority that the token names, whoever calls.
pub fn revoke_session_token_handler(ledger: &mut Ledger, ctx: RevokeSessionToken) -> (outcome:
    Result<(), Error>)
    requires
        old(ledger).wf(),
    ensures
        final(ledger).wf(),
        outcome == revocation_outcome(old(ledger)@, ctx.session_token),
        final(ledger)@ == after_revocation(old(ledger)@, ctx.session_token),
{
    if ledger.token(&ctx.session_token).is_none() {
        return Err(Error::NoRecord);
    }
    let _ = ledger.close(&ctx.session_token);
    Ok(())
}

/// Revokes a session token ahead of its expiry.
pub fn revoke_session(ledger: &mut Ledger, ctx: RevokeSessionToken) -> (outcome: Result<(), Error>)
    requires
        old(ledger).wf(),
    ensures
        final(ledger).wf(),
        outcome == revocation_outcome(old(ledger)@, ctx.session_token),
        final(ledger)@ == after_revocation(old(ledger)@, ctx.session_token),
{
    revoke_session_token_handler(ledger, ctx)
}

} // verus!
