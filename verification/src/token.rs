use vstd::prelude::*;
use vstd::std_specs::cmp::PartialEqSpecImpl;
use crate::address::{find_session_address, session_address, SEED_PREFIX};
use crate::error::SessionError;
use crate::key::Key;

verus! {

/// The grant itself: `authority` lets `session_signer` sign in its place for
/// calls into `target_program`, until `valid_until`.
#[derive(Clone, Copy, Debug, Eq)]
pub struct SessionToken {
    pub authority: Key,
    pub target_program: Key,
    pub session_signer: Key,
    pub valid_until: i64,
}

impl PartialEq for SessionToken {
    fn eq(&self, other: &SessionToken) -> (equal: bool) {
        self.authority == other.authority && self.target_program == other.target_program
            && self.session_signer == other.session_signer && self.valid_until
            == other.valid_until
    }
}

impl PartialEqSpecImpl for SessionToken {
    open spec fn obeys_eq_spec() -> bool {
        true
    }

    open spec fn eq_spec(&self, other: &SessionToken) -> bool {
        *self == *other
    }
}

/// A key whose signature stands on the enclosing call.
#[derive(Clone, Copy, Debug)]
pub struct Signer {
    pub key: Key,
}

/// A token as a call presents it: the record and the address it was read
/// from.
#[derive(Clone, Copy, Debug)]
pub struct TokenAccount {
    pub key: Key,
    pub token: SessionToken,
}

/// What a token is checked against: the token as presented and the triple
/// that the call claims.
#[derive(Clone, Copy, Debug)]
pub struct ValidityChecker {
    pub session_token: TokenAccount,
    pub session_signer: Signer,
    pub authority: Key,
    pub target_program: Key,
}

/// The answer for a token with the expiry `valid_until` that was read from
/// `location`, where the triple that the call claims has the address
/// `expected`, at the instant `now`.
///
/// A token from any other address than the expected one is invalid, and so
/// is every token where the triple has no address. A token from the expected
/// address is valid strictly before its expiry and no longer valid from its
/// expiry on, which is an answer and no error.
pub open spec fn placement_validity(
    expected: Option<Key>,
    location: Key,
    valid_until: i64,
    now: i64,
) -> Result<bool, SessionError> {
    if expected == Some(location) {
        Ok(now < valid_until)
    } else {
        Err(SessionError::InvalidToken)
    }
}

/// The answer that a call gets when it presents `token` and claims the given
/// triple at the instant `now`: without a token it is refused for want of
/// one; with a token, [`placement_validity`] decides, on the address of the
/// claimed triple.
pub open spec fn validity(
    token: Option<TokenAccount>,
    session_signer: Signer,
    authority: Key,
    target_program: Key,
    now: i64,
) -> Result<bool, SessionError> {
    match token {
        None => Err(SessionError::NoToken),
        Some(account) => placement_validity(
            session_address(target_program, session_signer.key, authority),
            account.key,
            account.token.valid_until,
            now,
        ),
    }
}

impl SessionToken {
    /// The bytes a stored token takes: an 8-byte header, three keys and the
    /// 8-byte expiry.
    pub const LEN: usize = 8 + 32 + 32 + 32 + 8;

    /// The tag among the seeds of the address of a token.
    pub const SEED_PREFIX: &'static str = SEED_PREFIX;

    /// Whether `now` still lies before `valid_until`.
    ///
    /// Mind the sense: the name says "expired", the answer says "still
    /// live". It is `true` strictly before `valid_until` and `false` from
    /// that instant on, and it is handed on unchanged as the validity of the
    /// token: see [`placement_validity`]. Callers read `true` as "may go
    /// on", never as "has run out".
    pub fn is_expired(&self, now: i64) -> (live: bool)
        ensures
            live == (now < self.valid_until),
    {
        now < self.valid_until
    }

    /// Checks this token, read from `location`, against the address
    /// `expected` that the claimed triple has.
    pub fn validate_at(&self, expected: Option<Key>, location: &Key, now: i64) -> (outcome: Result<
        bool,
        SessionError,
    >)
        ensures
            outcome == placement_validity(expected, *location, self.valid_until, now),
    {
        match expected {
            Some(address) => {
                if address.same(location) {
                    Ok(self.is_expired(now))
                } else {
                    Err(SessionError::InvalidToken)
                }
            },
            None => Err(SessionError::InvalidToken),
        }
    }

    /// Checks this token against `ctx` at the instant `now`.
    ///
    /// The address is derived from the triple that `ctx` claims, never from
    /// the fields of a token, and compared with the address that the token of
    /// `ctx` was read from. The expiry is the one of this token.
    pub fn validate(&self, ctx: ValidityChecker, now: i64) -> (outcome: Result<bool, SessionError>)
        ensures
            outcome == placement_validity(
                session_address(ctx.target_program, ctx.session_signer.key, ctx.authority),
                ctx.session_token.key,
                self.valid_until,
                now,
            ),
    {
        let expected = find_session_address(
            &ctx.target_program,
            &ctx.session_signer.key,
            &ctx.authority,
        );
        self.validate_at(expected, &ctx.session_token.key, now)
    }
}

/// Decides a call from what its four accessors gave.
pub fn check_session(
    token: Option<TokenAccount>,
    session_signer: Signer,
    authority: Key,
    target_program: Key,
    now: i64,
) -> (outcome: Result<bool, SessionError>)
    ensures
        outcome == validity(token, session_signer, authority, target_program, now),
        token is None ==> outcome == Err::<bool, SessionError>(SessionError::NoToken),
        token is Some ==> outcome != Err::<bool, SessionError>(SessionError::NoToken),
{
    match token {
        None => Err(SessionError::NoToken),
        Some(account) => {
            let ctx = ValidityChecker {
                session_token: account,
                session_signer,
                authority,
                target_program,
            };
            account.token.validate(ctx, now)
        },
    }
}

/// What every privileged call offers so that its session can be checked:
/// four accessors, and the check made of them.
pub trait Session {
    /// The token that the call presents, if any.
    fn session_token(&self) -> Option<TokenAccount>;

    /// The signer of the call.
    fn session_signer(&self) -> Signer;

    /// The authority that the call claims to act for.
    fn session_authority(&self) -> Key;

    /// The program that the call is directed at.
    fn target_program(&self) -> Key;

    /// Whether the call may go on at the instant `now`: the answer of
    /// [`validity`] on what the four accessors give.
    fn is_valid(&self, now: i64) -> (outcome: Result<bool, SessionError>)
        ensures
            exists|token: Option<TokenAccount>, signer: Signer, authority: Key, program: Key|
                {
                    &&& #[trigger] call_ensures(Self::session_token, (self,), token)
                    &&& #[trigger] call_ensures(Self::session_signer, (self,), signer)
                    &&& #[trigger] call_ensures(Self::session_authority, (self,), authority)
                    &&& #[trigger] call_ensures(Self::target_program, (self,), program)
                    &&& outcome == validity(token, signer, authority, program, now)
                },
    {
        let token = self.session_token();
        let signer = self.session_signer();
        let authority = self.session_authority();
        let program = self.target_program();
        check_session(token, signer, authority, program, now)
    }
}

impl Session for ValidityChecker {
    fn session_token(&self) -> (token: Option<TokenAccount>)
        ensures
            token == Some(self.session_token),
    {
        Some(self.session_token)
    }

    fn session_signer(&self) -> (signer: Signer)
        ensures
            signer == self.session_signer,
    {
        self.session_signer
    }

    fn session_authority(&self) -> (authority: Key)
        ensures
            authority == self.authority,
    {
        self.authority
    }

    fn target_program(&self) -> (program: Key)
        ensures
            program == self.target_program,
    {
        self.target_program
    }
}

} // verus!
