pub mod key;
pub mod error;
pub mod address;
pub mod token;
pub mod ledger;
pub mod create;
pub mod revoke;
pub mod laws;

pub use address::{find_session_address, is_session_address};
pub use create::{
    create_session, create_session_token_at, create_session_token_handler,
    create_session_token_internal, create_session_token_with_payer_handler,
    create_session_with_payer, funding_amount, is_too_long, process_session_params,
    CreateSessionToken, CreateSessionTokenWithPayer,
};
pub use error::{Error, SessionError};
pub use key::Key;
pub use ledger::{Ledger, StoredToken};
pub use revoke::{revoke_session, revoke_session_token_handler, RevokeSessionToken};
pub use token::{check_session, Session, SessionToken, Signer, TokenAccount, ValidityChecker};
