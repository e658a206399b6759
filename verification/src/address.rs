use vstd::prelude::*;
use vstd::string::StringSliceAdditionalSpecFns;
use crate::key::Key;

verus! {

/// What `Pubkey::try_find_program_address` returns for the given seeds under
/// the given program: an address together with the bump seed that led to
/// it, or nothing.
pub uninterp spec fn program_address(seeds: Seq<Seq<u8>>, program_id: Seq<u8>) -> Option<([u8; 32], u8)>;

/// The tag that sets the addresses of session tokens apart from all others a
/// program may derive.
pub const SEED_PREFIX: &'static str = "session_token";

/// The seeds of a session token: the tag, then the target program, the
/// session signer and the authority.
pub open spec fn session_seeds(target_program: Key, session_signer: Key, authority: Key) -> Seq<
    Seq<u8>,
> {
    seq![SEED_PREFIX.spec_bytes(), target_program@, session_signer@, authority@]
}

/// Where the token of a triple is stored: the address that the seeds of the
/// triple give under the target program, if they give one.
pub open spec fn session_address(target_program: Key, session_signer: Key, authority: Key) -> Option<
    Key,
> {
    match program_address(
        session_seeds(target_program, session_signer, authority),
        target_program@,
    ) {
        Some((bytes, _)) => Some(Key { bytes }),
        None => None,
    }
}

/// Calls `Pubkey::try_find_program_address` of anchor_lang's prelude on the
/// four seeds, in this order, under the program with the given bytes. The
/// contract gives the outcome its name and claims nothing else of it.
#[verifier::external_body]
fn try_find_program_address(
    tag: &[u8],
    first: &[u8; 32],
    second: &[u8; 32],
    third: &[u8; 32],
    program_id: &[u8; 32],
) -> (found: Option<([u8; 32], u8)>)
    ensures
        found == program_address(seq![tag@, first@, second@, third@], program_id@),
{
    let program = anchor_lang::prelude::Pubkey::new_from_array(*program_id);
    let seeds: [&[u8]; 4] = [tag, first, second, third];
    match anchor_lang::prelude::Pubkey::try_find_program_address(&seeds, &program) {
        Some((address, bump)) => Some((address.to_bytes(), bump)),
        None => None,
    }
}

/// Derives the address at which the token of the triple is stored.
pub fn find_session_address(target_program: &Key, session_signer: &Key, authority: &Key) -> (address:
    Option<Key>)
    ensures
        address == session_address(*target_program, *session_signer, *authority),
{
    match try_find_program_address(
        SEED_PREFIX.as_bytes(),
        &target_program.bytes,
        &session_signer.bytes,
        &authority.bytes,
        &target_program.bytes,
    ) {
        Some((bytes, _)) => Some(Key { bytes }),
        None => None,
    }
}

/// Whether `location` is the address at which the token of the triple is
/// stored.
pub fn is_session_address(
    location: &Key,
    target_program: &Key,
    session_signer: &Key,
    authority: &Key,
) -> (found: bool)
    ensures
        found == (session_address(*target_program, *session_signer, *authority) == Some(
            *location,
        )),
{
    match find_session_address(target_program, session_signer, authority) {
        Some(address) => address.same(location),
        None => false,
    }
}

} // verus!
