use vstd::prelude::*;

use crate::accounts::{address_eq, copy_bytes, AccountRecord, Address};
use crate::errors::{PresaleError, ProgramFailure};
use crate::platform::{find_program_address, pda_of};

verus! {

/// Rejects an account whose owner identifier is not the expected one.
pub fn assert_owned_by(account: &AccountRecord, owner: &Address) -> (r: Result<
    (),
    ProgramFailure,
>)
    ensures
        account.owner@ == owner@ ==> r == Ok::<(), ProgramFailure>(()),
        account.owner@ != owner@ ==> r == Err::<(), ProgramFailure>(
            ProgramFailure::Presale(PresaleError::IncorrectOwner),
        ),
{
    if address_eq(&account.owner, owner) {
        Ok(())
    } else {
        Err(ProgramFailure::Presale(PresaleError::IncorrectOwner))
    }
}

/// Rejects an account that did not co-sign the instruction.
pub fn assert_signer(account: &AccountRecord) -> (r: Result<(), ProgramFailure>)
    ensures
        account.is_signer ==> r == Ok::<(), ProgramFailure>(()),
        !account.is_signer ==> r == Err::<(), ProgramFailure>(
            ProgramFailure::MissingRequiredSignature,
        ),
{
    if account.is_signer {
        Ok(())
    } else {
        Err(ProgramFailure::MissingRequiredSignature)
    }
}

/// Whether the derivation of `path` under `program_id` lands exactly on
/// `key`, with bump `bump`.
pub open spec fn derivation_matches(
    path: Seq<Seq<u8>>,
    program_id: Seq<u8>,
    key: Seq<u8>,
    bump: u8,
) -> bool {
    pda_of(path, program_id) == Some((key, bump))
}

/// Whether some bump makes the derivation of `path` under `program_id` land
/// on `key`. Since the derivation is deterministic, at most one key can
/// satisfy this for a given path.
pub open spec fn derivation_ok(path: Seq<Seq<u8>>, program_id: Seq<u8>, key: Seq<u8>) -> bool {
    exists|b: u8| derivation_matches(path, program_id, key, b)
}

/// Recomputes the deterministic address for `path` under `program_id` and
/// rejects the account unless its address is exactly the derived one; on
/// success returns the bump disambiguator. When no address can be derived at
/// all, the account cannot be the derived one, and is rejected the same way.
pub fn assert_derivation(program_id: &Address, account: &AccountRecord, path: &Vec<Vec<u8>>) -> (r:
    Result<u8, ProgramFailure>)
    requires
        program_id@.len() == 32,
    ensures
        r matches Ok(b) ==> derivation_matches(path.deep_view(), program_id@, account.key@, b),
        r matches Err(e) ==> e == ProgramFailure::Presale(PresaleError::DerivedKeyInvalid)
            && (forall|b: u8| !derivation_matches(path.deep_view(), program_id@, account.key@, b)),
{
    match find_program_address(path, program_id) {
        Some((key, bump)) => {
            if address_eq(&key, &account.key) {
                Ok(bump)
            } else {
                Err(ProgramFailure::Presale(PresaleError::DerivedKeyInvalid))
            }
        },
        None => Err(ProgramFailure::Presale(PresaleError::DerivedKeyInvalid)),
    }
}

/// The seed prefix of every client record: the bytes of the word "presale".
pub open spec fn presale_seed() -> Seq<u8> {
    seq![0x70u8, 0x72u8, 0x65u8, 0x73u8, 0x61u8, 0x6cu8, 0x65u8]
}

/// The seed path a client record is derived from: the fixed prefix, the
/// program identifier, the presale record's address, and the participant's
/// address.
pub open spec fn client_seed_path(
    program_id: Seq<u8>,
    presale_key: Seq<u8>,
    member_key: Seq<u8>,
) -> Seq<Seq<u8>> {
    seq![presale_seed(), program_id, presale_key, member_key]
}

/// Builds the client-record seed path as concrete byte vectors.
pub fn build_client_seed_path(
    program_id: &Address,
    presale_key: &Address,
    member_key: &Address,
) -> (r: Vec<Vec<u8>>)
    ensures
        r.deep_view() == client_seed_path(program_id@, presale_key@, member_key@),
{
    let mut prefix: Vec<u8> = Vec::new();
    prefix.push(0x70);
    prefix.push(0x72);
    prefix.push(0x65);
    prefix.push(0x73);
    prefix.push(0x61);
    prefix.push(0x6c);
    prefix.push(0x65);
    let mut path: Vec<Vec<u8>> = Vec::new();
    path.push(prefix);
    path.push(copy_bytes(program_id));
    path.push(copy_bytes(presale_key));
    path.push(copy_bytes(member_key));
    proof {
        assert(path.deep_view() =~~= client_seed_path(program_id@, presale_key@, member_key@));
    }
    path
}

/// Law: the derived address is deterministic — under one program identifier
/// and one seed path, any two accounts that pass the derivation check carry
/// the same address, so at most one valid client record exists per
/// (program, presale, participant) triple.
pub proof fn lemma_derived_address_unique(
    path: Seq<Seq<u8>>,
    program_id: Seq<u8>,
    key1: Seq<u8>,
    bump1: u8,
    key2: Seq<u8>,
    bump2: u8,
)
    requires
        derivation_matches(path, program_id, key1, bump1),
        derivation_matches(path, program_id, key2, bump2),
    ensures
        key1 == key2,
        bump1 == bump2,
{
}

} // verus!
