use vstd::prelude::*;

use crate::accounts::Address;

verus! {

/// The deterministic address (and its bump disambiguator) that the platform
/// derives from a seed path under a program identifier, or nothing in the
/// statistically improbable event that no bump yields a valid address, or
/// when the path itself is unusable (too many seeds, or a seed too long).
/// The derivation is a pure function of the path and the program identifier.
pub uninterp spec fn pda_of(path: Seq<Seq<u8>>, program_id: Seq<u8>) -> Option<(Seq<u8>, u8)>;

/// Relies on `solana_program::pubkey::Pubkey::try_find_program_address`: the
/// derived address and bump are a function of the seed path and the program
/// identifier alone, and the search returns `None` instead of panicking when
/// no bump works or the path is unusable.
#[verifier::external_body]
pub(crate) fn find_program_address(path: &Vec<Vec<u8>>, program_id: &Address) -> (r: Option<
    (Address, u8),
>)
    requires
        program_id@.len() == 32,
    ensures
        r matches Some(p) ==> pda_of(path.deep_view(), program_id@) == Some((p.0@, p.1))
            && p.0@.len() == 32,
        r is None ==> pda_of(path.deep_view(), program_id@) is None,
{
    let seeds: Vec<&[u8]> = path.iter().map(|s| s.as_slice()).collect();
    let mut arr = [0u8; 32];
    arr.copy_from_slice(program_id.as_slice());
    let pid = solana_program::pubkey::Pubkey::new_from_array(arr);
    solana_program::pubkey::Pubkey::try_find_program_address(&seeds, &pid)
        .map(|(key, bump)| (key.to_bytes().to_vec(), bump))
}

/// The token program's identifier, as its interface declares it.
pub open spec fn spec_spl_token_id() -> Seq<u8> {
    seq![
        6u8, 221u8, 246u8, 225u8, 215u8, 101u8, 161u8, 147u8, 217u8, 203u8, 225u8, 70u8, 206u8,
        235u8, 121u8, 172u8, 28u8, 180u8, 133u8, 237u8, 95u8, 91u8, 55u8, 145u8, 58u8, 140u8,
        245u8, 133u8, 126u8, 255u8, 0u8, 169u8,
    ]
}

/// Relies on `spl_token::id()`: the token program's identifier is the fixed
/// 32-byte constant that the interface crate declares.
#[verifier::external_body]
pub(crate) fn spl_token_id() -> (r: Address)
    ensures
        r@ == spec_spl_token_id(),
{
    spl_token::id().to_bytes().to_vec()
}

/// Whether a 165-byte buffer is a valid token-account encoding: each of the
/// three optional fields carries a 0 or 1 tag in its little-endian 32-bit
/// prefix, and the state byte is one of the three defined states.
pub open spec fn spl_account_bytes_ok(d: Seq<u8>) -> bool {
    d.len() == 165 && coption_tag_ok(d, 72) && d[108] <= 2 && coption_tag_ok(d, 109)
        && coption_tag_ok(d, 129)
}

/// Whether the four bytes at `off` are a valid optional-field tag.
pub open spec fn coption_tag_ok(d: Seq<u8>, off: int) -> bool {
    (d[off] == 0 || d[off] == 1) && d[off + 1] == 0 && d[off + 2] == 0 && d[off + 3] == 0
}

/// Relies on `spl_token::state::Account::unpack_unchecked` (through the
/// platform's `Pack` trait): it accepts exactly the buffers of length 165
/// whose optional-field tags and state byte are valid, and the token amount
/// it returns is the little-endian 64-bit field at bytes 64..72.
#[verifier::external_body]
pub(crate) fn unpack_token_amount(data: &Vec<u8>) -> (r: Option<u64>)
    ensures
        r is Some <==> spl_account_bytes_ok(data@),
        r matches Some(a) ==> a == vstd::bytes::spec_u64_from_le_bytes(data@.subrange(64, 72)),
{
    match <spl_token::state::Account as solana_program::program_pack::Pack>::unpack_unchecked(
        data.as_slice(),
    ) {
        Ok(acc) => Some(acc.amount),
        Err(_) => None,
    }
}

} // verus!
