use vstd::prelude::*;

use crate::accounts::{
    account_data_updated, accounts_wf, address_eq, AccountRecord, Address,
};
use crate::codec::{
    pack_client, parse_client, parse_presale, store_client, ClientData, ClientView, PresaleData,
    CLIENT_DATA_SIZE, PRESALE_DATA_SIZE,
};
use crate::errors::{PresaleError, ProgramFailure};
use crate::guards::{
    assert_derivation, assert_owned_by, assert_signer, build_client_seed_path, client_seed_path,
    derivation_ok,
};

verus! {

/// The outcome of whitelisting a member: the client record with the
/// eligibility flag set, or the first failing check. Whitelisting is only
/// permitted before the sale opens.
pub open spec fn whitelist_check(program_id: Seq<u8>, accs: Seq<AccountRecord>) -> Result<
    ClientView,
    ProgramFailure,
> {
    if accs.len() < 4 {
        Err(ProgramFailure::NotEnoughAccountKeys)
    } else if accs[2].owner@ != program_id {
        Err(ProgramFailure::Presale(PresaleError::IncorrectOwner))
    } else if accs[3].owner@ != program_id {
        Err(ProgramFailure::Presale(PresaleError::IncorrectOwner))
    } else if !accs[0].is_signer {
        Err(ProgramFailure::MissingRequiredSignature)
    } else if !derivation_ok(
        client_seed_path(program_id, accs[2].key@, accs[1].key@),
        program_id,
        accs[3].key@,
    ) {
        Err(ProgramFailure::Presale(PresaleError::DerivedKeyInvalid))
    } else if accs[2].data@.len() != PRESALE_DATA_SIZE {
        Err(ProgramFailure::Presale(PresaleError::DataTypeMismatch))
    } else {
        match parse_presale(accs[2].data@) {
            None => Err(ProgramFailure::InvalidAccountData),
            Some(p) => {
                if accs[3].data@.len() != CLIENT_DATA_SIZE {
                    Err(ProgramFailure::Presale(PresaleError::DataTypeMismatch))
                } else {
                    match parse_client(accs[3].data@) {
                        None => Err(ProgramFailure::InvalidAccountData),
                        Some(c) => {
                            if p.authority != accs[0].key@ {
                                Err(ProgramFailure::Presale(PresaleError::InvalidAuthority))
                            } else if c.owner != accs[1].key@ {
                                Err(ProgramFailure::Presale(PresaleError::InvalidClientOwner))
                            } else if c.presale != accs[2].key@ {
                                Err(ProgramFailure::Presale(PresaleError::InvalidPresaleAccount))
                            } else if p.is_active {
                                Err(ProgramFailure::Presale(PresaleError::AlreadyStarted))
                            } else {
                                Ok(ClientView { is_whitelisted: true, ..c })
                            }
                        },
                    }
                }
            },
        }
    }
}

/// Marks a member as eligible for a whitelist-gated sale. Only the
/// configured authority may do so, only against the member's own derived
/// client record, and only while the sale is still closed; on success the
/// eligibility flag is set and the client record is rewritten in place.
pub fn add_to_whitelist(program_id: &Address, accounts: &mut Vec<AccountRecord>) -> (r: Result<
    (),
    ProgramFailure,
>)
    requires
        program_id@.len() == 32,
        accounts_wf(old(accounts)@),
    ensures
        r matches Err(e) ==> final(accounts)@ == old(accounts)@ && whitelist_check(
            program_id@,
            old(accounts)@,
        ) == Err::<ClientView, ProgramFailure>(e),
        r matches Ok(()) ==> whitelist_check(program_id@, old(accounts)@) matches Ok(c2)
            && account_data_updated(old(accounts)@, final(accounts)@, 3, pack_client(c2)),
{
    if accounts.len() < 4 {
        return Err(ProgramFailure::NotEnoughAccountKeys);
    }
    assert_owned_by(&accounts[2], program_id)?;
    assert_owned_by(&accounts[3], program_id)?;
    assert_signer(&accounts[0])?;
    let path = build_client_seed_path(program_id, &accounts[2].key, &accounts[1].key);
    match assert_derivation(program_id, &accounts[3], &path) {
        Ok(_) => (),
        Err(e) => {
            return Err(e);
        },
    }
    let presale = PresaleData::from_account_info(&accounts[2])?;
    let mut client = ClientData::from_account_info(&accounts[3])?;
    if !address_eq(&presale.authority, &accounts[0].key) {
        return Err(ProgramFailure::Presale(PresaleError::InvalidAuthority));
    }
    if !address_eq(&client.owner, &accounts[1].key) {
        return Err(ProgramFailure::Presale(PresaleError::InvalidClientOwner));
    }
    if !address_eq(&client.presale, &accounts[2].key) {
        return Err(ProgramFailure::Presale(PresaleError::InvalidPresaleAccount));
    }
    if presale.is_active {
        return Err(ProgramFailure::Presale(PresaleError::AlreadyStarted));
    }
    client.is_whitelisted = true;
    proof {
        assert(whitelist_check(program_id@, accounts@) matches Ok(c2) && c2 =~= client@);
    }
    store_client(accounts, 3, &client);
    Ok(())
}

} // verus!
