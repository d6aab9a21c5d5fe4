use vstd::prelude::*;

use crate::accounts::{
    account_data_updated, accounts_wf, address_eq, copy_bytes, AccountRecord, Address,
};
use crate::codec::{
    pack_client, parse_client, parse_presale, store_client, ClientData, ClientView, PresaleData,
    PresaleView, CLIENT_DATA_SIZE, PRESALE_DATA_SIZE,
};
use crate::errors::{PresaleError, ProgramFailure};
use crate::guards::{
    assert_derivation, assert_owned_by, assert_signer, build_client_seed_path, client_seed_path,
    derivation_ok,
};
use crate::instruction::DistributeTokenArgs;
use crate::platform::{spec_spl_token_id, spl_token_id};

verus! {

/// Everything the caller needs to pay out a participant's owed share in the
/// sale token: the two token accounts and the authority of the movement,
/// and the three factors of the payout formula — the participant's
/// cumulative purchase, the raw bits of the floating-point exchange rate,
/// and the owed percentage. The payout amount itself is
/// `purchase × rate ÷ 100 × percentage`, truncated; this core does not
/// interpret the rate bits, so the caller evaluates the formula.
#[derive(Debug)]
pub struct PayoutRequest {
    pub source: Address,
    pub destination: Address,
    pub authority: Address,
    pub token_program: Address,
    pub client_amount: u64,
    pub token_per_usd_bits: u64,
    pub percentage: u64,
}

/// The outcome of a distribution: the validated presale record, the client
/// record with its paid flag set, or the first failing check, in the exact
/// order the handler applies them. The cumulative distributed percentage
/// must stay strictly below 100 after adding the owed percentage; note the
/// presale record itself is not rewritten, so the running total is checked
/// against, never advanced, by this operation.
pub open spec fn distribute_check(
    program_id: Seq<u8>,
    accs: Seq<AccountRecord>,
    percentage: u64,
) -> Result<(PresaleView, ClientView), ProgramFailure> {
    if accs.len() < 9 {
        Err(ProgramFailure::NotEnoughAccountKeys)
    } else if accs[1].owner@ != spec_spl_token_id() {
        Err(ProgramFailure::Presale(PresaleError::IncorrectOwner))
    } else if accs[3].owner@ != spec_spl_token_id() {
        Err(ProgramFailure::Presale(PresaleError::IncorrectOwner))
    } else if accs[7].owner@ != spec_spl_token_id() {
        Err(ProgramFailure::Presale(PresaleError::IncorrectOwner))
    } else if accs[4].owner@ != program_id {
        Err(ProgramFailure::Presale(PresaleError::IncorrectOwner))
    } else if accs[6].owner@ != program_id {
        Err(ProgramFailure::Presale(PresaleError::IncorrectOwner))
    } else if !accs[0].is_signer {
        Err(ProgramFailure::MissingRequiredSignature)
    } else if !accs[5].is_signer {
        Err(ProgramFailure::MissingRequiredSignature)
    } else if !derivation_ok(
        client_seed_path(program_id, accs[4].key@, accs[2].key@),
        program_id,
        accs[6].key@,
    ) {
        Err(ProgramFailure::Presale(PresaleError::DerivedKeyInvalid))
    } else if accs[8].key@ != spec_spl_token_id() {
        Err(ProgramFailure::Presale(PresaleError::InvalidTokenProgram))
    } else if accs[4].data@.len() != PRESALE_DATA_SIZE {
        Err(ProgramFailure::Presale(PresaleError::DataTypeMismatch))
    } else {
        match parse_presale(accs[4].data@) {
            None => Err(ProgramFailure::InvalidAccountData),
            Some(p) => {
                if accs[6].data@.len() != CLIENT_DATA_SIZE {
                    Err(ProgramFailure::Presale(PresaleError::DataTypeMismatch))
                } else {
                    match parse_client(accs[6].data@) {
                        None => Err(ProgramFailure::InvalidAccountData),
                        Some(c) => {
                            if c.owner != accs[2].key@ {
                                Err(ProgramFailure::Presale(PresaleError::InvalidPresaleAccount))
                            } else if c.presale != accs[4].key@ {
                                Err(ProgramFailure::Presale(PresaleError::NotMatchPresale))
                            } else if accs[7].key@ != p.token_being_raised {
                                Err(ProgramFailure::Presale(PresaleError::NotMatchTokenAddress))
                            } else if p.authority != accs[0].key@ {
                                Err(ProgramFailure::Presale(PresaleError::InvalidAuthority))
                            } else if p.total_percentage_distributed + percentage >= 100 {
                                Err(
                                    ProgramFailure::Presale(
                                        PresaleError::AlreadyDistributedOverflow,
                                    ),
                                )
                            } else {
                                Ok((p, ClientView { already_paid: true, ..c }))
                            }
                        },
                    }
                }
            },
        }
    }
}

/// Pays a participant their owed share. The accounts are, in order: the
/// authority, the authority's token account, the participant, the
/// participant's token account, the presale record, the transfer authority,
/// the participant's derived client record, the sale token's mint, and the
/// token program. On success the client record's paid flag is set and the
/// returned request carries the payout formula's factors for the caller to
/// evaluate and perform; if the caller's token movement fails, the platform
/// discards the record write along with the rest of the instruction.
pub fn distribute_token(
    program_id: &Address,
    accounts: &mut Vec<AccountRecord>,
    args: DistributeTokenArgs,
) -> (r: Result<PayoutRequest, ProgramFailure>)
    requires
        program_id@.len() == 32,
        accounts_wf(old(accounts)@),
    ensures
        r matches Err(e) ==> final(accounts)@ == old(accounts)@ && distribute_check(
            program_id@,
            old(accounts)@,
            args.percentage_of_amount_owed,
        ) == Err::<(PresaleView, ClientView), ProgramFailure>(e),
        r matches Ok(t) ==> distribute_check(
            program_id@,
            old(accounts)@,
            args.percentage_of_amount_owed,
        ) matches Ok(s) && account_data_updated(
            old(accounts)@,
            final(accounts)@,
            6,
            pack_client(s.1),
        ) && t.source@ == old(accounts)@[1].key@ && t.destination@ == old(accounts)@[3].key@
            && t.authority@ == old(accounts)@[5].key@ && t.token_program@ == old(
            accounts,
        )@[8].key@ && t.client_amount == s.1.amount && t.token_per_usd_bits
            == s.0.token_per_usd_bits && t.percentage == args.percentage_of_amount_owed,
{
    if accounts.len() < 9 {
        return Err(ProgramFailure::NotEnoughAccountKeys);
    }
    let spl = spl_token_id();
    assert_owned_by(&accounts[1], &spl)?;
    assert_owned_by(&accounts[3], &spl)?;
    assert_owned_by(&accounts[7], &spl)?;
    assert_owned_by(&accounts[4], program_id)?;
    assert_owned_by(&accounts[6], program_id)?;
    assert_signer(&accounts[0])?;
    assert_signer(&accounts[5])?;
    let path = build_client_seed_path(program_id, &accounts[4].key, &accounts[2].key);
    match assert_derivation(program_id, &accounts[6], &path) {
        Ok(_) => (),
        Err(e) => {
            return Err(e);
        },
    }
    if !address_eq(&accounts[8].key, &spl) {
        return Err(ProgramFailure::Presale(PresaleError::InvalidTokenProgram));
    }
    let presale = PresaleData::from_account_info(&accounts[4])?;
    let mut client = ClientData::from_account_info(&accounts[6])?;
    if !address_eq(&client.owner, &accounts[2].key) {
        return Err(ProgramFailure::Presale(PresaleError::InvalidPresaleAccount));
    }
    if !address_eq(&client.presale, &accounts[4].key) {
        return Err(ProgramFailure::Presale(PresaleError::NotMatchPresale));
    }
    if !address_eq(&accounts[7].key, &presale.token_being_raised) {
        return Err(ProgramFailure::Presale(PresaleError::NotMatchTokenAddress));
    }
    if !address_eq(&presale.authority, &accounts[0].key) {
        return Err(ProgramFailure::Presale(PresaleError::InvalidAuthority));
    }
    if presale.total_percentage_distributed >= 100 || args.percentage_of_amount_owed >= 100
        - presale.total_percentage_distributed {
        return Err(ProgramFailure::Presale(PresaleError::AlreadyDistributedOverflow));
    }
    let request = PayoutRequest {
        source: copy_bytes(&accounts[1].key),
        destination: copy_bytes(&accounts[3].key),
        authority: copy_bytes(&accounts[5].key),
        token_program: copy_bytes(&accounts[8].key),
        client_amount: client.amount,
        token_per_usd_bits: presale.token_per_usd_bits,
        percentage: args.percentage_of_amount_owed,
    };
    client.already_paid = true;
    proof {
        assert(distribute_check(program_id@, accounts@, args.percentage_of_amount_owed)
            matches Ok(s) && s.0 =~= presale@ && s.1 =~= client@);
    }
    store_client(accounts, 6, &client);
    Ok(request)
}

} // verus!
