use vstd::prelude::*;

use crate::accounts::{
    account_data_updated, account_data_updated2, accounts_wf, address_eq, copy_bytes,
    AccountRecord, Address,
};
use crate::codec::{
    pack_client, parse_client, parse_presale, presale_buffer, store_client, store_presale,
    ClientData, ClientView, PresaleData, PresaleView, CLIENT_DATA_SIZE, PRESALE_DATA_SIZE,
};
use crate::errors::{PresaleError, ProgramFailure};
use crate::guards::{
    assert_derivation, assert_owned_by, assert_signer, build_client_seed_path, client_seed_path,
    derivation_ok,
};
use crate::instruction::BuyArgs;
use crate::platform::{
    spec_spl_token_id, spl_account_bytes_ok, spl_token_id, unpack_token_amount,
};

verus! {

/// A token movement this core asks the platform to perform on its behalf:
/// move `amount` units from `source` to `destination`, authorized by
/// `authority`, through the token program at `token_program`.
#[derive(Debug)]
pub struct TransferRequest {
    pub source: Address,
    pub destination: Address,
    pub amount: u64,
    pub authority: Address,
    pub token_program: Address,
}

/// The financial rules of a contribution, applied to an open sale: the
/// amount must lie within the per-call bounds, the bidder's balance must
/// cover it, the sale must not be over its hardcap nor go over it, the
/// participant must stay within their allocation cap, and a whitelist-gated
/// sale only accepts whitelisted participants. On success both running
/// totals grow by the amount.
pub open spec fn buy_rules(p: PresaleView, c: ClientView, balance: u64, amount: u64) -> Result<
    (PresaleView, ClientView),
    PresaleError,
> {
    if !p.is_active {
        Err(PresaleError::NotActiveYet)
    } else if amount < p.min_allocation || amount > p.max_allocation {
        Err(PresaleError::InvalidAmount)
    } else if balance < amount {
        Err(PresaleError::BalanceTooLow)
    } else if p.total_raised > p.hardcap {
        Err(PresaleError::HardcapReached)
    } else if p.total_raised + amount > p.hardcap {
        Err(PresaleError::WillOverHardcap)
    } else if c.amount + amount > p.max_allocation {
        Err(PresaleError::MoreThanMaxAllocation)
    } else if p.is_whitelist && !c.is_whitelisted {
        Err(PresaleError::NotWhitelisted)
    } else {
        Ok(
            (
                PresaleView { total_raised: (p.total_raised + amount) as u64, ..p },
                ClientView { amount: (c.amount + amount) as u64, ..c },
            ),
        )
    }
}

/// The outcome of a contribution: the two mutated records, or the first
/// failing check, in the exact order the handler applies them.
pub open spec fn buy_check(program_id: Seq<u8>, accs: Seq<AccountRecord>, amount: u64) -> Result<
    (PresaleView, ClientView),
    ProgramFailure,
> {
    if accs.len() < 8 {
        Err(ProgramFailure::NotEnoughAccountKeys)
    } else if accs[1].owner@ != spec_spl_token_id() {
        Err(ProgramFailure::Presale(PresaleError::IncorrectOwner))
    } else if accs[2].owner@ != spec_spl_token_id() {
        Err(ProgramFailure::Presale(PresaleError::IncorrectOwner))
    } else if accs[6].owner@ != spec_spl_token_id() {
        Err(ProgramFailure::Presale(PresaleError::IncorrectOwner))
    } else if accs[4].owner@ != program_id {
        Err(ProgramFailure::Presale(PresaleError::IncorrectOwner))
    } else if accs[5].owner@ != program_id {
        Err(ProgramFailure::Presale(PresaleError::IncorrectOwner))
    } else if !accs[0].is_signer {
        Err(ProgramFailure::MissingRequiredSignature)
    } else if !accs[3].is_signer {
        Err(ProgramFailure::MissingRequiredSignature)
    } else if !derivation_ok(
        client_seed_path(program_id, accs[4].key@, accs[0].key@),
        program_id,
        accs[5].key@,
    ) {
        Err(ProgramFailure::Presale(PresaleError::DerivedKeyInvalid))
    } else if accs[7].key@ != spec_spl_token_id() {
        Err(ProgramFailure::Presale(PresaleError::InvalidTokenProgram))
    } else if accs[4].data@.len() != PRESALE_DATA_SIZE {
        Err(ProgramFailure::Presale(PresaleError::DataTypeMismatch))
    } else {
        match parse_presale(accs[4].data@) {
            None => Err(ProgramFailure::InvalidAccountData),
            Some(p) => {
                if accs[5].data@.len() != CLIENT_DATA_SIZE {
                    Err(ProgramFailure::Presale(PresaleError::DataTypeMismatch))
                } else {
                    match parse_client(accs[5].data@) {
                        None => Err(ProgramFailure::InvalidAccountData),
                        Some(c) => {
                            if c.owner != accs[0].key@ {
                                Err(ProgramFailure::Presale(PresaleError::InvalidPresaleAccount))
                            } else if c.presale != accs[4].key@ {
                                Err(ProgramFailure::Presale(PresaleError::NotMatchPresale))
                            } else if accs[6].key@ != p.token_being_raised {
                                Err(ProgramFailure::Presale(PresaleError::NotMatchTokenAddress))
                            } else if !p.is_active {
                                Err(ProgramFailure::Presale(PresaleError::NotActiveYet))
                            } else if amount < p.min_allocation || amount > p.max_allocation {
                                Err(ProgramFailure::Presale(PresaleError::InvalidAmount))
                            } else if !spl_account_bytes_ok(accs[1].data@) {
                                Err(ProgramFailure::InvalidAccountData)
                            } else {
                                let balance = vstd::bytes::spec_u64_from_le_bytes(
                                    accs[1].data@.subrange(64, 72),
                                );
                                match buy_rules(p, c, balance, amount) {
                                    Err(pe) => Err(ProgramFailure::Presale(pe)),
                                    Ok(s) => Ok(s),
                                }
                            }
                        },
                    }
                }
            },
        }
    }
}

/// Accepts a participant's contribution. The accounts are, in order: the
/// bidder, the bidder's token account, the sale's pot token account, the
/// transfer authority, the presale record, the bidder's derived client
/// record, the raised token's mint, and the token program. On success both
/// records are rewritten with the grown totals, and the returned request
/// asks the caller to move the amount from the bidder's token account into
/// the pot; if the caller's token movement fails, the platform discards the
/// record writes along with the rest of the instruction.
pub fn buy(program_id: &Address, accounts: &mut Vec<AccountRecord>, args: BuyArgs) -> (r: Result<
    TransferRequest,
    ProgramFailure,
>)
    requires
        program_id@.len() == 32,
        accounts_wf(old(accounts)@),
    ensures
        r matches Err(e) ==> final(accounts)@ == old(accounts)@ && buy_check(
            program_id@,
            old(accounts)@,
            args.amount,
        ) == Err::<(PresaleView, ClientView), ProgramFailure>(e),
        r matches Ok(t) ==> buy_check(program_id@, old(accounts)@, args.amount) matches Ok(s)
            && account_data_updated2(
            old(accounts)@,
            final(accounts)@,
            5,
            pack_client(s.1),
            4,
            presale_buffer(s.0, old(accounts)@[4].data@),
        ) && t.source@ == old(accounts)@[1].key@ && t.destination@ == old(accounts)@[2].key@
            && t.amount == args.amount && t.authority@ == old(accounts)@[3].key@
            && t.token_program@ == old(accounts)@[7].key@,
{
    if accounts.len() < 8 {
        return Err(ProgramFailure::NotEnoughAccountKeys);
    }
    let spl = spl_token_id();
    assert_owned_by(&accounts[1], &spl)?;
    assert_owned_by(&accounts[2], &spl)?;
    assert_owned_by(&accounts[6], &spl)?;
    assert_owned_by(&accounts[4], program_id)?;
    assert_owned_by(&accounts[5], program_id)?;
    assert_signer(&accounts[0])?;
    assert_signer(&accounts[3])?;
    let path = build_client_seed_path(program_id, &accounts[4].key, &accounts[0].key);
    match assert_derivation(program_id, &accounts[5], &path) {
        Ok(_) => (),
        Err(e) => {
            return Err(e);
        },
    }
    if !address_eq(&accounts[7].key, &spl) {
        return Err(ProgramFailure::Presale(PresaleError::InvalidTokenProgram));
    }
    let mut presale = PresaleData::from_account_info(&accounts[4])?;
    let mut client = ClientData::from_account_info(&accounts[5])?;
    if !address_eq(&client.owner, &accounts[0].key) {
        return Err(ProgramFailure::Presale(PresaleError::InvalidPresaleAccount));
    }
    if !address_eq(&client.presale, &accounts[4].key) {
        return Err(ProgramFailure::Presale(PresaleError::NotMatchPresale));
    }
    if !address_eq(&accounts[6].key, &presale.token_being_raised) {
        return Err(ProgramFailure::Presale(PresaleError::NotMatchTokenAddress));
    }
    if !presale.is_active {
        return Err(ProgramFailure::Presale(PresaleError::NotActiveYet));
    }
    if args.amount < presale.min_allocation || args.amount > presale.max_allocation {
        return Err(ProgramFailure::Presale(PresaleError::InvalidAmount));
    }
    let balance = match unpack_token_amount(&accounts[1].data) {
        Some(b) => b,
        None => {
            return Err(ProgramFailure::InvalidAccountData);
        },
    };
    if balance < args.amount {
        return Err(ProgramFailure::Presale(PresaleError::BalanceTooLow));
    }
    if presale.total_raised > presale.hardcap {
        return Err(ProgramFailure::Presale(PresaleError::HardcapReached));
    }
    if args.amount > presale.hardcap - presale.total_raised {
        return Err(ProgramFailure::Presale(PresaleError::WillOverHardcap));
    }
    if client.amount > presale.max_allocation || args.amount > presale.max_allocation
        - client.amount {
        return Err(ProgramFailure::Presale(PresaleError::MoreThanMaxAllocation));
    }
    if presale.is_whitelist && !client.is_whitelisted {
        return Err(ProgramFailure::Presale(PresaleError::NotWhitelisted));
    }
    let request = TransferRequest {
        source: copy_bytes(&accounts[1].key),
        destination: copy_bytes(&accounts[2].key),
        amount: args.amount,
        authority: copy_bytes(&accounts[3].key),
        token_program: copy_bytes(&accounts[7].key),
    };
    presale.total_raised = presale.total_raised + args.amount;
    client.amount = client.amount + args.amount;
    proof {
        assert(buy_check(program_id@, accounts@, args.amount) matches Ok(s) && s.0 =~= presale@
            && s.1 =~= client@);
    }
    let ghost before = accounts@;
    store_client(accounts, 5, &client);
    let ghost mid = accounts@;
    store_presale(accounts, 4, &presale);
    proof {
        assert(account_data_updated(before, mid, 5, pack_client(client@)));
        assert(account_data_updated(mid, accounts@, 4, presale_buffer(presale@, before[4].data@)));
    }
    Ok(request)
}

} // verus!
