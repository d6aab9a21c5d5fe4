use vstd::prelude::*;

use crate::accounts::{account_data_updated, accounts_wf, address_eq, AccountRecord, Address};
use crate::codec::{
    parse_presale, presale_buffer, store_presale, PresaleData, PresaleView, PRESALE_DATA_SIZE,
};
use crate::errors::{PresaleError, ProgramFailure};
use crate::guards::{assert_owned_by, assert_signer};

verus! {

/// The validations shared by the four lifecycle operations, in the order
/// they are applied: the presale record must be owned by this program, the
/// first account must have co-signed, the record must decode, and the
/// signer must be the configured authority.
pub open spec fn lifecycle_check(
    program_id: Seq<u8>,
    authority: AccountRecord,
    presale_acc: AccountRecord,
) -> Result<PresaleView, ProgramFailure> {
    if presale_acc.owner@ != program_id {
        Err(ProgramFailure::Presale(PresaleError::IncorrectOwner))
    } else if !authority.is_signer {
        Err(ProgramFailure::MissingRequiredSignature)
    } else if presale_acc.data@.len() != PRESALE_DATA_SIZE {
        Err(ProgramFailure::Presale(PresaleError::DataTypeMismatch))
    } else {
        match parse_presale(presale_acc.data@) {
            None => Err(ProgramFailure::InvalidAccountData),
            Some(p) => {
                if p.authority != authority.key@ {
                    Err(ProgramFailure::Presale(PresaleError::InvalidAuthority))
                } else {
                    Ok(p)
                }
            },
        }
    }
}

/// The outcome of opening the sale: the validated record with the open flag
/// set, or the first failing check. Opening twice is refused.
pub open spec fn start_presale_check(program_id: Seq<u8>, accs: Seq<AccountRecord>) -> Result<
    PresaleView,
    ProgramFailure,
> {
    if accs.len() < 2 {
        Err(ProgramFailure::NotEnoughAccountKeys)
    } else {
        match lifecycle_check(program_id, accs[0], accs[1]) {
            Err(e) => Err(e),
            Ok(p) => {
                if p.is_active {
                    Err(ProgramFailure::Presale(PresaleError::AlreadyStarted))
                } else {
                    Ok(PresaleView { is_active: true, ..p })
                }
            },
        }
    }
}

/// The outcome of closing the sale. Closing twice is refused.
pub open spec fn stop_presale_check(program_id: Seq<u8>, accs: Seq<AccountRecord>) -> Result<
    PresaleView,
    ProgramFailure,
> {
    if accs.len() < 2 {
        Err(ProgramFailure::NotEnoughAccountKeys)
    } else {
        match lifecycle_check(program_id, accs[0], accs[1]) {
            Err(e) => Err(e),
            Ok(p) => {
                if !p.is_active {
                    Err(ProgramFailure::Presale(PresaleError::AlreadyStopped))
                } else {
                    Ok(PresaleView { is_active: false, ..p })
                }
            },
        }
    }
}

/// The outcome of switching whitelist gating off.
pub open spec fn stop_whitelist_check(program_id: Seq<u8>, accs: Seq<AccountRecord>) -> Result<
    PresaleView,
    ProgramFailure,
> {
    if accs.len() < 2 {
        Err(ProgramFailure::NotEnoughAccountKeys)
    } else {
        match lifecycle_check(program_id, accs[0], accs[1]) {
            Err(e) => Err(e),
            Ok(p) => Ok(PresaleView { is_whitelist: false, ..p }),
        }
    }
}

/// The outcome of replacing the authority: the proposed account must be a
/// funded, non-empty account.
pub open spec fn set_authority_check(program_id: Seq<u8>, accs: Seq<AccountRecord>) -> Result<
    PresaleView,
    ProgramFailure,
> {
    if accs.len() < 3 {
        Err(ProgramFailure::NotEnoughAccountKeys)
    } else {
        match lifecycle_check(program_id, accs[0], accs[2]) {
            Err(e) => Err(e),
            Ok(p) => {
                if accs[1].data@.len() == 0 || accs[1].lamports == 0 {
                    Err(ProgramFailure::Presale(PresaleError::InvalidAuthority))
                } else {
                    Ok(PresaleView { authority: accs[1].key@, ..p })
                }
            },
        }
    }
}

/// Runs the shared lifecycle validations on concrete accounts.
fn check_lifecycle(
    program_id: &Address,
    authority: &AccountRecord,
    presale_acc: &AccountRecord,
) -> (r: Result<PresaleData, ProgramFailure>)
    ensures
        r matches Ok(p) ==> lifecycle_check(program_id@, *authority, *presale_acc)
            == Ok::<PresaleView, ProgramFailure>(p@) && p@.wf(),
        r matches Err(e) ==> lifecycle_check(program_id@, *authority, *presale_acc)
            == Err::<PresaleView, ProgramFailure>(e),
{
    assert_owned_by(presale_acc, program_id)?;
    assert_signer(authority)?;
    let presale = PresaleData::from_account_info(presale_acc)?;
    if !address_eq(&presale.authority, &authority.key) {
        return Err(ProgramFailure::Presale(PresaleError::InvalidAuthority));
    }
    Ok(presale)
}

/// Opens the sale. Only the configured authority may do so, and only while
/// the sale is closed; on success the open flag is set and the record is
/// rewritten in place, and nothing else changes.
pub fn start_presale(program_id: &Address, accounts: &mut Vec<AccountRecord>) -> (r: Result<
    (),
    ProgramFailure,
>)
    requires
        accounts_wf(old(accounts)@),
    ensures
        r matches Err(e) ==> final(accounts)@ == old(accounts)@ && start_presale_check(
            program_id@,
            old(accounts)@,
        ) == Err::<PresaleView, ProgramFailure>(e),
        r matches Ok(()) ==> start_presale_check(program_id@, old(accounts)@) matches Ok(p2)
            && account_data_updated(
            old(accounts)@,
            final(accounts)@,
            1,
            presale_buffer(p2, old(accounts)@[1].data@),
        ),
{
    if accounts.len() < 2 {
        return Err(ProgramFailure::NotEnoughAccountKeys);
    }
    let mut presale = check_lifecycle(program_id, &accounts[0], &accounts[1])?;
    if presale.is_active {
        return Err(ProgramFailure::Presale(PresaleError::AlreadyStarted));
    }
    presale.is_active = true;
    proof {
        assert(start_presale_check(program_id@, accounts@) matches Ok(p2) && p2 =~= presale@);
    }
    store_presale(accounts, 1, &presale);
    Ok(())
}

/// Closes the sale; the mirror image of [`start_presale`].
pub fn stop_presale(program_id: &Address, accounts: &mut Vec<AccountRecord>) -> (r: Result<
    (),
    ProgramFailure,
>)
    requires
        accounts_wf(old(accounts)@),
    ensures
        r matches Err(e) ==> final(accounts)@ == old(accounts)@ && stop_presale_check(
            program_id@,
            old(accounts)@,
        ) == Err::<PresaleView, ProgramFailure>(e),
        r matches Ok(()) ==> stop_presale_check(program_id@, old(accounts)@) matches Ok(p2)
            && account_data_updated(
            old(accounts)@,
            final(accounts)@,
            1,
            presale_buffer(p2, old(accounts)@[1].data@),
        ),
{
    if accounts.len() < 2 {
        return Err(ProgramFailure::NotEnoughAccountKeys);
    }
    let mut presale = check_lifecycle(program_id, &accounts[0], &accounts[1])?;
    if !presale.is_active {
        return Err(ProgramFailure::Presale(PresaleError::AlreadyStopped));
    }
    presale.is_active = false;
    proof {
        assert(stop_presale_check(program_id@, accounts@) matches Ok(p2) && p2 =~= presale@);
    }
    store_presale(accounts, 1, &presale);
    Ok(())
}

/// Switches whitelist gating off. Authority-gated like the other lifecycle
/// operations; idempotent.
pub fn stop_whitelist(program_id: &Address, accounts: &mut Vec<AccountRecord>) -> (r: Result<
    (),
    ProgramFailure,
>)
    requires
        accounts_wf(old(accounts)@),
    ensures
        r matches Err(e) ==> final(accounts)@ == old(accounts)@ && stop_whitelist_check(
            program_id@,
            old(accounts)@,
        ) == Err::<PresaleView, ProgramFailure>(e),
        r matches Ok(()) ==> stop_whitelist_check(program_id@, old(accounts)@) matches Ok(p2)
            && account_data_updated(
            old(accounts)@,
            final(accounts)@,
            1,
            presale_buffer(p2, old(accounts)@[1].data@),
        ),
{
    if accounts.len() < 2 {
        return Err(ProgramFailure::NotEnoughAccountKeys);
    }
    let mut presale = check_lifecycle(program_id, &accounts[0], &accounts[1])?;
    presale.is_whitelist = false;
    proof {
        assert(stop_whitelist_check(program_id@, accounts@) matches Ok(p2) && p2 =~= presale@);
    }
    store_presale(accounts, 1, &presale);
    Ok(())
}

/// Hands the sale to a new authority. The proposed authority account must
/// be a funded, non-empty account — a sanity check that the identifier is
/// real — and only the current authority may make the change.
pub fn set_authority(program_id: &Address, accounts: &mut Vec<AccountRecord>) -> (r: Result<
    (),
    ProgramFailure,
>)
    requires
        accounts_wf(old(accounts)@),
    ensures
        r matches Err(e) ==> final(accounts)@ == old(accounts)@ && set_authority_check(
            program_id@,
            old(accounts)@,
        ) == Err::<PresaleView, ProgramFailure>(e),
        r matches Ok(()) ==> set_authority_check(program_id@, old(accounts)@) matches Ok(p2)
            && account_data_updated(
            old(accounts)@,
            final(accounts)@,
            2,
            presale_buffer(p2, old(accounts)@[2].data@),
        ),
{
    if accounts.len() < 3 {
        return Err(ProgramFailure::NotEnoughAccountKeys);
    }
    let mut presale = check_lifecycle(program_id, &accounts[0], &accounts[2])?;
    if accounts[1].data.len() == 0 || accounts[1].lamports == 0 {
        return Err(ProgramFailure::Presale(PresaleError::InvalidAuthority));
    }
    presale.authority = crate::accounts::copy_bytes(&accounts[1].key);
    proof {
        assert(set_authority_check(program_id@, accounts@) matches Ok(p2) && p2 =~= presale@);
    }
    store_presale(accounts, 2, &presale);
    Ok(())
}

} // verus!
