use vstd::prelude::*;

use crate::accounts::{account_data_updated, account_data_updated2, accounts_wf, AccountRecord, Address};
use crate::buy::{buy, buy_check, TransferRequest};
use crate::codec::{pack_client, presale_buffer};
use crate::distribute::{distribute_check, distribute_token, PayoutRequest};
use crate::errors::ProgramFailure;
use crate::instruction::{
    parse_instruction, parse_instruction_spec, InstructionView,
    PresaleInstruction,
};
use crate::lifecycle::{
    set_authority, set_authority_check, start_presale, start_presale_check, stop_presale,
    stop_presale_check, stop_whitelist, stop_whitelist_check,
};
use crate::whitelist::{add_to_whitelist, whitelist_check};

verus! {

/// What the caller still has to do after an instruction succeeds: nothing,
/// or one delegated token movement.
#[derive(Debug)]
pub enum PlatformAction {
    /// The instruction is complete; no platform call is owed.
    Finish,
    /// Move the contributed amount from the bidder into the sale's pot.
    Transfer(TransferRequest),
    /// Pay a participant their owed share of the sale token.
    Payout(PayoutRequest),
}

/// Decodes the instruction payload and routes it to the matching handler.
/// The initialization operation is recognized but not processed here: its
/// content is provisioned by the platform-side setup step.
pub fn process_instruction(
    program_id: &Address,
    accounts: &mut Vec<AccountRecord>,
    input: &Vec<u8>,
) -> (r: Result<PlatformAction, ProgramFailure>)
    requires
        program_id@.len() == 32,
        accounts_wf(old(accounts)@),
    ensures
        ({
            let iv = parse_instruction_spec(input@);
            match iv {
                None => r == Err::<PlatformAction, ProgramFailure>(
                    ProgramFailure::InvalidInstructionData,
                ) && final(accounts)@ == old(accounts)@,
                Some(InstructionView::InitPresale(_)) => r == Err::<
                    PlatformAction,
                    ProgramFailure,
                >(ProgramFailure::UnsupportedInstruction) && final(accounts)@ == old(accounts)@,
                Some(InstructionView::StartPresale) => match r {
                    Err(e) => final(accounts)@ == old(accounts)@ && start_presale_check(
                        program_id@,
                        old(accounts)@,
                    ) == Err::<crate::codec::PresaleView, ProgramFailure>(e),
                    Ok(a) => a matches PlatformAction::Finish && start_presale_check(
                        program_id@,
                        old(accounts)@,
                    ) matches Ok(p2) && account_data_updated(
                        old(accounts)@,
                        final(accounts)@,
                        1,
                        presale_buffer(p2, old(accounts)@[1].data@),
                    ),
                },
                Some(InstructionView::StopPresale) => match r {
                    Err(e) => final(accounts)@ == old(accounts)@ && stop_presale_check(
                        program_id@,
                        old(accounts)@,
                    ) == Err::<crate::codec::PresaleView, ProgramFailure>(e),
                    Ok(a) => a matches PlatformAction::Finish && stop_presale_check(
                        program_id@,
                        old(accounts)@,
                    ) matches Ok(p2) && account_data_updated(
                        old(accounts)@,
                        final(accounts)@,
                        1,
                        presale_buffer(p2, old(accounts)@[1].data@),
                    ),
                },
                Some(InstructionView::StopWhiteList) => match r {
                    Err(e) => final(accounts)@ == old(accounts)@ && stop_whitelist_check(
                        program_id@,
                        old(accounts)@,
                    ) == Err::<crate::codec::PresaleView, ProgramFailure>(e),
                    Ok(a) => a matches PlatformAction::Finish && stop_whitelist_check(
                        program_id@,
                        old(accounts)@,
                    ) matches Ok(p2) && account_data_updated(
                        old(accounts)@,
                        final(accounts)@,
                        1,
                        presale_buffer(p2, old(accounts)@[1].data@),
                    ),
                },
                Some(InstructionView::SetAuthority) => match r {
                    Err(e) => final(accounts)@ == old(accounts)@ && set_authority_check(
                        program_id@,
                        old(accounts)@,
                    ) == Err::<crate::codec::PresaleView, ProgramFailure>(e),
                    Ok(a) => a matches PlatformAction::Finish && set_authority_check(
                        program_id@,
                        old(accounts)@,
                    ) matches Ok(p2) && account_data_updated(
                        old(accounts)@,
                        final(accounts)@,
                        2,
                        presale_buffer(p2, old(accounts)@[2].data@),
                    ),
                },
                Some(InstructionView::AddToWhitelist) => match r {
                    Err(e) => final(accounts)@ == old(accounts)@ && whitelist_check(
                        program_id@,
                        old(accounts)@,
                    ) == Err::<crate::codec::ClientView, ProgramFailure>(e),
                    Ok(a) => a matches PlatformAction::Finish && whitelist_check(
                        program_id@,
                        old(accounts)@,
                    ) matches Ok(c2) && account_data_updated(
                        old(accounts)@,
                        final(accounts)@,
                        3,
                        pack_client(c2),
                    ),
                },
                Some(InstructionView::Buy(amount)) => match r {
                    Err(e) => final(accounts)@ == old(accounts)@ && buy_check(
                        program_id@,
                        old(accounts)@,
                        amount,
                    ) == Err::<(crate::codec::PresaleView, crate::codec::ClientView), ProgramFailure>(e),
                    Ok(a) => a matches PlatformAction::Transfer(t) && buy_check(
                        program_id@,
                        old(accounts)@,
                        amount,
                    ) matches Ok(s) && account_data_updated2(
                        old(accounts)@,
                        final(accounts)@,
                        5,
                        pack_client(s.1),
                        4,
                        presale_buffer(s.0, old(accounts)@[4].data@),
                    ) && t.source@ == old(accounts)@[1].key@ && t.destination@ == old(
                        accounts,
                    )@[2].key@ && t.amount == amount && t.authority@ == old(accounts)@[3].key@
                        && t.token_program@ == old(accounts)@[7].key@,
                },
                Some(InstructionView::DistributeToken(percentage)) => match r {
                    Err(e) => final(accounts)@ == old(accounts)@ && distribute_check(
                        program_id@,
                        old(accounts)@,
                        percentage,
                    ) == Err::<(crate::codec::PresaleView, crate::codec::ClientView), ProgramFailure>(e),
                    Ok(a) => a matches PlatformAction::Payout(t) && distribute_check(
                        program_id@,
                        old(accounts)@,
                        percentage,
                    ) matches Ok(s) && account_data_updated(
                        old(accounts)@,
                        final(accounts)@,
                        6,
                        pack_client(s.1),
                    ) && t.source@ == old(accounts)@[1].key@ && t.destination@ == old(
                        accounts,
                    )@[3].key@ && t.authority@ == old(accounts)@[5].key@ && t.token_program@
                        == old(accounts)@[8].key@ && t.client_amount == s.1.amount
                        && t.token_per_usd_bits == s.0.token_per_usd_bits && t.percentage
                        == percentage,
                },
            }
        }),
{
    let instruction = match parse_instruction(input) {
        Some(i) => i,
        None => {
            return Err(ProgramFailure::InvalidInstructionData);
        },
    };
    match instruction {
        PresaleInstruction::InitPresale(_) => Err(ProgramFailure::UnsupportedInstruction),
        PresaleInstruction::StartPresale => {
            start_presale(program_id, accounts)?;
            Ok(PlatformAction::Finish)
        },
        PresaleInstruction::StopPresale => {
            stop_presale(program_id, accounts)?;
            Ok(PlatformAction::Finish)
        },
        PresaleInstruction::StopWhiteList => {
            stop_whitelist(program_id, accounts)?;
            Ok(PlatformAction::Finish)
        },
        PresaleInstruction::SetAuthority => {
            set_authority(program_id, accounts)?;
            Ok(PlatformAction::Finish)
        },
        PresaleInstruction::AddToWhitelist => {
            add_to_whitelist(program_id, accounts)?;
            Ok(PlatformAction::Finish)
        },
        PresaleInstruction::Buy(args) => {
            let t = buy(program_id, accounts, args)?;
            Ok(PlatformAction::Transfer(t))
        },
        PresaleInstruction::DistributeToken(args) => {
            let t = distribute_token(program_id, accounts, args)?;
            Ok(PlatformAction::Payout(t))
        },
    }
}

} // verus!
