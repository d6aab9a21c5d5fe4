use vstd::prelude::*;

verus! {

/// Arguments of the initialization operation. Its content is provisioned by
/// the platform-side setup step and is opaque to this core, which carries
/// the bytes through unread.
pub struct InitPresaleArgs {
    pub data: Vec<u8>,
}

/// Arguments of a contribution: the amount of the raised token to move.
pub struct BuyArgs {
    pub amount: u64,
}

/// Arguments of a distribution: the owed percentage (0–100 scale) of each
/// participant's purchase to pay out.
pub struct DistributeTokenArgs {
    pub percentage_of_amount_owed: u64,
}

/// The decoded instruction payload: a one-byte tag choosing the operation,
/// followed by that operation's arguments.
pub enum PresaleInstruction {
    InitPresale(InitPresaleArgs),
    StartPresale,
    StopPresale,
    StopWhiteList,
    SetAuthority,
    Buy(BuyArgs),
    DistributeToken(DistributeTokenArgs),
    AddToWhitelist,
}

/// Mathematical image of a decoded instruction.
#[verifier::ext_equal]
pub ghost enum InstructionView {
    InitPresale(Seq<u8>),
    StartPresale,
    StopPresale,
    StopWhiteList,
    SetAuthority,
    Buy(u64),
    DistributeToken(u64),
    AddToWhitelist,
}

impl View for PresaleInstruction {
    type V = InstructionView;

    open spec fn view(&self) -> InstructionView {
        match self {
            PresaleInstruction::InitPresale(a) => InstructionView::InitPresale(a.data@),
            PresaleInstruction::StartPresale => InstructionView::StartPresale,
            PresaleInstruction::StopPresale => InstructionView::StopPresale,
            PresaleInstruction::StopWhiteList => InstructionView::StopWhiteList,
            PresaleInstruction::SetAuthority => InstructionView::SetAuthority,
            PresaleInstruction::Buy(a) => InstructionView::Buy(a.amount),
            PresaleInstruction::DistributeToken(a) => InstructionView::DistributeToken(
                a.percentage_of_amount_owed,
            ),
            PresaleInstruction::AddToWhitelist => InstructionView::AddToWhitelist,
        }
    }
}

/// Decodes a payload: the tag byte picks the operation; a bare operation
/// must be exactly the tag, an operation with a 64-bit argument must be the
/// tag plus its eight little-endian bytes; the initialization arguments are
/// the whole remainder. Everything else is refused.
pub open spec fn parse_instruction_spec(s: Seq<u8>) -> Option<InstructionView> {
    if s.len() == 0 {
        None
    } else if s[0] == 0 {
        Some(InstructionView::InitPresale(s.subrange(1, s.len() as int)))
    } else if s[0] == 1 && s.len() == 1 {
        Some(InstructionView::StartPresale)
    } else if s[0] == 2 && s.len() == 1 {
        Some(InstructionView::StopPresale)
    } else if s[0] == 3 && s.len() == 1 {
        Some(InstructionView::StopWhiteList)
    } else if s[0] == 4 && s.len() == 1 {
        Some(InstructionView::SetAuthority)
    } else if s[0] == 5 && s.len() == 9 {
        Some(InstructionView::Buy(vstd::bytes::spec_u64_from_le_bytes(s.subrange(1, 9))))
    } else if s[0] == 6 && s.len() == 9 {
        Some(
            InstructionView::DistributeToken(
                vstd::bytes::spec_u64_from_le_bytes(s.subrange(1, 9)),
            ),
        )
    } else if s[0] == 7 && s.len() == 1 {
        Some(InstructionView::AddToWhitelist)
    } else {
        None
    }
}

/// Decodes an instruction payload, or refuses it.
pub fn parse_instruction(input: &Vec<u8>) -> (r: Option<PresaleInstruction>)
    ensures
        r matches Some(i) ==> parse_instruction_spec(input@) == Some(i@),
        r is None ==> parse_instruction_spec(input@) is None,
{
    if input.len() == 0 {
        return None;
    }
    let tag = input[0];
    if tag == 0 {
        let data = crate::accounts::copy_range(input, 1, input.len());
        Some(PresaleInstruction::InitPresale(InitPresaleArgs { data }))
    } else if tag == 1 && input.len() == 1 {
        Some(PresaleInstruction::StartPresale)
    } else if tag == 2 && input.len() == 1 {
        Some(PresaleInstruction::StopPresale)
    } else if tag == 3 && input.len() == 1 {
        Some(PresaleInstruction::StopWhiteList)
    } else if tag == 4 && input.len() == 1 {
        Some(PresaleInstruction::SetAuthority)
    } else if tag == 5 && input.len() == 9 {
        let amount = crate::codec::read_u64(input, 1);
        Some(PresaleInstruction::Buy(BuyArgs { amount }))
    } else if tag == 6 && input.len() == 9 {
        let percentage_of_amount_owed = crate::codec::read_u64(input, 1);
        Some(PresaleInstruction::DistributeToken(DistributeTokenArgs { percentage_of_amount_owed }))
    } else if tag == 7 && input.len() == 1 {
        Some(PresaleInstruction::AddToWhitelist)
    } else {
        None
    }
}

} // verus!
