use presale::accounts::AccountRecord;
use presale::buy::buy;
use presale::distribute::distribute_token;
use presale::errors::{PresaleError, ProgramFailure};
use presale::instruction::{BuyArgs, DistributeTokenArgs};
use presale::lifecycle::{set_authority, start_presale, stop_presale, stop_whitelist};
use presale::processor::{process_instruction, PlatformAction};
use presale::whitelist::add_to_whitelist;
use solana_program::pubkey::Pubkey;

const PROGRAM: [u8; 32] = [7; 32];
const PRESALE_KEY: [u8; 32] = [2; 32];
const AUTHORITY_KEY: [u8; 32] = [3; 32];
const BIDDER_KEY: [u8; 32] = [4; 32];
const RAISED_MINT: [u8; 32] = [5; 32];

fn program_id() -> Vec<u8> {
    PROGRAM.to_vec()
}

fn spl_id() -> Vec<u8> {
    spl_token::id().to_bytes().to_vec()
}

fn client_key_for(presale: &[u8], member: &[u8]) -> Vec<u8> {
    let pid = Pubkey::new_from_array(PROGRAM);
    let (key, _bump) =
        Pubkey::find_program_address(&[b"presale", pid.as_ref(), presale, member], &pid);
    key.to_bytes().to_vec()
}

fn account(key: &[u8], owner: &[u8], signer: bool, lamports: u64, data: Vec<u8>) -> AccountRecord {
    AccountRecord {
        key: key.to_vec(),
        owner: owner.to_vec(),
        is_signer: signer,
        lamports,
        data,
    }
}

fn presale_bytes(
    min: u64,
    max: u64,
    hardcap: u64,
    rate_bits: u64,
    raised: u64,
    pct: u64,
    active: bool,
    whitelist: bool,
) -> Vec<u8> {
    let mut d = Vec::new();
    d.extend_from_slice(&AUTHORITY_KEY);
    d.extend_from_slice(&[11u8; 32]);
    d.extend_from_slice(&RAISED_MINT);
    d.extend_from_slice(&min.to_le_bytes());
    d.extend_from_slice(&max.to_le_bytes());
    d.extend_from_slice(&hardcap.to_le_bytes());
    d.extend_from_slice(&rate_bits.to_le_bytes());
    d.extend_from_slice(&raised.to_le_bytes());
    d.extend_from_slice(&pct.to_le_bytes());
    d.push(if active { 1 } else { 0 });
    d.push(if whitelist { 1 } else { 0 });
    d.extend_from_slice(&[0u8; 8]);
    d
}

fn client_bytes(owner: &[u8], presale: &[u8], amount: u64, wl: bool, paid: bool) -> Vec<u8> {
    let mut d = Vec::new();
    d.extend_from_slice(owner);
    d.extend_from_slice(presale);
    d.extend_from_slice(&amount.to_le_bytes());
    d.push(if wl { 1 } else { 0 });
    d.push(if paid { 1 } else { 0 });
    d
}

fn token_account_bytes(amount: u64) -> Vec<u8> {
    let mut d = vec![0u8; 165];
    d[64..72].copy_from_slice(&amount.to_le_bytes());
    d[108] = 1;
    d
}

fn read_u64_at(d: &[u8], off: usize) -> u64 {
    u64::from_le_bytes(d[off..off + 8].try_into().unwrap())
}

fn lifecycle_accounts(presale_data: Vec<u8>) -> Vec<AccountRecord> {
    vec![
        account(&AUTHORITY_KEY, &[0; 32], true, 1, Vec::new()),
        account(&PRESALE_KEY, &PROGRAM, false, 1, presale_data),
    ]
}

fn presale_err(e: PresaleError) -> ProgramFailure {
    ProgramFailure::Presale(e)
}

#[test]
fn start_sets_active_flag() {
    let mut accs = lifecycle_accounts(presale_bytes(10, 500, 1000, 0, 0, 0, false, false));
    start_presale(&program_id(), &mut accs).unwrap();
    assert_eq!(accs[1].data[144], 1);
}

#[test]
fn start_twice_is_already_started() {
    let mut accs = lifecycle_accounts(presale_bytes(10, 500, 1000, 0, 0, 0, false, false));
    start_presale(&program_id(), &mut accs).unwrap();
    let r = start_presale(&program_id(), &mut accs);
    assert_eq!(r.unwrap_err(), presale_err(PresaleError::AlreadyStarted));
}

#[test]
fn stop_clears_active_flag() {
    let mut accs = lifecycle_accounts(presale_bytes(10, 500, 1000, 0, 0, 0, true, false));
    stop_presale(&program_id(), &mut accs).unwrap();
    assert_eq!(accs[1].data[144], 0);
}

#[test]
fn stop_twice_is_already_stopped() {
    let mut accs = lifecycle_accounts(presale_bytes(10, 500, 1000, 0, 0, 0, true, false));
    stop_presale(&program_id(), &mut accs).unwrap();
    let r = stop_presale(&program_id(), &mut accs);
    assert_eq!(r.unwrap_err(), presale_err(PresaleError::AlreadyStopped));
}

#[test]
fn start_without_signature_is_refused() {
    let mut accs = lifecycle_accounts(presale_bytes(10, 500, 1000, 0, 0, 0, false, false));
    accs[0].is_signer = false;
    let r = start_presale(&program_id(), &mut accs);
    assert_eq!(r.unwrap_err(), ProgramFailure::MissingRequiredSignature);
}

#[test]
fn start_by_wrong_authority_is_refused() {
    let mut accs = lifecycle_accounts(presale_bytes(10, 500, 1000, 0, 0, 0, false, false));
    accs[0].key = vec![42u8; 32];
    let r = start_presale(&program_id(), &mut accs);
    assert_eq!(r.unwrap_err(), presale_err(PresaleError::InvalidAuthority));
}

#[test]
fn start_on_foreign_record_is_incorrect_owner() {
    let mut accs = lifecycle_accounts(presale_bytes(10, 500, 1000, 0, 0, 0, false, false));
    accs[1].owner = vec![42u8; 32];
    let r = start_presale(&program_id(), &mut accs);
    assert_eq!(r.unwrap_err(), presale_err(PresaleError::IncorrectOwner));
}

#[test]
fn stop_whitelist_clears_gating_flag() {
    let mut accs = lifecycle_accounts(presale_bytes(10, 500, 1000, 0, 0, 0, false, true));
    stop_whitelist(&program_id(), &mut accs).unwrap();
    assert_eq!(accs[1].data[145], 0);
}

#[test]
fn set_authority_replaces_authority() {
    let new_key = [42u8; 32];
    let mut accs = vec![
        account(&AUTHORITY_KEY, &[0; 32], true, 1, Vec::new()),
        account(&new_key, &[0; 32], false, 5, vec![1]),
        account(&PRESALE_KEY, &PROGRAM, false, 1, presale_bytes(10, 500, 1000, 0, 0, 0, false, false)),
    ];
    set_authority(&program_id(), &mut accs).unwrap();
    assert_eq!(&accs[2].data[0..32], &new_key);
}

#[test]
fn set_authority_to_unfunded_account_is_refused() {
    let mut accs = vec![
        account(&AUTHORITY_KEY, &[0; 32], true, 1, Vec::new()),
        account(&[42u8; 32], &[0; 32], false, 0, vec![1]),
        account(&PRESALE_KEY, &PROGRAM, false, 1, presale_bytes(10, 500, 1000, 0, 0, 0, false, false)),
    ];
    let r = set_authority(&program_id(), &mut accs);
    assert_eq!(r.unwrap_err(), presale_err(PresaleError::InvalidAuthority));
}

fn whitelist_accounts(active: bool) -> Vec<AccountRecord> {
    let client_key = client_key_for(&PRESALE_KEY, &BIDDER_KEY);
    vec![
        account(&AUTHORITY_KEY, &[0; 32], true, 1, Vec::new()),
        account(&BIDDER_KEY, &[0; 32], false, 1, Vec::new()),
        account(&PRESALE_KEY, &PROGRAM, false, 1, presale_bytes(10, 500, 1000, 0, 0, 0, active, true)),
        account(
            &client_key,
            &PROGRAM,
            false,
            1,
            client_bytes(&BIDDER_KEY, &PRESALE_KEY, 0, false, false),
        ),
    ]
}

#[test]
fn whitelist_sets_flag_before_launch() {
    let mut accs = whitelist_accounts(false);
    add_to_whitelist(&program_id(), &mut accs).unwrap();
    assert_eq!(accs[3].data[72], 1);
}

#[test]
fn whitelist_after_launch_is_already_started() {
    let mut accs = whitelist_accounts(true);
    let r = add_to_whitelist(&program_id(), &mut accs);
    assert_eq!(r.unwrap_err(), presale_err(PresaleError::AlreadyStarted));
}

#[test]
fn whitelist_at_wrong_derived_address_is_refused() {
    let mut accs = whitelist_accounts(false);
    accs[3].key = vec![42u8; 32];
    let r = add_to_whitelist(&program_id(), &mut accs);
    assert_eq!(r.unwrap_err(), presale_err(PresaleError::DerivedKeyInvalid));
}

#[test]
fn whitelist_for_foreign_member_is_refused() {
    let mut accs = whitelist_accounts(false);
    accs[1].key = vec![42u8; 32];
    let r = add_to_whitelist(&program_id(), &mut accs);
    // The derived address no longer matches the presented client record.
    assert_eq!(r.unwrap_err(), presale_err(PresaleError::DerivedKeyInvalid));
}

const POT_KEY: [u8; 32] = [6; 32];
const BIDDER_TOKEN_KEY: [u8; 32] = [8; 32];
const TRANSFER_AUTH_KEY: [u8; 32] = [9; 32];

fn buy_accounts(presale_data: Vec<u8>, client_amount: u64, wl: bool, balance: u64) -> Vec<AccountRecord> {
    let client_key = client_key_for(&PRESALE_KEY, &BIDDER_KEY);
    vec![
        account(&BIDDER_KEY, &[0; 32], true, 1, Vec::new()),
        account(&BIDDER_TOKEN_KEY, &spl_id(), false, 1, token_account_bytes(balance)),
        account(&POT_KEY, &spl_id(), false, 1, token_account_bytes(0)),
        account(&TRANSFER_AUTH_KEY, &[0; 32], true, 1, Vec::new()),
        account(&PRESALE_KEY, &PROGRAM, false, 1, presale_data),
        account(
            &client_key,
            &PROGRAM,
            false,
            1,
            client_bytes(&BIDDER_KEY, &PRESALE_KEY, client_amount, wl, false),
        ),
        account(&RAISED_MINT, &spl_id(), false, 1, Vec::new()),
        account(&spl_id(), &[0; 32], false, 1, Vec::new()),
    ]
}

#[test]
fn buy_near_hardcap_goes_over_is_refused() {
    let mut accs = buy_accounts(presale_bytes(10, 500, 1000, 0, 900, 0, true, false), 0, false, 10_000);
    let r = buy(&program_id(), &mut accs, BuyArgs { amount: 150 });
    assert_eq!(r.unwrap_err(), presale_err(PresaleError::WillOverHardcap));
    // Nothing was written.
    assert_eq!(read_u64_at(&accs[4].data, 128), 900);
}

#[test]
fn buy_within_hardcap_updates_both_records() {
    let mut accs = buy_accounts(presale_bytes(10, 500, 1000, 0, 900, 0, true, false), 0, false, 10_000);
    let t = buy(&program_id(), &mut accs, BuyArgs { amount: 90 }).unwrap();
    assert_eq!(read_u64_at(&accs[4].data, 128), 990);
    assert_eq!(read_u64_at(&accs[5].data, 64), 90);
    assert_eq!(t.source, BIDDER_TOKEN_KEY.to_vec());
    assert_eq!(t.destination, POT_KEY.to_vec());
    assert_eq!(t.amount, 90);
    assert_eq!(t.authority, TRANSFER_AUTH_KEY.to_vec());
    assert_eq!(t.token_program, spl_id());
}

#[test]
fn buy_below_minimum_is_invalid_amount() {
    let mut accs = buy_accounts(presale_bytes(10, 500, 1000, 0, 0, 0, true, false), 0, false, 10_000);
    let r = buy(&program_id(), &mut accs, BuyArgs { amount: 5 });
    assert_eq!(r.unwrap_err(), presale_err(PresaleError::InvalidAmount));
}

#[test]
fn buy_above_maximum_is_invalid_amount() {
    let mut accs = buy_accounts(presale_bytes(10, 500, 1000, 0, 0, 0, true, false), 0, false, 10_000);
    let r = buy(&program_id(), &mut accs, BuyArgs { amount: 501 });
    assert_eq!(r.unwrap_err(), presale_err(PresaleError::InvalidAmount));
}

#[test]
fn buy_while_closed_is_not_active_yet() {
    let mut accs = buy_accounts(presale_bytes(10, 500, 1000, 0, 0, 0, false, false), 0, false, 10_000);
    let r = buy(&program_id(), &mut accs, BuyArgs { amount: 90 });
    assert_eq!(r.unwrap_err(), presale_err(PresaleError::NotActiveYet));
}

#[test]
fn buy_with_short_balance_is_balance_too_low() {
    let mut accs = buy_accounts(presale_bytes(10, 500, 1000, 0, 0, 0, true, false), 0, false, 50);
    let r = buy(&program_id(), &mut accs, BuyArgs { amount: 90 });
    assert_eq!(r.unwrap_err(), presale_err(PresaleError::BalanceTooLow));
}

#[test]
fn buy_past_hardcap_is_hardcap_reached() {
    let mut accs = buy_accounts(presale_bytes(10, 500, 2000, 0, 1001, 0, true, false), 0, false, 10_000);
    accs[4].data[112..120].copy_from_slice(&1000u64.to_le_bytes());
    let r = buy(&program_id(), &mut accs, BuyArgs { amount: 90 });
    assert_eq!(r.unwrap_err(), presale_err(PresaleError::HardcapReached));
}

#[test]
fn buy_accumulating_past_allocation_is_refused() {
    let mut accs = buy_accounts(presale_bytes(10, 100, 10_000, 0, 0, 0, true, false), 0, false, 10_000);
    buy(&program_id(), &mut accs, BuyArgs { amount: 60 }).unwrap();
    let r = buy(&program_id(), &mut accs, BuyArgs { amount: 60 });
    assert_eq!(r.unwrap_err(), presale_err(PresaleError::MoreThanMaxAllocation));
    assert_eq!(read_u64_at(&accs[5].data, 64), 60);
}

#[test]
fn buy_unlisted_in_gated_sale_is_not_whitelisted() {
    let mut accs = buy_accounts(presale_bytes(10, 500, 1000, 0, 0, 0, true, true), 0, false, 10_000);
    let r = buy(&program_id(), &mut accs, BuyArgs { amount: 90 });
    assert_eq!(r.unwrap_err(), presale_err(PresaleError::NotWhitelisted));
}

#[test]
fn buy_whitelisted_in_gated_sale_succeeds() {
    let mut accs = buy_accounts(presale_bytes(10, 500, 1000, 0, 0, 0, true, true), 0, true, 10_000);
    buy(&program_id(), &mut accs, BuyArgs { amount: 90 }).unwrap();
    assert_eq!(read_u64_at(&accs[5].data, 64), 90);
}

#[test]
fn buy_with_wrong_mint_is_refused() {
    let mut accs = buy_accounts(presale_bytes(10, 500, 1000, 0, 0, 0, true, false), 0, false, 10_000);
    accs[6].key = vec![42u8; 32];
    let r = buy(&program_id(), &mut accs, BuyArgs { amount: 90 });
    assert_eq!(r.unwrap_err(), presale_err(PresaleError::NotMatchTokenAddress));
}

#[test]
fn buy_with_wrong_token_program_is_refused() {
    let mut accs = buy_accounts(presale_bytes(10, 500, 1000, 0, 0, 0, true, false), 0, false, 10_000);
    accs[7].key = vec![42u8; 32];
    let r = buy(&program_id(), &mut accs, BuyArgs { amount: 90 });
    assert_eq!(r.unwrap_err(), presale_err(PresaleError::InvalidTokenProgram));
}

#[test]
fn buy_with_foreign_token_account_is_incorrect_owner() {
    let mut accs = buy_accounts(presale_bytes(10, 500, 1000, 0, 0, 0, true, false), 0, false, 10_000);
    accs[1].owner = vec![42u8; 32];
    let r = buy(&program_id(), &mut accs, BuyArgs { amount: 90 });
    assert_eq!(r.unwrap_err(), presale_err(PresaleError::IncorrectOwner));
}

#[test]
fn buy_at_wrong_derived_address_is_refused() {
    let mut accs = buy_accounts(presale_bytes(10, 500, 1000, 0, 0, 0, true, false), 0, false, 10_000);
    accs[5].key = vec![42u8; 32];
    let r = buy(&program_id(), &mut accs, BuyArgs { amount: 90 });
    assert_eq!(r.unwrap_err(), presale_err(PresaleError::DerivedKeyInvalid));
}

#[test]
fn buy_against_mismatched_presale_is_refused() {
    let mut accs = buy_accounts(presale_bytes(10, 500, 1000, 0, 0, 0, true, false), 0, false, 10_000);
    let foreign = client_bytes(&BIDDER_KEY, &[42u8; 32], 0, false, false);
    accs[5].data = foreign;
    let r = buy(&program_id(), &mut accs, BuyArgs { amount: 90 });
    assert_eq!(r.unwrap_err(), presale_err(PresaleError::NotMatchPresale));
}

#[test]
fn buy_with_foreign_client_owner_is_refused() {
    let mut accs = buy_accounts(presale_bytes(10, 500, 1000, 0, 0, 0, true, false), 0, false, 10_000);
    accs[5].data = client_bytes(&[42u8; 32], &PRESALE_KEY, 0, false, false);
    let r = buy(&program_id(), &mut accs, BuyArgs { amount: 90 });
    assert_eq!(r.unwrap_err(), presale_err(PresaleError::InvalidPresaleAccount));
}

const AUTHORITY_TOKEN_KEY: [u8; 32] = [10; 32];

fn distribute_accounts(pct_already: u64, rate_bits: u64, client_amount: u64) -> Vec<AccountRecord> {
    let client_key = client_key_for(&PRESALE_KEY, &BIDDER_KEY);
    vec![
        account(&AUTHORITY_KEY, &[0; 32], true, 1, Vec::new()),
        account(&AUTHORITY_TOKEN_KEY, &spl_id(), false, 1, token_account_bytes(1_000_000)),
        account(&BIDDER_KEY, &[0; 32], false, 1, Vec::new()),
        account(&BIDDER_TOKEN_KEY, &spl_id(), false, 1, token_account_bytes(0)),
        account(
            &PRESALE_KEY,
            &PROGRAM,
            false,
            1,
            presale_bytes(10, 500, 1000, rate_bits, 900, pct_already, true, false),
        ),
        account(&TRANSFER_AUTH_KEY, &[0; 32], true, 1, Vec::new()),
        account(
            &client_key,
            &PROGRAM,
            false,
            1,
            client_bytes(&BIDDER_KEY, &PRESALE_KEY, client_amount, false, false),
        ),
        account(&RAISED_MINT, &spl_id(), false, 1, Vec::new()),
        account(&spl_id(), &[0; 32], false, 1, Vec::new()),
    ]
}

#[test]
fn distribute_at_ninety_plus_ten_overflows() {
    let mut accs = distribute_accounts(90, 1.0f64.to_bits(), 200);
    let r = distribute_token(
        &program_id(),
        &mut accs,
        DistributeTokenArgs { percentage_of_amount_owed: 10 },
    );
    assert_eq!(
        r.unwrap_err(),
        presale_err(PresaleError::AlreadyDistributedOverflow)
    );
}

#[test]
fn distribute_at_ninety_plus_nine_succeeds() {
    let rate = 1.5f64.to_bits();
    let mut accs = distribute_accounts(90, rate, 200);
    let t = distribute_token(
        &program_id(),
        &mut accs,
        DistributeTokenArgs { percentage_of_amount_owed: 9 },
    )
    .unwrap();
    assert_eq!(t.source, AUTHORITY_TOKEN_KEY.to_vec());
    assert_eq!(t.destination, BIDDER_TOKEN_KEY.to_vec());
    assert_eq!(t.authority, TRANSFER_AUTH_KEY.to_vec());
    assert_eq!(t.client_amount, 200);
    assert_eq!(t.token_per_usd_bits, rate);
    assert_eq!(t.percentage, 9);
    // The paid flag is set; the running percentage itself is not advanced.
    assert_eq!(accs[6].data[73], 1);
    assert_eq!(read_u64_at(&accs[4].data, 136), 90);
}

#[test]
fn distribute_by_wrong_authority_is_refused() {
    let mut accs = distribute_accounts(0, 0, 200);
    accs[0].key = vec![42u8; 32];
    let r = distribute_token(
        &program_id(),
        &mut accs,
        DistributeTokenArgs { percentage_of_amount_owed: 5 },
    );
    assert_eq!(r.unwrap_err(), presale_err(PresaleError::InvalidAuthority));
}

#[test]
fn dispatcher_routes_start_and_buy() {
    let mut accs = lifecycle_accounts(presale_bytes(10, 500, 1000, 0, 0, 0, false, false));
    let a = process_instruction(&program_id(), &mut accs, &vec![1]).unwrap();
    assert!(matches!(a, PlatformAction::Finish));
    assert_eq!(accs[1].data[144], 1);

    let mut accs = buy_accounts(presale_bytes(10, 500, 1000, 0, 900, 0, true, false), 0, false, 10_000);
    let mut payload = vec![5u8];
    payload.extend_from_slice(&90u64.to_le_bytes());
    match process_instruction(&program_id(), &mut accs, &payload).unwrap() {
        PlatformAction::Transfer(t) => assert_eq!(t.amount, 90),
        _ => panic!("expected a transfer request"),
    }
    assert_eq!(read_u64_at(&accs[4].data, 128), 990);
}

#[test]
fn dispatcher_refuses_garbage_and_initialization() {
    let mut accs = lifecycle_accounts(presale_bytes(10, 500, 1000, 0, 0, 0, false, false));
    let r = process_instruction(&program_id(), &mut accs, &vec![99]);
    assert_eq!(r.unwrap_err(), ProgramFailure::InvalidInstructionData);
    let r = process_instruction(&program_id(), &mut accs, &vec![0, 1, 2]);
    assert_eq!(r.unwrap_err(), ProgramFailure::UnsupportedInstruction);
}

#[test]
fn spl_token_accounts_parse_like_the_token_program() {
    // A buffer the token program itself would refuse (bad optional-field
    // tag) must be refused here too, not read as a balance.
    let mut accs = buy_accounts(presale_bytes(10, 500, 1000, 0, 0, 0, true, false), 0, false, 10_000);
    accs[1].data[72] = 3;
    let r = buy(&program_id(), &mut accs, BuyArgs { amount: 90 });
    assert_eq!(r.unwrap_err(), ProgramFailure::InvalidAccountData);
}

#[test]
fn whitelist_record_with_foreign_owner_is_refused() {
    let mut accs = whitelist_accounts(false);
    accs[3].data = client_bytes(&[42u8; 32], &PRESALE_KEY, 0, false, false);
    let r = add_to_whitelist(&program_id(), &mut accs);
    assert_eq!(r.unwrap_err(), presale_err(PresaleError::InvalidClientOwner));
}

#[test]
fn whitelist_record_of_other_sale_is_refused() {
    let mut accs = whitelist_accounts(false);
    accs[3].data = client_bytes(&BIDDER_KEY, &[42u8; 32], 0, false, false);
    let r = add_to_whitelist(&program_id(), &mut accs);
    assert_eq!(r.unwrap_err(), presale_err(PresaleError::InvalidPresaleAccount));
}

#[test]
fn short_account_list_is_refused() {
    let mut accs = vec![account(&AUTHORITY_KEY, &[0; 32], true, 1, Vec::new())];
    let r = start_presale(&program_id(), &mut accs);
    assert_eq!(r.unwrap_err(), ProgramFailure::NotEnoughAccountKeys);
}

#[test]
fn dispatcher_routes_distribution() {
    let mut accs = distribute_accounts(0, 2.0f64.to_bits(), 200);
    let mut payload = vec![6u8];
    payload.extend_from_slice(&50u64.to_le_bytes());
    match process_instruction(&program_id(), &mut accs, &payload).unwrap() {
        PlatformAction::Payout(p) => {
            assert_eq!(p.client_amount, 200);
            assert_eq!(p.percentage, 50);
        }
        _ => panic!("expected a payout request"),
    }
    assert_eq!(accs[6].data[73], 1);
}
