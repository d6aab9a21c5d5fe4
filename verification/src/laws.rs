use vstd::prelude::*;

use crate::accounts::{account_data_updated, account_data_updated2, AccountRecord};
use crate::buy::{buy_check, buy_rules};
use crate::codec::{
    lemma_presale_codec_roundtrip, parse_client, parse_presale, presale_buffer, ClientView,
    PresaleView, PRESALE_CONTENT_SIZE, PRESALE_DATA_SIZE,
};
use crate::errors::{PresaleError, ProgramFailure};
use crate::guards::{client_seed_path, derivation_ok};
use crate::lifecycle::{start_presale_check, stop_presale_check};
use crate::whitelist::whitelist_check;

verus! {

/// One contribution at the rules level: a successful one moves the state, a
/// failed one leaves it unchanged.
pub open spec fn buy_step(
    p: PresaleView,
    c: ClientView,
    balance: u64,
    amount: u64,
) -> (PresaleView, ClientView) {
    match buy_rules(p, c, balance, amount) {
        Ok(s) => s,
        Err(_) => (p, c),
    }
}

/// A whole sequence of contributions, each a `(balance, amount)` pair,
/// applied in order.
pub open spec fn run_buys(
    p: PresaleView,
    c: ClientView,
    calls: Seq<(u64, u64)>,
) -> (PresaleView, ClientView)
    decreases calls.len(),
{
    if calls.len() == 0 {
        (p, c)
    } else {
        let s = buy_step(p, c, calls[0].0, calls[0].1);
        run_buys(s.0, s.1, calls.drop_first())
    }
}

/// One accepted contribution lands within both caps and never touches the
/// caps themselves.
pub proof fn lemma_buy_step_caps(p: PresaleView, c: ClientView, balance: u64, amount: u64)
    ensures
        buy_rules(p, c, balance, amount) matches Ok(s) ==> s.1.amount <= s.0.max_allocation
            && s.0.total_raised <= s.0.hardcap && s.0.max_allocation == p.max_allocation
            && s.0.hardcap == p.hardcap,
{
}

/// Law: across any sequence of contributions against one client record, the
/// client's cumulative amount never exceeds the allocation cap and the
/// sale's cumulative total never exceeds the hardcap, provided both held at
/// the start (they hold from initialization on).
pub proof fn lemma_caps_never_exceeded(p: PresaleView, c: ClientView, calls: Seq<(u64, u64)>)
    requires
        c.amount <= p.max_allocation,
        p.total_raised <= p.hardcap,
    ensures
        ({
            let s = run_buys(p, c, calls);
            s.1.amount <= s.0.max_allocation && s.0.total_raised <= s.0.hardcap
        }),
    decreases calls.len(),
{
    if calls.len() > 0 {
        let s = buy_step(p, c, calls[0].0, calls[0].1);
        lemma_buy_step_caps(p, c, calls[0].0, calls[0].1);
        lemma_caps_never_exceeded(s.0, s.1, calls.drop_first());
    }
}

/// Law: a contribution outside the allocation bounds is never accepted —
/// whatever the rest of the state, the rules reject it, and once the sale
/// is open the rejection is exactly `InvalidAmount`.
pub proof fn lemma_out_of_bounds_rejected(p: PresaleView, c: ClientView, balance: u64, amount: u64)
    requires
        amount < p.min_allocation || amount > p.max_allocation,
    ensures
        buy_rules(p, c, balance, amount) is Err,
        p.is_active ==> buy_rules(p, c, balance, amount) == Err::<
            (PresaleView, ClientView),
            PresaleError,
        >(PresaleError::InvalidAmount),
{
}

/// Law: at the handler level, a contribution only ever goes through with an
/// amount inside the bounds that the presale record states.
pub proof fn lemma_buy_check_bounds(program_id: Seq<u8>, accs: Seq<AccountRecord>, amount: u64)
    ensures
        buy_check(program_id, accs, amount) is Ok ==> (parse_presale(accs[4].data@) matches Some(p)
            && p.min_allocation <= amount <= p.max_allocation),
{
}

/// Law: what a successful contribution persists is the updated pair of
/// records — the rewritten buffers decode back to exactly them — and both
/// sit within their caps: the client's total within the allocation cap, the
/// sale's total within the hardcap.
pub proof fn lemma_buy_persists_within_caps(
    program_id: Seq<u8>,
    accs: Seq<AccountRecord>,
    accs2: Seq<AccountRecord>,
    amount: u64,
)
    requires
        buy_check(program_id, accs, amount) matches Ok(s) && account_data_updated2(
            accs,
            accs2,
            5,
            crate::codec::pack_client(s.1),
            4,
            presale_buffer(s.0, accs[4].data@),
        ),
    ensures
        ({
            let s = buy_check(program_id, accs, amount)->Ok_0;
            &&& parse_presale(accs2[4].data@) == Some(s.0)
            &&& parse_client(accs2[5].data@) == Some(s.1)
            &&& s.1.amount <= s.0.max_allocation
            &&& s.0.total_raised <= s.0.hardcap
        }),
{
    let s = buy_check(program_id, accs, amount)->Ok_0;
    let mid = choose|mid: Seq<AccountRecord>|
        #[trigger] account_data_updated(accs, mid, 5, crate::codec::pack_client(s.1))
            && account_data_updated(mid, accs2, 4, presale_buffer(s.0, accs[4].data@));
    assert(accs2[5] == mid[5]);
    assert(s.0.wf());
    assert(s.1.wf());
    let tail = accs[4].data@.subrange(PRESALE_CONTENT_SIZE as int, PRESALE_DATA_SIZE as int);
    lemma_presale_codec_roundtrip(s.0, tail);
    crate::codec::lemma_client_codec_roundtrip(s.1);
}

/// Law: opening the sale is idempotent-rejecting — after one successful
/// opening, repeating the instruction on the resulting accounts is refused
/// with `AlreadyStarted`.
pub proof fn lemma_start_twice_rejected(
    program_id: Seq<u8>,
    accs: Seq<AccountRecord>,
    accs2: Seq<AccountRecord>,
)
    requires
        start_presale_check(program_id, accs) matches Ok(p2) && account_data_updated(
            accs,
            accs2,
            1,
            presale_buffer(p2, accs[1].data@),
        ),
    ensures
        start_presale_check(program_id, accs2) == Err::<PresaleView, ProgramFailure>(
            ProgramFailure::Presale(PresaleError::AlreadyStarted),
        ),
{
    let p2 = start_presale_check(program_id, accs)->Ok_0;
    let tail = accs[1].data@.subrange(PRESALE_CONTENT_SIZE as int, PRESALE_DATA_SIZE as int);
    assert(p2.wf());
    lemma_presale_codec_roundtrip(p2, tail);
    assert(accs2[1].data@ == presale_buffer(p2, accs[1].data@));
    assert(parse_presale(accs2[1].data@) == Some(p2));
    assert(accs2[0] == accs[0]);
}

/// Law: closing the sale is idempotent-rejecting — after one successful
/// closing, repeating the instruction on the resulting accounts is refused
/// with `AlreadyStopped`.
pub proof fn lemma_stop_twice_rejected(
    program_id: Seq<u8>,
    accs: Seq<AccountRecord>,
    accs2: Seq<AccountRecord>,
)
    requires
        stop_presale_check(program_id, accs) matches Ok(p2) && account_data_updated(
            accs,
            accs2,
            1,
            presale_buffer(p2, accs[1].data@),
        ),
    ensures
        stop_presale_check(program_id, accs2) == Err::<PresaleView, ProgramFailure>(
            ProgramFailure::Presale(PresaleError::AlreadyStopped),
        ),
{
    let p2 = stop_presale_check(program_id, accs)->Ok_0;
    let tail = accs[1].data@.subrange(PRESALE_CONTENT_SIZE as int, PRESALE_DATA_SIZE as int);
    assert(p2.wf());
    lemma_presale_codec_roundtrip(p2, tail);
    assert(accs2[1].data@ == presale_buffer(p2, accs[1].data@));
    assert(parse_presale(accs2[1].data@) == Some(p2));
    assert(accs2[0] == accs[0]);
}

/// Law: whitelisting is only for a sale that has not launched. With every
/// other check passing, the operation is refused with `AlreadyStarted` the
/// moment the sale is open, and succeeds — setting exactly the eligibility
/// flag — while it is closed.
pub proof fn lemma_whitelist_only_before_launch(program_id: Seq<u8>, accs: Seq<AccountRecord>)
    requires
        accs.len() >= 4,
        accs[2].owner@ == program_id,
        accs[3].owner@ == program_id,
        accs[0].is_signer,
        derivation_ok(
            client_seed_path(program_id, accs[2].key@, accs[1].key@),
            program_id,
            accs[3].key@,
        ),
        parse_presale(accs[2].data@) is Some,
        parse_client(accs[3].data@) is Some,
        parse_presale(accs[2].data@)->Some_0.authority == accs[0].key@,
        parse_client(accs[3].data@)->Some_0.owner == accs[1].key@,
        parse_client(accs[3].data@)->Some_0.presale == accs[2].key@,
    ensures
        parse_presale(accs[2].data@)->Some_0.is_active ==> whitelist_check(program_id, accs)
            == Err::<ClientView, ProgramFailure>(
            ProgramFailure::Presale(PresaleError::AlreadyStarted),
        ),
        !parse_presale(accs[2].data@)->Some_0.is_active ==> whitelist_check(program_id, accs)
            == Ok::<ClientView, ProgramFailure>(
            ClientView { is_whitelisted: true, ..parse_client(accs[3].data@)->Some_0 },
        ),
{
}

} // verus!

