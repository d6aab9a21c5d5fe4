use vstd::prelude::*;

use crate::accounts::{
    AccountRecord, Address, address_wf, append_bytes, read_address,
};
use crate::errors::{PresaleError, ProgramFailure};

verus! {

/// Exact byte length of a client record buffer.
pub const CLIENT_DATA_SIZE: usize = 32 + 32 + 8 + 1 + 1;

/// Exact byte length of a presale record buffer. The buffer is eight bytes
/// longer than the encoded content: the tail is reserved and never written.
pub const PRESALE_DATA_SIZE: usize = 32 + 32 + 32 + 8 + 8 + 8 + 8 + 8 + 8 + 8 + 1 + 1;

/// Byte length of the encoded presale content at the front of the buffer.
pub const PRESALE_CONTENT_SIZE: usize = 32 + 32 + 32 + 8 + 8 + 8 + 8 + 8 + 8 + 1 + 1;

/// One participant's record: who it belongs to, which sale it belongs to,
/// how much they have contributed, and the two eligibility flags.
#[derive(Debug)]
pub struct ClientData {
    pub owner: Address,
    pub presale: Address,
    pub amount: u64,
    pub is_whitelisted: bool,
    pub already_paid: bool,
}

/// The sale's configuration and running ledger. The exchange rate is kept as
/// the raw bit pattern of the platform's 64-bit binary floating-point value;
/// this core never interprets it, it only carries it through.
#[derive(Debug)]
pub struct PresaleData {
    pub authority: Address,
    pub token_for_sale: Address,
    pub token_being_raised: Address,
    pub min_allocation: u64,
    pub max_allocation: u64,
    pub hardcap: u64,
    pub token_per_usd_bits: u64,
    pub total_raised: u64,
    pub total_percentage_distributed: u64,
    pub is_active: bool,
    pub is_whitelist: bool,
}

/// Mathematical image of a client record.
#[verifier::ext_equal]
pub ghost struct ClientView {
    pub owner: Seq<u8>,
    pub presale: Seq<u8>,
    pub amount: u64,
    pub is_whitelisted: bool,
    pub already_paid: bool,
}

/// Mathematical image of a presale record.
#[verifier::ext_equal]
pub ghost struct PresaleView {
    pub authority: Seq<u8>,
    pub token_for_sale: Seq<u8>,
    pub token_being_raised: Seq<u8>,
    pub min_allocation: u64,
    pub max_allocation: u64,
    pub hardcap: u64,
    pub token_per_usd_bits: u64,
    pub total_raised: u64,
    pub total_percentage_distributed: u64,
    pub is_active: bool,
    pub is_whitelist: bool,
}

impl View for ClientData {
    type V = ClientView;

    open spec fn view(&self) -> ClientView {
        ClientView {
            owner: self.owner@,
            presale: self.presale@,
            amount: self.amount,
            is_whitelisted: self.is_whitelisted,
            already_paid: self.already_paid,
        }
    }
}

impl View for PresaleData {
    type V = PresaleView;

    open spec fn view(&self) -> PresaleView {
        PresaleView {
            authority: self.authority@,
            token_for_sale: self.token_for_sale@,
            token_being_raised: self.token_being_raised@,
            min_allocation: self.min_allocation,
            max_allocation: self.max_allocation,
            hardcap: self.hardcap,
            token_per_usd_bits: self.token_per_usd_bits,
            total_raised: self.total_raised,
            total_percentage_distributed: self.total_percentage_distributed,
            is_active: self.is_active,
            is_whitelist: self.is_whitelist,
        }
    }
}

impl ClientView {
    /// Structural well-formedness: both identifiers have the right length.
    pub open spec fn wf(self) -> bool {
        address_wf(self.owner) && address_wf(self.presale)
    }
}

impl PresaleView {
    /// Structural well-formedness: the identifiers have the right length and
    /// the stored exchange-rate bits denote a number (the codec refuses the
    /// not-a-number patterns, as the record encoding prescribes).
    pub open spec fn wf(self) -> bool {
        address_wf(self.authority) && address_wf(self.token_for_sale)
            && address_wf(self.token_being_raised) && !is_nan_bits(self.token_per_usd_bits)
    }
}

/// Whether a 64-bit pattern is one of the not-a-number encodings of the
/// platform's binary64 format: all exponent bits set and a non-zero mantissa.
pub open spec fn is_nan_bits(bits: u64) -> bool {
    (bits >> 52) & 0x7ff == 0x7ff && bits & 0xf_ffff_ffff_ffff != 0
}

/// Executable twin of [`is_nan_bits`].
pub fn check_nan_bits(bits: u64) -> (r: bool)
    ensures
        r == is_nan_bits(bits),
{
    (bits >> 52u64) & 0x7ff == 0x7ff && bits & 0xf_ffff_ffff_ffff != 0
}

/// The byte that encodes a flag.
pub open spec fn bool_byte(b: bool) -> u8 {
    if b {
        1
    } else {
        0
    }
}

/// Whether a byte is a valid flag encoding.
pub open spec fn bool_byte_ok(x: u8) -> bool {
    x == 0 || x == 1
}

/// Decodes a client record from its exact 74-byte buffer. Any other length,
/// and any byte that is not a valid flag encoding, is refused.
pub open spec fn parse_client(d: Seq<u8>) -> Option<ClientView> {
    if d.len() == CLIENT_DATA_SIZE && bool_byte_ok(d[72]) && bool_byte_ok(d[73]) {
        Some(
            ClientView {
                owner: d.subrange(0, 32),
                presale: d.subrange(32, 64),
                amount: vstd::bytes::spec_u64_from_le_bytes(d.subrange(64, 72)),
                is_whitelisted: d[72] == 1,
                already_paid: d[73] == 1,
            },
        )
    } else {
        None
    }
}

/// Encodes a client record: the two identifiers, the little-endian amount,
/// then the two flag bytes.
pub open spec fn pack_client(c: ClientView) -> Seq<u8> {
    c.owner + c.presale + vstd::bytes::spec_u64_to_le_bytes(c.amount)
        + seq![bool_byte(c.is_whitelisted), bool_byte(c.already_paid)]
}

/// Decodes the presale content from the front of its exact 154-byte buffer.
/// Any other length, any invalid flag byte, and a not-a-number exchange-rate
/// pattern are refused.
pub open spec fn parse_presale(d: Seq<u8>) -> Option<PresaleView> {
    if d.len() == PRESALE_DATA_SIZE && bool_byte_ok(d[144]) && bool_byte_ok(d[145])
        && !is_nan_bits(vstd::bytes::spec_u64_from_le_bytes(d.subrange(120, 128))) {
        Some(
            PresaleView {
                authority: d.subrange(0, 32),
                token_for_sale: d.subrange(32, 64),
                token_being_raised: d.subrange(64, 96),
                min_allocation: vstd::bytes::spec_u64_from_le_bytes(d.subrange(96, 104)),
                max_allocation: vstd::bytes::spec_u64_from_le_bytes(d.subrange(104, 112)),
                hardcap: vstd::bytes::spec_u64_from_le_bytes(d.subrange(112, 120)),
                token_per_usd_bits: vstd::bytes::spec_u64_from_le_bytes(d.subrange(120, 128)),
                total_raised: vstd::bytes::spec_u64_from_le_bytes(d.subrange(128, 136)),
                total_percentage_distributed: vstd::bytes::spec_u64_from_le_bytes(
                    d.subrange(136, 144),
                ),
                is_active: d[144] == 1,
                is_whitelist: d[145] == 1,
            },
        )
    } else {
        None
    }
}

/// Encodes the presale content: the three identifiers, the six little-endian
/// 64-bit fields, then the two flag bytes. The buffer's reserved tail is not
/// part of the content.
pub open spec fn pack_presale(p: PresaleView) -> Seq<u8> {
    p.authority + p.token_for_sale + p.token_being_raised
        + vstd::bytes::spec_u64_to_le_bytes(p.min_allocation)
        + vstd::bytes::spec_u64_to_le_bytes(p.max_allocation)
        + vstd::bytes::spec_u64_to_le_bytes(p.hardcap)
        + vstd::bytes::spec_u64_to_le_bytes(p.token_per_usd_bits)
        + vstd::bytes::spec_u64_to_le_bytes(p.total_raised)
        + vstd::bytes::spec_u64_to_le_bytes(p.total_percentage_distributed)
        + seq![bool_byte(p.is_active), bool_byte(p.is_whitelist)]
}

/// The full buffer a presale write produces: the fresh content followed by
/// the untouched reserved tail of the previous buffer.
pub open spec fn presale_buffer(p: PresaleView, prev: Seq<u8>) -> Seq<u8>
    recommends
        prev.len() == PRESALE_DATA_SIZE,
{
    pack_presale(p) + prev.subrange(PRESALE_CONTENT_SIZE as int, PRESALE_DATA_SIZE as int)
}

/// Reads the little-endian 64-bit field that starts at `off` in `d`.
pub fn read_u64(d: &Vec<u8>, off: usize) -> (r: u64)
    requires
        off + 8 <= d@.len(),
    ensures
        r == vstd::bytes::spec_u64_from_le_bytes(d@.subrange(off as int, off + 8)),
{
    let n = d.len();
    proof {
        assert(off + 8 <= n);
    }
    let s = vstd::slice::slice_subrange(d.as_slice(), off, off + 8);
    vstd::bytes::u64_from_le_bytes(s)
}

/// Reads the flag byte at `off` in `d`; refuses anything but 0 and 1.
pub fn read_bool(d: &Vec<u8>, off: usize) -> (r: Option<bool>)
    requires
        off < d@.len(),
    ensures
        bool_byte_ok(d@[off as int]) ==> r == Some(d@[off as int] == 1),
        !bool_byte_ok(d@[off as int]) ==> r is None,
{
    let x = d[off];
    if x == 0 {
        Some(false)
    } else if x == 1 {
        Some(true)
    } else {
        None
    }
}

/// Appends the little-endian encoding of `x` to `out`.
pub fn write_u64(out: &mut Vec<u8>, x: u64)
    ensures
        final(out)@ == old(out)@ + vstd::bytes::spec_u64_to_le_bytes(x),
{
    let bytes = vstd::bytes::u64_to_le_bytes(x);
    append_bytes(out, &bytes);
}

impl ClientData {
    /// Decodes a client record out of a caller-supplied account buffer,
    /// refusing any buffer that does not have the exact expected length.
    pub fn from_account_info(a: &AccountRecord) -> (r: Result<ClientData, ProgramFailure>)
        ensures
            a.data@.len() != CLIENT_DATA_SIZE ==> r == Err::<ClientData, ProgramFailure>(
                ProgramFailure::Presale(PresaleError::DataTypeMismatch),
            ),
            a.data@.len() == CLIENT_DATA_SIZE && parse_client(a.data@) is None ==> r
                == Err::<ClientData, ProgramFailure>(ProgramFailure::InvalidAccountData),
            parse_client(a.data@) matches Some(cv) ==> r matches Ok(c) && c@ == cv && cv.wf(),
    {
        if a.data.len() != CLIENT_DATA_SIZE {
            return Err(ProgramFailure::Presale(PresaleError::DataTypeMismatch));
        }
        let owner = read_address(&a.data, 0);
        let presale = read_address(&a.data, 32);
        let amount = read_u64(&a.data, 64);
        let w = read_bool(&a.data, 72);
        let p = read_bool(&a.data, 73);
        match (w, p) {
            (Some(is_whitelisted), Some(already_paid)) => Ok(
                ClientData { owner, presale, amount, is_whitelisted, already_paid },
            ),
            _ => Err(ProgramFailure::InvalidAccountData),
        }
    }

    /// Encodes this record as its exact 74-byte buffer.
    pub fn pack(&self) -> (r: Vec<u8>)
        requires
            self@.wf(),
        ensures
            r@ == pack_client(self@),
            r@.len() == CLIENT_DATA_SIZE,
    {
        let mut out: Vec<u8> = Vec::new();
        append_bytes(&mut out, &self.owner);
        append_bytes(&mut out, &self.presale);
        write_u64(&mut out, self.amount);
        out.push(if self.is_whitelisted { 1 } else { 0 });
        out.push(if self.already_paid { 1 } else { 0 });
        proof {
            vstd::bytes::lemma_auto_spec_u64_to_from_le_bytes();
            assert(out@ =~= pack_client(self@));
        }
        out
    }
}

impl PresaleData {
    /// Decodes the presale record out of a caller-supplied account buffer,
    /// refusing any buffer that does not have the exact expected length.
    pub fn from_account_info(a: &AccountRecord) -> (r: Result<PresaleData, ProgramFailure>)
        ensures
            a.data@.len() != PRESALE_DATA_SIZE ==> r == Err::<PresaleData, ProgramFailure>(
                ProgramFailure::Presale(PresaleError::DataTypeMismatch),
            ),
            a.data@.len() == PRESALE_DATA_SIZE && parse_presale(a.data@) is None ==> r
                == Err::<PresaleData, ProgramFailure>(ProgramFailure::InvalidAccountData),
            parse_presale(a.data@) matches Some(pv) ==> r matches Ok(p) && p@ == pv && pv.wf(),
    {
        if a.data.len() != PRESALE_DATA_SIZE {
            return Err(ProgramFailure::Presale(PresaleError::DataTypeMismatch));
        }
        let authority = read_address(&a.data, 0);
        let token_for_sale = read_address(&a.data, 32);
        let token_being_raised = read_address(&a.data, 64);
        let min_allocation = read_u64(&a.data, 96);
        let max_allocation = read_u64(&a.data, 104);
        let hardcap = read_u64(&a.data, 112);
        let token_per_usd_bits = read_u64(&a.data, 120);
        let total_raised = read_u64(&a.data, 128);
        let total_percentage_distributed = read_u64(&a.data, 136);
        let act = read_bool(&a.data, 144);
        let wl = read_bool(&a.data, 145);
        if check_nan_bits(token_per_usd_bits) {
            return Err(ProgramFailure::InvalidAccountData);
        }
        match (act, wl) {
            (Some(is_active), Some(is_whitelist)) => Ok(
                PresaleData {
                    authority,
                    token_for_sale,
                    token_being_raised,
                    min_allocation,
                    max_allocation,
                    hardcap,
                    token_per_usd_bits,
                    total_raised,
                    total_percentage_distributed,
                    is_active,
                    is_whitelist,
                },
            ),
            _ => Err(ProgramFailure::InvalidAccountData),
        }
    }

    /// Encodes this record's content as its exact 146 bytes; the caller keeps
    /// the buffer's reserved tail.
    pub fn pack(&self) -> (r: Vec<u8>)
        requires
            self@.wf(),
        ensures
            r@ == pack_presale(self@),
            r@.len() == PRESALE_CONTENT_SIZE,
    {
        let mut out: Vec<u8> = Vec::new();
        append_bytes(&mut out, &self.authority);
        append_bytes(&mut out, &self.token_for_sale);
        append_bytes(&mut out, &self.token_being_raised);
        write_u64(&mut out, self.min_allocation);
        write_u64(&mut out, self.max_allocation);
        write_u64(&mut out, self.hardcap);
        write_u64(&mut out, self.token_per_usd_bits);
        write_u64(&mut out, self.total_raised);
        write_u64(&mut out, self.total_percentage_distributed);
        out.push(if self.is_active { 1 } else { 0 });
        out.push(if self.is_whitelist { 1 } else { 0 });
        proof {
            vstd::bytes::lemma_auto_spec_u64_to_from_le_bytes();
            assert(out@ =~= pack_presale(self@));
        }
        out
    }
}

/// Re-encodes the mutated presale record into the buffer of the account at
/// position `i`, keeping the buffer's reserved tail.
pub(crate) fn store_presale(accounts: &mut Vec<AccountRecord>, i: usize, presale: &PresaleData)
    requires
        i < old(accounts)@.len(),
        old(accounts)@[i as int].data@.len() == PRESALE_DATA_SIZE,
        presale@.wf(),
    ensures
        crate::accounts::account_data_updated(
            old(accounts)@,
            final(accounts)@,
            i as int,
            presale_buffer(presale@, old(accounts)@[i as int].data@),
        ),
{
    let mut buf = presale.pack();
    let tail = crate::accounts::copy_range(
        &accounts[i].data,
        PRESALE_CONTENT_SIZE,
        PRESALE_DATA_SIZE,
    );
    append_bytes(&mut buf, &tail);
    crate::accounts::set_account_data(accounts, i, buf);
}

/// Re-encodes the mutated client record into the buffer of the account at
/// position `i`; a client buffer is replaced whole.
pub(crate) fn store_client(
    accounts: &mut Vec<AccountRecord>,
    i: usize,
    client: &ClientData,
)
    requires
        i < old(accounts)@.len(),
        client@.wf(),
    ensures
        crate::accounts::account_data_updated(
            old(accounts)@,
            final(accounts)@,
            i as int,
            pack_client(client@),
        ),
{
    let buf = client.pack();
    crate::accounts::set_account_data(accounts, i, buf);
}

/// Law: decoding undoes encoding — a well-formed client record read back out
/// of the buffer its encoding produced is the record itself.
pub proof fn lemma_client_codec_roundtrip(c: ClientView)
    requires
        c.wf(),
    ensures
        parse_client(pack_client(c)) == Some(c),
{
    vstd::bytes::lemma_auto_spec_u64_to_from_le_bytes();
    let d = pack_client(c);
    assert(d.len() == CLIENT_DATA_SIZE);
    assert(d.subrange(0, 32) =~= c.owner);
    assert(d.subrange(32, 64) =~= c.presale);
    assert(d.subrange(64, 72) =~= vstd::bytes::spec_u64_to_le_bytes(c.amount));
    assert(d[72] == bool_byte(c.is_whitelisted));
    assert(d[73] == bool_byte(c.already_paid));
    assert(parse_client(d) matches Some(c2) && c2 =~= c);
}

/// Law: decoding undoes encoding for the presale record, whatever bytes sit
/// in the buffer's reserved tail.
pub proof fn lemma_presale_codec_roundtrip(p: PresaleView, tail: Seq<u8>)
    requires
        p.wf(),
        tail.len() == PRESALE_DATA_SIZE - PRESALE_CONTENT_SIZE,
    ensures
        parse_presale(pack_presale(p) + tail) == Some(p),
{
    vstd::bytes::lemma_auto_spec_u64_to_from_le_bytes();
    let d = pack_presale(p) + tail;
    assert(d.len() == PRESALE_DATA_SIZE);
    assert(d.subrange(0, 32) =~= p.authority);
    assert(d.subrange(32, 64) =~= p.token_for_sale);
    assert(d.subrange(64, 96) =~= p.token_being_raised);
    assert(d.subrange(96, 104) =~= vstd::bytes::spec_u64_to_le_bytes(p.min_allocation));
    assert(d.subrange(104, 112) =~= vstd::bytes::spec_u64_to_le_bytes(p.max_allocation));
    assert(d.subrange(112, 120) =~= vstd::bytes::spec_u64_to_le_bytes(p.hardcap));
    assert(d.subrange(120, 128) =~= vstd::bytes::spec_u64_to_le_bytes(p.token_per_usd_bits));
    assert(d.subrange(128, 136) =~= vstd::bytes::spec_u64_to_le_bytes(p.total_raised));
    assert(d.subrange(136, 144) =~= vstd::bytes::spec_u64_to_le_bytes(
        p.total_percentage_distributed,
    ));
    assert(d[144] == bool_byte(p.is_active));
    assert(d[145] == bool_byte(p.is_whitelist));
    assert(parse_presale(d) matches Some(p2) && p2 =~= p);
}

} // verus!
