use vstd::prelude::*;

verus! {

/// A 32-byte account identifier, kept as a plain byte vector.
pub type Address = Vec<u8>;

/// The number of bytes in an account identifier.
pub const ADDRESS_SIZE: usize = 32;

/// Whether a byte sequence is a well-formed account identifier.
pub open spec fn address_wf(a: Seq<u8>) -> bool {
    a.len() == ADDRESS_SIZE
}

/// One caller-supplied account, as the ledger platform presents it: its
/// address, its owner's identifier, whether it co-signed the instruction,
/// its funding balance, and its raw byte buffer.
pub struct AccountRecord {
    pub key: Address,
    pub owner: Address,
    pub is_signer: bool,
    pub lamports: u64,
    pub data: Vec<u8>,
}

/// What the ledger platform guarantees of every account it hands over: the
/// address and the owner identifier are exactly 32 bytes.
pub open spec fn accounts_wf(accs: Seq<AccountRecord>) -> bool {
    forall|i: int|
        0 <= i < accs.len() ==> address_wf(#[trigger] accs[i].key@) && address_wf(accs[i].owner@)
}

/// Byte-for-byte equality of two identifiers (or any two byte vectors).
pub fn address_eq(a: &Vec<u8>, b: &Vec<u8>) -> (r: bool)
    ensures
        r <==> a@ == b@,
{
    if a.len() != b.len() {
        proof {
            assert(a@.len() != b@.len());
        }
        return false;
    }
    let n = a.len();
    let mut i: usize = 0;
    while i < n
        invariant
            n == a@.len() == b@.len(),
            0 <= i <= n,
            forall|j: int| 0 <= j < i ==> a@[j] == b@[j],
        decreases n - i,
    {
        if a[i] != b[i] {
            return false;
        }
        i += 1;
    }
    proof {
        assert(a@ =~= b@);
    }
    true
}

/// Copies a byte vector.
pub fn copy_bytes(src: &Vec<u8>) -> (r: Vec<u8>)
    ensures
        r@ == src@,
{
    let mut out: Vec<u8> = Vec::new();
    let n = src.len();
    let mut i: usize = 0;
    while i < n
        invariant
            n == src@.len(),
            0 <= i <= n,
            out@ =~= src@.subrange(0, i as int),
        decreases n - i,
    {
        out.push(src[i]);
        i += 1;
    }
    proof {
        assert(out@ =~= src@);
    }
    out
}

/// Appends the bytes of `src` to `out`.
pub fn append_bytes(out: &mut Vec<u8>, src: &Vec<u8>)
    ensures
        final(out)@ == old(out)@ + src@,
{
    let n = src.len();
    let mut i: usize = 0;
    while i < n
        invariant
            n == src@.len(),
            0 <= i <= n,
            out@ =~= old(out)@ + src@.subrange(0, i as int),
        decreases n - i,
    {
        out.push(src[i]);
        i += 1;
    }
    proof {
        assert(out@ =~= old(out)@ + src@);
    }
}

/// Copies the bytes of `d` from `from` (inclusive) to `to` (exclusive).
pub fn copy_range(d: &Vec<u8>, from: usize, to: usize) -> (r: Vec<u8>)
    requires
        from <= to <= d@.len(),
    ensures
        r@ == d@.subrange(from as int, to as int),
{
    let n = d.len();
    let mut out: Vec<u8> = Vec::new();
    let mut i: usize = from;
    while i < to
        invariant
            n == d@.len(),
            from <= i <= to <= n,
            out@ =~= d@.subrange(from as int, i as int),
        decreases to - i,
    {
        out.push(d[i]);
        i += 1;
    }
    proof {
        assert(out@ =~= d@.subrange(from as int, to as int));
    }
    out
}

/// Holds when the only difference between two account lists is that the
/// account at position `i` carries `data` as its buffer: every other
/// account, and every other field of that account, is unchanged.
pub open spec fn account_data_updated(
    before: Seq<AccountRecord>,
    after: Seq<AccountRecord>,
    i: int,
    data: Seq<u8>,
) -> bool {
    &&& after.len() == before.len()
    &&& 0 <= i < before.len()
    &&& forall|j: int| 0 <= j < before.len() && j != i ==> after[j] == before[j]
    &&& after[i].key@ == before[i].key@
    &&& after[i].owner@ == before[i].owner@
    &&& after[i].is_signer == before[i].is_signer
    &&& after[i].lamports == before[i].lamports
    &&& after[i].data@ == data
}

/// Holds when two positions `i` and `j` carry fresh buffers `di` and `dj`
/// and everything else is unchanged.
pub open spec fn account_data_updated2(
    before: Seq<AccountRecord>,
    after: Seq<AccountRecord>,
    i: int,
    di: Seq<u8>,
    j: int,
    dj: Seq<u8>,
) -> bool {
    exists|mid: Seq<AccountRecord>|
        #[trigger] account_data_updated(before, mid, i, di) && account_data_updated(
            mid,
            after,
            j,
            dj,
        )
}

/// Replaces the buffer of the account at position `i`.
pub fn set_account_data(accounts: &mut Vec<AccountRecord>, i: usize, data: Vec<u8>)
    requires
        i < old(accounts)@.len(),
    ensures
        account_data_updated(old(accounts)@, final(accounts)@, i as int, data@),
{
    let ghost before = accounts@;
    let mut acc = accounts.remove(i);
    acc.data = data;
    accounts.insert(i, acc);
    proof {
        assert forall|j: int| 0 <= j < before.len() && j != i implies accounts@[j] == before[j] by {
            if j < i {
                assert(accounts@[j] == before[j]);
            } else {
                assert(accounts@[j] == before[j]);
            }
        }
    }
}

/// Reads the 32-byte identifier that starts at `off` in `d`.
pub fn read_address(d: &Vec<u8>, off: usize) -> (r: Address)
    requires
        off + ADDRESS_SIZE <= d@.len(),
    ensures
        r@ == d@.subrange(off as int, off + ADDRESS_SIZE),
        address_wf(r@),
{
    let mut out: Vec<u8> = Vec::new();
    let n = d.len();
    let mut i: usize = 0;
    while i < ADDRESS_SIZE
        invariant
            n == d@.len(),
            off + ADDRESS_SIZE <= n,
            0 <= i <= ADDRESS_SIZE,
            out@ =~= d@.subrange(off as int, off + i),
        decreases ADDRESS_SIZE - i,
    {
        out.push(d[off + i]);
        i += 1;
    }
    out
}

} // verus!
