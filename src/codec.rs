use vstd::prelude::*;
use vstd::bytes::{
    lemma_auto_spec_u64_to_from_le_bytes,
    spec_u64_from_le_bytes,
    spec_u64_to_le_bytes,
    u64_from_le_bytes,
    u64_to_le_bytes,
};
use vstd::slice::slice_subrange;
use crate::state::{
    Key,
    PayoutMethod,
    TransferRequest,
    TransferStatus,
    WithdrawalRequest,
    WithdrawalStatus,
};

verus! {

// Stored layout of the records: fixed width, integers little-endian, an
// optional value as a tag byte (0 absent, 1 present) followed by its payload
// (zero bytes when absent), an enum as the index of its variant.

/// Size in bytes of a stored transfer record.
pub const TRANSFER_RECORD_LEN: usize = 179;

/// Size in bytes of a stored withdrawal record.
pub const WITHDRAWAL_RECORD_LEN: usize = 165;

pub open spec fn i64_bytes(n: i64) -> Seq<u8> {
    spec_u64_to_le_bytes(n as u64)
}

pub open spec fn opt_i64_bytes(o: Option<i64>) -> Seq<u8> {
    match o {
        None => seq![0u8] + spec_u64_to_le_bytes(0),
        Some(n) => seq![1u8] + i64_bytes(n),
    }
}

pub open spec fn opt_key_bytes(o: Option<Key>) -> Seq<u8> {
    match o {
        None => seq![0u8] + Seq::new(32, |_i: int| 0u8),
        Some(k) => seq![1u8] + k@,
    }
}

pub open spec fn transfer_status_byte(s: TransferStatus) -> u8 {
    match s {
        TransferStatus::Pending => 0,
        TransferStatus::Confirmed => 1,
        TransferStatus::Completed => 2,
        TransferStatus::Failed => 3,
        TransferStatus::Cancelled => 4,
    }
}

pub open spec fn transfer_status_of(b: u8) -> Option<TransferStatus> {
    if b == 0 {
        Some(TransferStatus::Pending)
    } else if b == 1 {
        Some(TransferStatus::Confirmed)
    } else if b == 2 {
        Some(TransferStatus::Completed)
    } else if b == 3 {
        Some(TransferStatus::Failed)
    } else if b == 4 {
        Some(TransferStatus::Cancelled)
    } else {
        None
    }
}

pub open spec fn withdrawal_status_byte(s: WithdrawalStatus) -> u8 {
    match s {
        WithdrawalStatus::Pending => 0,
        WithdrawalStatus::ProviderSelected => 1,
        WithdrawalStatus::AwaitingConfirmation => 2,
        WithdrawalStatus::Completed => 3,
        WithdrawalStatus::Failed => 4,
    }
}

pub open spec fn withdrawal_status_of(b: u8) -> Option<WithdrawalStatus> {
    if b == 0 {
        Some(WithdrawalStatus::Pending)
    } else if b == 1 {
        Some(WithdrawalStatus::ProviderSelected)
    } else if b == 2 {
        Some(WithdrawalStatus::AwaitingConfirmation)
    } else if b == 3 {
        Some(WithdrawalStatus::Completed)
    } else if b == 4 {
        Some(WithdrawalStatus::Failed)
    } else {
        None
    }
}

pub open spec fn payout_byte(m: PayoutMethod) -> u8 {
    match m {
        PayoutMethod::MobileMoney => 0,
        PayoutMethod::BankTransfer => 1,
        PayoutMethod::Cash => 2,
    }
}

pub open spec fn payout_of(b: u8) -> Option<PayoutMethod> {
    if b == 0 {
        Some(PayoutMethod::MobileMoney)
    } else if b == 1 {
        Some(PayoutMethod::BankTransfer)
    } else if b == 2 {
        Some(PayoutMethod::Cash)
    } else {
        None
    }
}

/// The stored bytes of a transfer record.
pub open spec fn transfer_bytes(t: TransferRequest) -> Seq<u8> {
    t.sender@ + t.receiver@ + spec_u64_to_le_bytes(t.amount) + spec_u64_to_le_bytes(t.net_amount)
        + spec_u64_to_le_bytes(t.platform_fee) + t.mint@ + seq![transfer_status_byte(t.status)]
        + i64_bytes(t.created_at) + opt_i64_bytes(t.completed_at) + spec_u64_to_le_bytes(t.nonce)
        + t.address@ + seq![t.bump]
}

/// The stored bytes of a withdrawal record.
pub open spec fn withdrawal_bytes(w: WithdrawalRequest) -> Seq<u8> {
    w.freelancer@ + spec_u64_to_le_bytes(w.amount) + w.mint@ + seq![payout_byte(w.payout_method)]
        + opt_key_bytes(w.selected_provider) + seq![withdrawal_status_byte(w.status)] + i64_bytes(
        w.created_at,
    ) + opt_i64_bytes(w.completed_at) + spec_u64_to_le_bytes(w.nonce) + w.address@ + seq![w.bump]
}

/// The key whose bytes are `s` (32 of them).
pub open spec fn key_of(s: Seq<u8>) -> Key {
    choose|k: Key| k@ == s
}

pub open spec fn u64_at(b: Seq<u8>, off: int) -> u64 {
    spec_u64_from_le_bytes(b.subrange(off, off + 8))
}

pub open spec fn key_at(b: Seq<u8>, off: int) -> Key {
    key_of(b.subrange(off, off + 32))
}

/// The optional timestamp stored at `off`, or `None` for a bad tag.
pub open spec fn opt_i64_at(b: Seq<u8>, off: int) -> Option<Option<i64>> {
    if b[off] == 0 {
        Some(None)
    } else if b[off] == 1 {
        Some(Some(u64_at(b, off + 1) as i64))
    } else {
        None
    }
}

/// The optional key stored at `off`, or `None` for a bad tag.
pub open spec fn opt_key_at(b: Seq<u8>, off: int) -> Option<Option<Key>> {
    if b[off] == 0 {
        Some(None)
    } else if b[off] == 1 {
        Some(Some(key_at(b, off + 1)))
    } else {
        None
    }
}

/// The transfer record that `b` stores, if `b` is one.
pub open spec fn transfer_from_bytes(b: Seq<u8>) -> Option<TransferRequest> {
    if b.len() != TRANSFER_RECORD_LEN {
        None
    } else {
        match (transfer_status_of(b[120]), opt_i64_at(b, 129)) {
            (Some(status), Some(completed_at)) => Some(
                TransferRequest {
                    sender: key_at(b, 0),
                    receiver: key_at(b, 32),
                    amount: u64_at(b, 64),
                    net_amount: u64_at(b, 72),
                    platform_fee: u64_at(b, 80),
                    mint: key_at(b, 88),
                    status,
                    created_at: u64_at(b, 121) as i64,
                    completed_at,
                    nonce: u64_at(b, 138),
                    address: key_at(b, 146),
                    bump: b[178],
                },
            ),
            _ => None,
        }
    }
}

/// The withdrawal record that `b` stores, if `b` is one.
pub open spec fn withdrawal_from_bytes(b: Seq<u8>) -> Option<WithdrawalRequest> {
    if b.len() != WITHDRAWAL_RECORD_LEN {
        None
    } else {
        match (
            payout_of(b[72]),
            opt_key_at(b, 73),
            withdrawal_status_of(b[106]),
            opt_i64_at(b, 115),
        ) {
            (Some(payout_method), Some(selected_provider), Some(status), Some(completed_at)) => Some(
                WithdrawalRequest {
                    freelancer: key_at(b, 0),
                    amount: u64_at(b, 32),
                    mint: key_at(b, 40),
                    payout_method,
                    selected_provider,
                    status,
                    created_at: u64_at(b, 107) as i64,
                    completed_at,
                    nonce: u64_at(b, 124),
                    address: key_at(b, 132),
                    bump: b[164],
                },
            ),
            _ => None,
        }
    }
}

proof fn lemma_key_of(k: Key)
    ensures
        key_of(k@) == k,
{
    let k2 = key_of(k@);
    assert(k2@ == k@);
    assert(k2.bytes =~= k.bytes);
}

proof fn lemma_i64_round_trip(n: i64)
    ensures
        (n as u64) as i64 == n,
{
    assert((n as u64) as i64 == n) by (bit_vector);
}

/// A stored transfer record reads back as the record that was stored, field
/// for field, status included.
pub proof fn lemma_transfer_round_trip(t: TransferRequest)
    ensures
        transfer_bytes(t).len() == TRANSFER_RECORD_LEN,
        transfer_from_bytes(transfer_bytes(t)) == Some(t),
{
    lemma_auto_spec_u64_to_from_le_bytes();
    let b = transfer_bytes(t);
    assert(b.subrange(0, 32) =~= t.sender@);
    assert(b.subrange(32, 64) =~= t.receiver@);
    assert(b.subrange(64, 72) =~= spec_u64_to_le_bytes(t.amount));
    assert(b.subrange(72, 80) =~= spec_u64_to_le_bytes(t.net_amount));
    assert(b.subrange(80, 88) =~= spec_u64_to_le_bytes(t.platform_fee));
    assert(b.subrange(88, 120) =~= t.mint@);
    assert(b.subrange(121, 129) =~= i64_bytes(t.created_at));
    assert(b.subrange(130, 138) =~= opt_i64_bytes(t.completed_at).subrange(1, 9));
    assert(b.subrange(138, 146) =~= spec_u64_to_le_bytes(t.nonce));
    assert(b.subrange(146, 178) =~= t.address@);
    lemma_key_of(t.sender);
    lemma_key_of(t.receiver);
    lemma_key_of(t.mint);
    lemma_key_of(t.address);
    lemma_i64_round_trip(t.created_at);
    match t.completed_at {
        Some(n) => {
            lemma_i64_round_trip(n);
            assert(b.subrange(130, 138) =~= i64_bytes(n));
        },
        None => {},
    }
}

/// A stored withdrawal record reads back as the record that was stored, field
/// for field, status and chosen provider included.
pub proof fn lemma_withdrawal_round_trip(w: WithdrawalRequest)
    ensures
        withdrawal_bytes(w).len() == WITHDRAWAL_RECORD_LEN,
        withdrawal_from_bytes(withdrawal_bytes(w)) == Some(w),
{
    lemma_auto_spec_u64_to_from_le_bytes();
    let b = withdrawal_bytes(w);
    assert(b.subrange(0, 32) =~= w.freelancer@);
    assert(b.subrange(32, 40) =~= spec_u64_to_le_bytes(w.amount));
    assert(b.subrange(40, 72) =~= w.mint@);
    assert(b.subrange(107, 115) =~= i64_bytes(w.created_at));
    assert(b.subrange(124, 132) =~= spec_u64_to_le_bytes(w.nonce));
    assert(b.subrange(132, 164) =~= w.address@);
    lemma_key_of(w.freelancer);
    lemma_key_of(w.mint);
    lemma_key_of(w.address);
    lemma_i64_round_trip(w.created_at);
    match w.selected_provider {
        Some(k) => {
            assert(b.subrange(74, 106) =~= k@);
            lemma_key_of(k);
        },
        None => {},
    }
    match w.completed_at {
        Some(n) => {
            lemma_i64_round_trip(n);
            assert(b.subrange(116, 124) =~= i64_bytes(n));
        },
        None => {},
    }
}

fn push_key(v: &mut Vec<u8>, k: &Key)
    ensures
        final(v)@ == old(v)@ + k@,
{
    let ghost start = v@;
    let mut i: usize = 0;
    while i < 32
        invariant
            0 <= i <= 32,
            v@ == start + k@.subrange(0, i as int),
        decreases 32 - i,
    {
        v.push(k.bytes[i]);
        i = i + 1;
        proof {
            assert(v@ =~= start + k@.subrange(0, i as int));
        }
    }
    proof {
        assert(k@.subrange(0, 32) =~= k@);
    }
}

fn push_u64(v: &mut Vec<u8>, x: u64)
    ensures
        final(v)@ == old(v)@ + spec_u64_to_le_bytes(x),
{
    let mut bytes = u64_to_le_bytes(x);
    v.append(&mut bytes);
}

fn push_opt_i64(v: &mut Vec<u8>, o: Option<i64>)
    ensures
        final(v)@ == old(v)@ + opt_i64_bytes(o),
{
    let ghost start = v@;
    match o {
        None => {
            v.push(0u8);
            push_u64(v, 0);
        },
        Some(n) => {
            v.push(1u8);
            push_u64(v, n as u64);
        },
    }
    proof {
        assert(v@ =~= start + opt_i64_bytes(o));
    }
}

fn push_opt_key(v: &mut Vec<u8>, o: Option<Key>)
    ensures
        final(v)@ == old(v)@ + opt_key_bytes(o),
{
    let ghost start = v@;
    match o {
        None => {
            v.push(0u8);
            let zero = Key { bytes: [0u8; 32] };
            proof {
                assert(zero@ =~= Seq::new(32, |_i: int| 0u8));
            }
            push_key(v, &zero);
        },
        Some(k) => {
            v.push(1u8);
            push_key(v, &k);
        },
    }
    proof {
        assert(v@ =~= start + opt_key_bytes(o));
    }
}

fn transfer_status_to_byte(s: TransferStatus) -> (b: u8)
    ensures
        b == transfer_status_byte(s),
{
    match s {
        TransferStatus::Pending => 0,
        TransferStatus::Confirmed => 1,
        TransferStatus::Completed => 2,
        TransferStatus::Failed => 3,
        TransferStatus::Cancelled => 4,
    }
}

fn withdrawal_status_to_byte(s: WithdrawalStatus) -> (b: u8)
    ensures
        b == withdrawal_status_byte(s),
{
    match s {
        WithdrawalStatus::Pending => 0,
        WithdrawalStatus::ProviderSelected => 1,
        WithdrawalStatus::AwaitingConfirmation => 2,
        WithdrawalStatus::Completed => 3,
        WithdrawalStatus::Failed => 4,
    }
}

fn payout_to_byte(m: PayoutMethod) -> (b: u8)
    ensures
        b == payout_byte(m),
{
    match m {
        PayoutMethod::MobileMoney => 0,
        PayoutMethod::BankTransfer => 1,
        PayoutMethod::Cash => 2,
    }
}

/// Serialize a transfer record for the record store.
pub fn encode_transfer(t: &TransferRequest) -> (b: Vec<u8>)
    ensures
        b@ == transfer_bytes(*t),
        b@.len() == TRANSFER_RECORD_LEN,
{
    proof {
        lemma_transfer_round_trip(*t);
    }
    let mut v: Vec<u8> = Vec::new();
    push_key(&mut v, &t.sender);
    push_key(&mut v, &t.receiver);
    push_u64(&mut v, t.amount);
    push_u64(&mut v, t.net_amount);
    push_u64(&mut v, t.platform_fee);
    push_key(&mut v, &t.mint);
    v.push(transfer_status_to_byte(t.status));
    push_u64(&mut v, t.created_at as u64);
    push_opt_i64(&mut v, t.completed_at);
    push_u64(&mut v, t.nonce);
    push_key(&mut v, &t.address);
    v.push(t.bump);
    proof {
        assert(v@ =~= transfer_bytes(*t));
    }
    v
}

/// Serialize a withdrawal record for the record store.
pub fn encode_withdrawal(w: &WithdrawalRequest) -> (b: Vec<u8>)
    ensures
        b@ == withdrawal_bytes(*w),
        b@.len() == WITHDRAWAL_RECORD_LEN,
{
    proof {
        lemma_withdrawal_round_trip(*w);
    }
    let mut v: Vec<u8> = Vec::new();
    push_key(&mut v, &w.freelancer);
    push_u64(&mut v, w.amount);
    push_key(&mut v, &w.mint);
    v.push(payout_to_byte(w.payout_method));
    push_opt_key(&mut v, w.selected_provider);
    v.push(withdrawal_status_to_byte(w.status));
    push_u64(&mut v, w.created_at as u64);
    push_opt_i64(&mut v, w.completed_at);
    push_u64(&mut v, w.nonce);
    push_key(&mut v, &w.address);
    v.push(w.bump);
    proof {
        assert(v@ =~= withdrawal_bytes(*w));
    }
    v
}

fn read_key(b: &[u8], off: usize) -> (k: Key)
    requires
        off + 32 <= b@.len(),
    ensures
        k == key_at(b@, off as int),
{
    let n: usize = b.len();
    let mut bytes = [0u8; 32];
    let mut i: usize = 0;
    while i < 32
        invariant
            0 <= i <= 32,
            n == b@.len(),
            off + 32 <= b@.len(),
            forall|j: int| 0 <= j < i ==> bytes[j] == b@[off + j],
        decreases 32 - i,
    {
        bytes[i] = b[off + i];
        i = i + 1;
    }
    let k = Key { bytes };
    proof {
        assert(k@ =~= b@.subrange(off as int, off + 32));
        lemma_key_of(k);
    }
    k
}

fn read_u64(b: &[u8], off: usize) -> (x: u64)
    requires
        off + 8 <= b@.len(),
    ensures
        x == u64_at(b@, off as int),
{
    let n: usize = b.len();
    assert(off + 8 <= n);
    let part = slice_subrange(b, off, off + 8);
    u64_from_le_bytes(part)
}

fn read_opt_i64(b: &[u8], off: usize) -> (r: Option<Option<i64>>)
    requires
        off + 9 <= b@.len(),
    ensures
        r == opt_i64_at(b@, off as int),
{
    if b[off] == 0 {
        Some(None)
    } else if b[off] == 1 {
        Some(Some(read_u64(b, off + 1) as i64))
    } else {
        None
    }
}

fn read_opt_key(b: &[u8], off: usize) -> (r: Option<Option<Key>>)
    requires
        off + 33 <= b@.len(),
    ensures
        r == opt_key_at(b@, off as int),
{
    if b[off] == 0 {
        Some(None)
    } else if b[off] == 1 {
        Some(Some(read_key(b, off + 1)))
    } else {
        None
    }
}

fn read_transfer_status(x: u8) -> (r: Option<TransferStatus>)
    ensures
        r == transfer_status_of(x),
{
    if x == 0 {
        Some(TransferStatus::Pending)
    } else if x == 1 {
        Some(TransferStatus::Confirmed)
    } else if x == 2 {
        Some(TransferStatus::Completed)
    } else if x == 3 {
        Some(TransferStatus::Failed)
    } else if x == 4 {
        Some(TransferStatus::Cancelled)
    } else {
        None
    }
}

fn read_withdrawal_status(x: u8) -> (r: Option<WithdrawalStatus>)
    ensures
        r == withdrawal_status_of(x),
{
    if x == 0 {
        Some(WithdrawalStatus::Pending)
    } else if x == 1 {
        Some(WithdrawalStatus::ProviderSelected)
    } else if x == 2 {
        Some(WithdrawalStatus::AwaitingConfirmation)
    } else if x == 3 {
        Some(WithdrawalStatus::Completed)
    } else if x == 4 {
        Some(WithdrawalStatus::Failed)
    } else {
        None
    }
}

fn read_payout(x: u8) -> (r: Option<PayoutMethod>)
    ensures
        r == payout_of(x),
{
    if x == 0 {
        Some(PayoutMethod::MobileMoney)
    } else if x == 1 {
        Some(PayoutMethod::BankTransfer)
    } else if x == 2 {
        Some(PayoutMethod::Cash)
    } else {
        None
    }
}

/// Read a transfer record back from the record store; `None` when the bytes
/// have the wrong length or a bad tag.
pub fn decode_transfer(b: &[u8]) -> (r: Option<TransferRequest>)
    ensures
        r == transfer_from_bytes(b@),
{
    if b.len() != TRANSFER_RECORD_LEN {
        return None;
    }
    let status = match read_transfer_status(b[120]) {
        Some(s) => s,
        None => return None,
    };
    let completed_at = match read_opt_i64(b, 129) {
        Some(c) => c,
        None => return None,
    };
    Some(
        TransferRequest {
            sender: read_key(b, 0),
            receiver: read_key(b, 32),
            amount: read_u64(b, 64),
            net_amount: read_u64(b, 72),
            platform_fee: read_u64(b, 80),
            mint: read_key(b, 88),
            status,
            created_at: read_u64(b, 121) as i64,
            completed_at,
            nonce: read_u64(b, 138),
            address: read_key(b, 146),
            bump: b[178],
        },
    )
}

/// Read a withdrawal record back from the record store; `None` when the bytes
/// have the wrong length or a bad tag.
pub fn decode_withdrawal(b: &[u8]) -> (r: Option<WithdrawalRequest>)
    ensures
        r == withdrawal_from_bytes(b@),
{
    if b.len() != WITHDRAWAL_RECORD_LEN {
        return None;
    }
    let payout_method = match read_payout(b[72]) {
        Some(m) => m,
        None => return None,
    };
    let selected_provider = match read_opt_key(b, 73) {
        Some(p) => p,
        None => return None,
    };
    let status = match read_withdrawal_status(b[106]) {
        Some(s) => s,
        None => return None,
    };
    let completed_at = match read_opt_i64(b, 115) {
        Some(c) => c,
        None => return None,
    };
    Some(
        WithdrawalRequest {
            freelancer: read_key(b, 0),
            amount: read_u64(b, 32),
            mint: read_key(b, 40),
            payout_method,
            selected_provider,
            status,
            created_at: read_u64(b, 107) as i64,
            completed_at,
            nonce: read_u64(b, 124),
            address: read_key(b, 132),
            bump: b[164],
        },
    )
}

} // verus!
