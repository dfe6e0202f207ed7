use vstd::prelude::*;

verus! {

/// A 32-byte account identity or record address.
#[derive(Clone, Copy, Debug, Hash)]
pub struct Key {
    pub bytes: [u8; 32],
}

impl View for Key {
    type V = Seq<u8>;

    open spec fn view(&self) -> Seq<u8> {
        self.bytes@
    }
}

impl Key {
    pub fn new(bytes: [u8; 32]) -> (k: Key)
        ensures
            k.bytes == bytes,
    {
        Key { bytes }
    }

    pub fn to_bytes(&self) -> (b: [u8; 32])
        ensures
            b == self.bytes,
    {
        self.bytes
    }

    /// Byte-wise comparison of two keys.
    pub fn same_as(&self, other: &Key) -> (r: bool)
        ensures
            r == (*self == *other),
    {
        let mut i: usize = 0;
        while i < 32
            invariant
                0 <= i <= 32,
                forall|j: int| 0 <= j < i ==> self.bytes[j] == other.bytes[j],
            decreases 32 - i,
        {
            if self.bytes[i] != other.bytes[i] {
                return false;
            }
            i = i + 1;
        }
        proof {
            assert(self.bytes =~= other.bytes);
        }
        true
    }
}

impl PartialEq for Key {
    fn eq(&self, other: &Key) -> (r: bool) {
        self.same_as(other)
    }
}

impl vstd::std_specs::cmp::PartialEqSpecImpl for Key {
    open spec fn obeys_eq_spec() -> bool {
        true
    }

    open spec fn eq_spec(&self, other: &Key) -> bool {
        *self == *other
    }
}

impl Eq for Key {
}

/// What a user profile is allowed to do.
#[derive(Clone, Copy, Debug, PartialEq, Eq, Structural)]
pub enum UserRole {
    Sender,
    Receiver,
    Both,
}

impl Default for UserRole {
    fn default() -> (r: UserRole)
        ensures
            r == UserRole::Receiver,
    {
        UserRole::Receiver
    }
}

/// One profile per identity, kept by the identity registry. The transfer and
/// withdrawal state machines change only `total_sent` and `total_received`.
#[derive(Clone, Debug, PartialEq, Eq)]
pub struct UserProfile {
    pub authority: Key,
    pub role: UserRole,
    pub kyc_verified: bool,
    /// Opaque commitment to the KYC documents.
    pub kyc_hash: [u8; 32],
    pub country_code: String,
    pub created_at: i64,
    /// Cumulative gross value sent; also the nonce of the next transfer address.
    pub total_sent: u64,
    /// Cumulative net value received; also the nonce of the next withdrawal address.
    pub total_received: u64,
    pub bump: u8,
}

/// Lifecycle of a transfer: `Pending` moves once to a terminal state.
#[derive(Clone, Copy, Debug, PartialEq, Eq, Structural)]
pub enum TransferStatus {
    Pending,
    Confirmed,
    Completed,
    Failed,
    Cancelled,
}

/// One point-to-point transfer attempt.
#[derive(Clone, Copy, Debug, PartialEq, Eq)]
pub struct TransferRequest {
    pub sender: Key,
    pub receiver: Key,
    /// Gross amount.
    pub amount: u64,
    /// Amount the receiver gets.
    pub net_amount: u64,
    /// Fee charged on the gross amount.
    pub platform_fee: u64,
    /// Token (asset) identifier.
    pub mint: Key,
    pub status: TransferStatus,
    pub created_at: i64,
    pub completed_at: Option<i64>,
    pub nonce: u64,
    /// Where the record lives, derived from its seeds.
    pub address: Key,
    pub bump: u8,
}

/// How the payee is paid out in local currency.
#[derive(Clone, Copy, Debug, PartialEq, Eq, Structural)]
pub enum PayoutMethod {
    MobileMoney,
    BankTransfer,
    Cash,
}

/// Lifecycle of a withdrawal: `Pending`, then `ProviderSelected` at most once,
/// then a terminal state.
#[derive(Clone, Copy, Debug, PartialEq, Eq, Structural)]
pub enum WithdrawalStatus {
    Pending,
    ProviderSelected,
    AwaitingConfirmation,
    Completed,
    Failed,
}

/// One cash-out attempt of a payee through a liquidity provider.
#[derive(Clone, Copy, Debug, PartialEq, Eq)]
pub struct WithdrawalRequest {
    pub freelancer: Key,
    pub amount: u64,
    pub mint: Key,
    pub payout_method: PayoutMethod,
    /// Absent until chosen; written once.
    pub selected_provider: Option<Key>,
    pub status: WithdrawalStatus,
    pub created_at: i64,
    pub completed_at: Option<i64>,
    pub nonce: u64,
    /// Where the record lives, derived from its seeds.
    pub address: Key,
    pub bump: u8,
}

/// A registered local liquidity provider.
#[derive(Clone, Debug, PartialEq, Eq)]
pub struct LiquidityProvider {
    pub authority: Key,
    pub location: String,
    /// Exchange rate, scaled by 10^6.
    pub exchange_rate: u64,
    pub available_liquidity: u64,
    pub total_volume: u64,
    pub completed_transactions: u64,
    /// Out of 10000, two decimals.
    pub trust_score: u16,
    pub is_active: bool,
    pub created_at: i64,
    pub bump: u8,
}

impl LiquidityProvider {
    /// The trust score lies within its bounds.
    pub open spec fn wf(&self) -> bool {
        self.trust_score <= crate::constants::MAX_TRUST_SCORE
    }
}

/// A movement of token custody that the asset ledger must carry out for an
/// operation to take effect.
#[derive(Clone, Copy, Debug, PartialEq, Eq)]
pub struct CustodyMove {
    pub from: Key,
    pub to: Key,
    pub mint: Key,
    pub amount: u64,
}

} // verus!
