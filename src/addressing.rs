use vstd::prelude::*;
use vstd::bytes::{lemma_auto_spec_u64_to_from_le_bytes, spec_u64_to_le_bytes, u64_to_le_bytes};
use vstd::string::{StrSliceExecFns, StringSliceAdditionalSpecFns};
use anchor_lang::prelude::Pubkey;
use crate::state::Key;

verus! {

/// Namespace tag of user profile addresses.
pub const USER_PROFILE_SEED: &'static str = "user_profile";

/// Namespace tag of transfer request addresses.
pub const TRANSFER_REQUEST_SEED: &'static str = "transfer_request";

/// Namespace tag of withdrawal request addresses.
pub const WITHDRAWAL_REQUEST_SEED: &'static str = "withdrawal_request";

/// Namespace tag of liquidity provider addresses.
pub const LIQUIDITY_PROVIDER_SEED: &'static str = "liquidity_provider";

/// The program-derived address and bump seed for a list of seeds under a
/// program id, if there is one.
pub uninterp spec fn program_address_of(seeds: Seq<Seq<u8>>, program_id: Seq<u8>) -> Option<(Seq<u8>, u8)>;

/// An optional derived address, seen as bytes and bump.
pub open spec fn address_view(r: Option<(Key, u8)>) -> Option<(Seq<u8>, u8)> {
    match r {
        Some((k, b)) => Some((k@, b)),
        None => None,
    }
}

/// Relies on `Pubkey::try_find_program_address` (solana-program, through
/// anchor-lang's prelude): the search for the highest bump seed whose hash of
/// the seeds, bump and program id lies off the ed25519 curve. Its result
/// depends on the seeds and the program id alone, and it returns `None` when
/// there are 16 or more seeds or a seed longer than 32 bytes.
#[verifier::external_body]
fn find_program_address(seeds: &Vec<Vec<u8>>, program_id: &Key) -> (r: Option<(Key, u8)>)
    ensures
        address_view(r) == program_address_of(seeds.deep_view(), program_id@),
        (seeds@.len() >= 16 || exists|i: int| 0 <= i < seeds@.len() && seeds@[i]@.len() > 32)
            ==> r is None,
{
    let slices: Vec<&[u8]> = seeds.iter().map(|s| s.as_slice()).collect();
    let program = Pubkey::new_from_array(program_id.bytes);
    Pubkey::try_find_program_address(&slices, &program).map(|(k, b)| (Key { bytes: k.to_bytes() }, b))
}

/// Seeds of the profile of `authority`.
pub open spec fn user_profile_seeds(authority: Seq<u8>) -> Seq<Seq<u8>> {
    seq![USER_PROFILE_SEED.spec_bytes(), authority]
}

/// Seeds of a transfer from `sender` to `receiver` with a nonce.
pub open spec fn transfer_seeds(sender: Seq<u8>, receiver: Seq<u8>, nonce: u64) -> Seq<Seq<u8>> {
    seq![TRANSFER_REQUEST_SEED.spec_bytes(), sender, receiver, spec_u64_to_le_bytes(nonce)]
}

/// Seeds of a withdrawal of `freelancer` with a nonce.
pub open spec fn withdrawal_seeds(freelancer: Seq<u8>, nonce: u64) -> Seq<Seq<u8>> {
    seq![WITHDRAWAL_REQUEST_SEED.spec_bytes(), freelancer, spec_u64_to_le_bytes(nonce)]
}

/// Seeds of the liquidity provider record of `authority`.
pub open spec fn provider_seeds(authority: Seq<u8>) -> Seq<Seq<u8>> {
    seq![LIQUIDITY_PROVIDER_SEED.spec_bytes(), authority]
}

/// Transfer seeds identify their tuple: two transfers with different sender,
/// receiver or nonce never hand the same seeds to the address derivation.
pub proof fn lemma_transfer_seeds_injective(
    sender1: Seq<u8>,
    receiver1: Seq<u8>,
    nonce1: u64,
    sender2: Seq<u8>,
    receiver2: Seq<u8>,
    nonce2: u64,
)
    requires
        transfer_seeds(sender1, receiver1, nonce1) == transfer_seeds(sender2, receiver2, nonce2),
    ensures
        sender1 == sender2,
        receiver1 == receiver2,
        nonce1 == nonce2,
{
    lemma_auto_spec_u64_to_from_le_bytes();
    assert(transfer_seeds(sender1, receiver1, nonce1)[1] == sender1);
    assert(transfer_seeds(sender2, receiver2, nonce2)[1] == sender2);
    assert(transfer_seeds(sender1, receiver1, nonce1)[2] == receiver1);
    assert(transfer_seeds(sender2, receiver2, nonce2)[2] == receiver2);
    assert(transfer_seeds(sender1, receiver1, nonce1)[3] == spec_u64_to_le_bytes(nonce1));
    assert(transfer_seeds(sender2, receiver2, nonce2)[3] == spec_u64_to_le_bytes(nonce2));
}

/// Withdrawal seeds identify their tuple: two withdrawals with different payee
/// or nonce never hand the same seeds to the address derivation.
pub proof fn lemma_withdrawal_seeds_injective(
    freelancer1: Seq<u8>,
    nonce1: u64,
    freelancer2: Seq<u8>,
    nonce2: u64,
)
    requires
        withdrawal_seeds(freelancer1, nonce1) == withdrawal_seeds(freelancer2, nonce2),
    ensures
        freelancer1 == freelancer2,
        nonce1 == nonce2,
{
    lemma_auto_spec_u64_to_from_le_bytes();
    assert(withdrawal_seeds(freelancer1, nonce1)[1] == freelancer1);
    assert(withdrawal_seeds(freelancer2, nonce2)[1] == freelancer2);
    assert(withdrawal_seeds(freelancer1, nonce1)[2] == spec_u64_to_le_bytes(nonce1));
    assert(withdrawal_seeds(freelancer2, nonce2)[2] == spec_u64_to_le_bytes(nonce2));
}

/// The bytes of a key, as a vector.
fn key_bytes(k: &Key) -> (v: Vec<u8>)
    ensures
        v@ == k@,
{
    let mut v: Vec<u8> = Vec::new();
    let mut i: usize = 0;
    while i < 32
        invariant
            0 <= i <= 32,
            v@ == k@.subrange(0, i as int),
        decreases 32 - i,
    {
        v.push(k.bytes[i]);
        i = i + 1;
        proof {
            assert(v@ =~= k@.subrange(0, i as int));
        }
    }
    proof {
        assert(v@ =~= k@);
    }
    v
}

proof fn lemma_deep_view_bytes(v: Vec<Vec<u8>>)
    ensures
        v.deep_view() =~= Seq::new(v@.len(), |i: int| v@[i]@),
{
    assert forall|i: int| 0 <= i < v@.len() implies v.deep_view()[i] == v@[i]@ by {
        assert(v@[i].deep_view() =~= v@[i]@);
    }
}

/// Derive the address of the profile of `authority`.
pub fn user_profile_address(program_id: &Key, authority: &Key) -> (r: Option<(Key, u8)>)
    ensures
        address_view(r) == program_address_of(user_profile_seeds(authority@), program_id@),
{
    let mut seeds: Vec<Vec<u8>> = Vec::new();
    seeds.push(USER_PROFILE_SEED.as_bytes_vec());
    seeds.push(key_bytes(authority));
    proof {
        lemma_deep_view_bytes(seeds);
        assert(seeds.deep_view() =~= user_profile_seeds(authority@));
    }
    find_program_address(&seeds, program_id)
}

/// Derive the address of a transfer from `sender` to `receiver` with a nonce.
pub fn transfer_request_address(program_id: &Key, sender: &Key, receiver: &Key, nonce: u64) -> (r:
    Option<(Key, u8)>)
    ensures
        address_view(r) == program_address_of(transfer_seeds(sender@, receiver@, nonce), program_id@),
{
    let mut seeds: Vec<Vec<u8>> = Vec::new();
    seeds.push(TRANSFER_REQUEST_SEED.as_bytes_vec());
    seeds.push(key_bytes(sender));
    seeds.push(key_bytes(receiver));
    seeds.push(u64_to_le_bytes(nonce));
    proof {
        lemma_deep_view_bytes(seeds);
        assert(seeds.deep_view() =~= transfer_seeds(sender@, receiver@, nonce));
    }
    find_program_address(&seeds, program_id)
}

/// Derive the address of a withdrawal of `freelancer` with a nonce.
pub fn withdrawal_request_address(program_id: &Key, freelancer: &Key, nonce: u64) -> (r: Option<
    (Key, u8),
>)
    ensures
        address_view(r) == program_address_of(withdrawal_seeds(freelancer@, nonce), program_id@),
{
    let mut seeds: Vec<Vec<u8>> = Vec::new();
    seeds.push(WITHDRAWAL_REQUEST_SEED.as_bytes_vec());
    seeds.push(key_bytes(freelancer));
    seeds.push(u64_to_le_bytes(nonce));
    proof {
        lemma_deep_view_bytes(seeds);
        assert(seeds.deep_view() =~= withdrawal_seeds(freelancer@, nonce));
    }
    find_program_address(&seeds, program_id)
}

/// Derive the address of the liquidity provider record of `authority`.
pub fn liquidity_provider_address(program_id: &Key, authority: &Key) -> (r: Option<(Key, u8)>)
    ensures
        address_view(r) == program_address_of(provider_seeds(authority@), program_id@),
{
    let mut seeds: Vec<Vec<u8>> = Vec::new();
    seeds.push(LIQUIDITY_PROVIDER_SEED.as_bytes_vec());
    seeds.push(key_bytes(authority));
    proof {
        lemma_deep_view_bytes(seeds);
        assert(seeds.deep_view() =~= provider_seeds(authority@));
    }
    find_program_address(&seeds, program_id)
}

} // verus!
