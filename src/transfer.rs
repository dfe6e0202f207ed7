use vstd::prelude::*;
use crate::addressing::{program_address_of, transfer_request_address, transfer_seeds};
use crate::constants::{calculate_net_amount, calculate_platform_fee, net_amount, platform_fee};
use crate::errors::CrossPayError;
use crate::state::{CustodyMove, Key, TransferRequest, TransferStatus, UserProfile};

verus! {

/// Why creating a transfer is refused, checked in this order, if it is.
pub open spec fn initiate_transfer_error(
    sender_profile: UserProfile,
    signer: Key,
    amount: u64,
    sender_balance: u64,
) -> Option<CrossPayError> {
    if !sender_profile.kyc_verified {
        Some(CrossPayError::KycNotVerified)
    } else if signer != sender_profile.authority {
        Some(CrossPayError::Unauthorized)
    } else if amount == 0 {
        Some(CrossPayError::InvalidAmount)
    } else if sender_balance < amount {
        Some(CrossPayError::InsufficientBalance)
    } else {
        None
    }
}

/// A freshly created transfer: pending, with fee and net derived from the gross amount.
pub open spec fn new_transfer(
    sender: Key,
    receiver: Key,
    amount: u64,
    mint: Key,
    nonce: u64,
    now: i64,
    address: Key,
    bump: u8,
) -> TransferRequest {
    TransferRequest {
        sender,
        receiver,
        amount,
        net_amount: net_amount(amount),
        platform_fee: platform_fee(amount),
        mint,
        status: TransferStatus::Pending,
        created_at: now,
        completed_at: None,
        nonce,
        address,
        bump,
    }
}

/// Create a transfer of `amount` tokens of `mint` from the owner of
/// `sender_profile` to `receiver`. The record lives at the address derived from
/// the sender, the receiver and the sender's `total_sent` as nonce.
pub fn initiate_transfer(
    program_id: &Key,
    sender_profile: &UserProfile,
    signer: Key,
    receiver: Key,
    amount: u64,
    mint: Key,
    sender_balance: u64,
    now: i64,
) -> (r: Result<TransferRequest, CrossPayError>)
    ensures
        !sender_profile.kyc_verified ==> r == Err::<TransferRequest, CrossPayError>(
            CrossPayError::KycNotVerified,
        ),
        match r {
            Ok(t) => {
                &&& initiate_transfer_error(*sender_profile, signer, amount, sender_balance) is None
                &&& program_address_of(
                    transfer_seeds(sender_profile.authority@, receiver@, sender_profile.total_sent),
                    program_id@,
                ) == Some((t.address@, t.bump))
                &&& t == new_transfer(
                    sender_profile.authority,
                    receiver,
                    amount,
                    mint,
                    sender_profile.total_sent,
                    now,
                    t.address,
                    t.bump,
                )
            },
            Err(e) => match initiate_transfer_error(*sender_profile, signer, amount, sender_balance) {
                Some(expected) => e == expected,
                None => e == CrossPayError::AddressUnavailable && program_address_of(
                    transfer_seeds(sender_profile.authority@, receiver@, sender_profile.total_sent),
                    program_id@,
                ) is None,
            },
        },
{
    if !sender_profile.kyc_verified {
        return Err(CrossPayError::KycNotVerified);
    }
    if !signer.same_as(&sender_profile.authority) {
        return Err(CrossPayError::Unauthorized);
    }
    if amount == 0 {
        return Err(CrossPayError::InvalidAmount);
    }
    if sender_balance < amount {
        return Err(CrossPayError::InsufficientBalance);
    }
    let nonce = sender_profile.total_sent;
    let derived = transfer_request_address(program_id, &sender_profile.authority, &receiver, nonce);
    match derived {
        None => Err(CrossPayError::AddressUnavailable),
        Some((address, bump)) => {
            let platform_fee = calculate_platform_fee(amount);
            let net_amount = calculate_net_amount(amount);
            Ok(
                TransferRequest {
                    sender: sender_profile.authority,
                    receiver,
                    amount,
                    net_amount,
                    platform_fee,
                    mint,
                    status: TransferStatus::Pending,
                    created_at: now,
                    completed_at: None,
                    nonce,
                    address,
                    bump,
                },
            )
        },
    }
}

/// Why settling a transfer is refused, checked in this order, if it is.
pub open spec fn confirm_transfer_error(
    transfer: TransferRequest,
    sender_profile: UserProfile,
    receiver_profile: UserProfile,
    signer: Key,
    sender_balance: u64,
) -> Option<CrossPayError> {
    if transfer.status != TransferStatus::Pending {
        Some(CrossPayError::InvalidTransferStatus)
    } else if signer != sender_profile.authority || sender_profile.authority != transfer.sender
        || receiver_profile.authority != transfer.receiver {
        Some(CrossPayError::Unauthorized)
    } else if sender_balance < transfer.amount {
        Some(CrossPayError::InsufficientBalance)
    } else if transfer.platform_fee != platform_fee(transfer.amount) || transfer.net_amount
        != net_amount(transfer.amount) || transfer.net_amount + transfer.platform_fee
        != transfer.amount {
        Some(CrossPayError::InvalidFeeCalculation)
    } else if sender_profile.total_sent + transfer.amount > u64::MAX
        || receiver_profile.total_received + transfer.net_amount > u64::MAX {
        Some(CrossPayError::ArithmeticOverflow)
    } else {
        None
    }
}

/// A transfer after settlement at time `now`.
pub open spec fn completed_transfer(transfer: TransferRequest, now: i64) -> TransferRequest {
    TransferRequest { status: TransferStatus::Completed, completed_at: Some(now), ..transfer }
}

/// Settle a pending transfer: check it against the sender's live balance and
/// re-derive its fee, then mark it completed and add the gross amount to the
/// sender's `total_sent` and the net amount to the receiver's `total_received`.
/// On success the returned movement (the net amount, sender to receiver) must be
/// carried out by the asset ledger in the same transaction; on error nothing
/// changes.
pub fn confirm_transfer(
    transfer: &mut TransferRequest,
    sender_profile: &mut UserProfile,
    receiver_profile: &mut UserProfile,
    signer: Key,
    sender_balance: u64,
    now: i64,
) -> (r: Result<CustodyMove, CrossPayError>)
    ensures
        match r {
            Ok(m) => {
                &&& confirm_transfer_error(
                    *old(transfer),
                    *old(sender_profile),
                    *old(receiver_profile),
                    signer,
                    sender_balance,
                ) is None
                &&& *final(transfer) == completed_transfer(*old(transfer), now)
                &&& *final(sender_profile) == (UserProfile {
                    total_sent: (old(sender_profile).total_sent + old(transfer).amount) as u64,
                    ..*old(sender_profile)
                })
                &&& *final(receiver_profile) == (UserProfile {
                    total_received: (old(receiver_profile).total_received
                        + old(transfer).net_amount) as u64,
                    ..*old(receiver_profile)
                })
                &&& m == (CustodyMove {
                    from: old(transfer).sender,
                    to: old(transfer).receiver,
                    mint: old(transfer).mint,
                    amount: old(transfer).net_amount,
                })
            },
            Err(e) => {
                &&& confirm_transfer_error(
                    *old(transfer),
                    *old(sender_profile),
                    *old(receiver_profile),
                    signer,
                    sender_balance,
                ) == Some(e)
                &&& *final(transfer) == *old(transfer)
                &&& *final(sender_profile) == *old(sender_profile)
                &&& *final(receiver_profile) == *old(receiver_profile)
            },
        },
{
    if transfer.status != TransferStatus::Pending {
        return Err(CrossPayError::InvalidTransferStatus);
    }
    if !signer.same_as(&sender_profile.authority) || !sender_profile.authority.same_as(
        &transfer.sender,
    ) || !receiver_profile.authority.same_as(&transfer.receiver) {
        return Err(CrossPayError::Unauthorized);
    }
    if sender_balance < transfer.amount {
        return Err(CrossPayError::InsufficientBalance);
    }
    let expected_fee = calculate_platform_fee(transfer.amount);
    let expected_net = calculate_net_amount(transfer.amount);
    if transfer.platform_fee != expected_fee || transfer.net_amount != expected_net {
        return Err(CrossPayError::InvalidFeeCalculation);
    }
    let sum = match transfer.net_amount.checked_add(transfer.platform_fee) {
        Some(v) => v,
        None => 0,
    };
    if sum != transfer.amount {
        return Err(CrossPayError::InvalidFeeCalculation);
    }
    let new_sent = match sender_profile.total_sent.checked_add(transfer.amount) {
        Some(v) => v,
        None => return Err(CrossPayError::ArithmeticOverflow),
    };
    let new_received = match receiver_profile.total_received.checked_add(transfer.net_amount) {
        Some(v) => v,
        None => return Err(CrossPayError::ArithmeticOverflow),
    };
    transfer.status = TransferStatus::Completed;
    transfer.completed_at = Some(now);
    sender_profile.total_sent = new_sent;
    receiver_profile.total_received = new_received;
    Ok(
        CustodyMove {
            from: transfer.sender,
            to: transfer.receiver,
            mint: transfer.mint,
            amount: transfer.net_amount,
        },
    )
}

/// A transfer settles at most once: after a successful settlement, any further
/// attempt on the record fails with `InvalidTransferStatus`, whoever asks and
/// whatever the balances, so no second custody movement is requested.
pub proof fn lemma_confirm_transfer_once(
    transfer: TransferRequest,
    sender_profile: UserProfile,
    receiver_profile: UserProfile,
    signer: Key,
    sender_balance: u64,
    now: i64,
    later_sender: UserProfile,
    later_receiver: UserProfile,
    later_signer: Key,
    later_balance: u64,
)
    requires
        confirm_transfer_error(transfer, sender_profile, receiver_profile, signer, sender_balance)
            is None,
    ensures
        confirm_transfer_error(
            completed_transfer(transfer, now),
            later_sender,
            later_receiver,
            later_signer,
            later_balance,
        ) == Some(CrossPayError::InvalidTransferStatus),
{
}

/// A freshly created transfer passes the fee re-derivation of settlement: its
/// stored fee and net amount are those derived from its gross amount and add
/// up to it.
pub proof fn lemma_new_transfer_fees_consistent(
    sender: Key,
    receiver: Key,
    amount: u64,
    mint: Key,
    nonce: u64,
    now: i64,
    address: Key,
    bump: u8,
)
    ensures
        ({
            let t = new_transfer(sender, receiver, amount, mint, nonce, now, address, bump);
            &&& t.platform_fee == platform_fee(t.amount)
            &&& t.net_amount == net_amount(t.amount)
            &&& t.net_amount + t.platform_fee == t.amount
            &&& t.status == TransferStatus::Pending
        }),
{
    crate::constants::lemma_fee_conservation(amount);
}

} // verus!
