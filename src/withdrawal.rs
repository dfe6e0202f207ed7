use vstd::prelude::*;
use crate::addressing::{program_address_of, withdrawal_request_address, withdrawal_seeds};
use crate::errors::CrossPayError;
use crate::state::{
    CustodyMove,
    Key,
    LiquidityProvider,
    PayoutMethod,
    UserProfile,
    WithdrawalRequest,
    WithdrawalStatus,
};

verus! {

/// Why creating a withdrawal is refused, checked in this order, if it is.
pub open spec fn request_withdrawal_error(
    freelancer_profile: UserProfile,
    signer: Key,
    amount: u64,
    balance: u64,
) -> Option<CrossPayError> {
    if signer != freelancer_profile.authority {
        Some(CrossPayError::Unauthorized)
    } else if amount == 0 {
        Some(CrossPayError::InvalidAmount)
    } else if balance < amount {
        Some(CrossPayError::InsufficientBalance)
    } else {
        None
    }
}

/// A freshly created withdrawal: pending, with no provider chosen.
pub open spec fn new_withdrawal(
    freelancer: Key,
    amount: u64,
    mint: Key,
    payout_method: PayoutMethod,
    nonce: u64,
    now: i64,
    address: Key,
    bump: u8,
) -> WithdrawalRequest {
    WithdrawalRequest {
        freelancer,
        amount,
        mint,
        payout_method,
        selected_provider: None,
        status: WithdrawalStatus::Pending,
        created_at: now,
        completed_at: None,
        nonce,
        address,
        bump,
    }
}

/// Create a withdrawal of `amount` tokens of `mint` for the owner of
/// `freelancer_profile`. The record lives at the address derived from the payee
/// and the payee's `total_received` as nonce.
pub fn request_withdrawal(
    program_id: &Key,
    freelancer_profile: &UserProfile,
    signer: Key,
    amount: u64,
    mint: Key,
    payout_method: PayoutMethod,
    balance: u64,
    now: i64,
) -> (r: Result<WithdrawalRequest, CrossPayError>)
    ensures
        match r {
            Ok(w) => {
                &&& request_withdrawal_error(*freelancer_profile, signer, amount, balance) is None
                &&& program_address_of(
                    withdrawal_seeds(freelancer_profile.authority@, freelancer_profile.total_received),
                    program_id@,
                ) == Some((w.address@, w.bump))
                &&& w == new_withdrawal(
                    freelancer_profile.authority,
                    amount,
                    mint,
                    payout_method,
                    freelancer_profile.total_received,
                    now,
                    w.address,
                    w.bump,
                )
            },
            Err(e) => match request_withdrawal_error(*freelancer_profile, signer, amount, balance) {
                Some(expected) => e == expected,
                None => e == CrossPayError::AddressUnavailable && program_address_of(
                    withdrawal_seeds(freelancer_profile.authority@, freelancer_profile.total_received),
                    program_id@,
                ) is None,
            },
        },
{
    if !signer.same_as(&freelancer_profile.authority) {
        return Err(CrossPayError::Unauthorized);
    }
    if amount == 0 {
        return Err(CrossPayError::InvalidAmount);
    }
    if balance < amount {
        return Err(CrossPayError::InsufficientBalance);
    }
    let nonce = freelancer_profile.total_received;
    match withdrawal_request_address(program_id, &freelancer_profile.authority, nonce) {
        None => Err(CrossPayError::AddressUnavailable),
        Some((address, bump)) => Ok(
            WithdrawalRequest {
                freelancer: freelancer_profile.authority,
                amount,
                mint,
                payout_method,
                selected_provider: None,
                status: WithdrawalStatus::Pending,
                created_at: now,
                completed_at: None,
                nonce,
                address,
                bump,
            },
        ),
    }
}

/// Why choosing `provider` for a withdrawal is refused, checked in this order,
/// if it is. A chosen provider is final, so that is checked first.
pub open spec fn select_provider_error(
    withdrawal: WithdrawalRequest,
    provider: LiquidityProvider,
    signer: Key,
) -> Option<CrossPayError> {
    if withdrawal.selected_provider is Some {
        Some(CrossPayError::ProviderAlreadySelected)
    } else if withdrawal.status != WithdrawalStatus::Pending {
        Some(CrossPayError::InvalidWithdrawalStatus)
    } else if signer != withdrawal.freelancer {
        Some(CrossPayError::Unauthorized)
    } else if !provider.is_active {
        Some(CrossPayError::ProviderNotActive)
    } else if provider.available_liquidity < withdrawal.amount {
        Some(CrossPayError::InsufficientLiquidity)
    } else {
        None
    }
}

/// A withdrawal once `provider` is chosen for it.
pub open spec fn with_provider(withdrawal: WithdrawalRequest, provider: Key) -> WithdrawalRequest {
    WithdrawalRequest {
        selected_provider: Some(provider),
        status: WithdrawalStatus::ProviderSelected,
        ..withdrawal
    }
}

/// Choose the liquidity provider that pays out a pending withdrawal. The
/// provider must be active and hold enough liquidity now; liquidity is not
/// reserved here.
pub fn select_provider(
    withdrawal: &mut WithdrawalRequest,
    provider: &LiquidityProvider,
    signer: Key,
) -> (r: Result<(), CrossPayError>)
    ensures
        match r {
            Ok(_) => {
                &&& select_provider_error(*old(withdrawal), *provider, signer) is None
                &&& *final(withdrawal) == with_provider(*old(withdrawal), provider.authority)
            },
            Err(e) => {
                &&& select_provider_error(*old(withdrawal), *provider, signer) == Some(e)
                &&& *final(withdrawal) == *old(withdrawal)
            },
        },
{
    if withdrawal.selected_provider.is_some() {
        return Err(CrossPayError::ProviderAlreadySelected);
    }
    if withdrawal.status != WithdrawalStatus::Pending {
        return Err(CrossPayError::InvalidWithdrawalStatus);
    }
    if !signer.same_as(&withdrawal.freelancer) {
        return Err(CrossPayError::Unauthorized);
    }
    if !provider.is_active {
        return Err(CrossPayError::ProviderNotActive);
    }
    if provider.available_liquidity < withdrawal.amount {
        return Err(CrossPayError::InsufficientLiquidity);
    }
    withdrawal.selected_provider = Some(provider.authority);
    withdrawal.status = WithdrawalStatus::ProviderSelected;
    Ok(())
}

/// The choice of provider is written once: after a successful selection, any
/// further selection on the withdrawal fails with `ProviderAlreadySelected`,
/// whatever provider is offered and whoever asks.
pub proof fn lemma_provider_selected_once(
    withdrawal: WithdrawalRequest,
    provider: LiquidityProvider,
    signer: Key,
    other_provider: LiquidityProvider,
    other_signer: Key,
)
    requires
        select_provider_error(withdrawal, provider, signer) is None,
    ensures
        select_provider_error(
            with_provider(withdrawal, provider.authority),
            other_provider,
            other_signer,
        ) == Some(CrossPayError::ProviderAlreadySelected),
{
}

/// Why settling a withdrawal is refused, checked in this order, if it is.
pub open spec fn finalize_withdrawal_error(
    withdrawal: WithdrawalRequest,
    provider: LiquidityProvider,
    signer: Key,
    provider_signer: Key,
) -> Option<CrossPayError> {
    if withdrawal.status != WithdrawalStatus::ProviderSelected {
        Some(CrossPayError::InvalidWithdrawalStatus)
    } else if signer != withdrawal.freelancer || withdrawal.selected_provider != Some(
        provider.authority,
    ) || provider_signer != provider.authority {
        Some(CrossPayError::Unauthorized)
    } else if provider.total_volume + withdrawal.amount > u64::MAX
        || provider.completed_transactions + 1 > u64::MAX {
        Some(CrossPayError::ArithmeticOverflow)
    } else {
        None
    }
}

/// A withdrawal after settlement at time `now`.
pub open spec fn completed_withdrawal(withdrawal: WithdrawalRequest, now: i64) -> WithdrawalRequest {
    WithdrawalRequest {
        status: WithdrawalStatus::Completed,
        completed_at: Some(now),
        ..withdrawal
    }
}

/// The provider's ledger after it has paid out `amount`: volume and count grow,
/// and available liquidity drops by the amount, stopping at zero.
pub open spec fn provider_after_payout(provider: LiquidityProvider, amount: u64) -> LiquidityProvider {
    LiquidityProvider {
        total_volume: (provider.total_volume + amount) as u64,
        completed_transactions: (provider.completed_transactions + 1) as u64,
        available_liquidity: if provider.available_liquidity >= amount {
            (provider.available_liquidity - amount) as u64
        } else {
            0
        },
        ..provider
    }
}

/// Settle a withdrawal whose provider was chosen: mark it completed and update
/// the provider's ledger. On success the returned movement (the full amount,
/// payee to provider) must be carried out by the asset ledger in the same
/// transaction; on error nothing changes.
pub fn finalize_withdrawal(
    withdrawal: &mut WithdrawalRequest,
    provider: &mut LiquidityProvider,
    signer: Key,
    provider_signer: Key,
    now: i64,
) -> (r: Result<CustodyMove, CrossPayError>)
    ensures
        match r {
            Ok(m) => {
                &&& finalize_withdrawal_error(*old(withdrawal), *old(provider), signer, provider_signer)
                    is None
                &&& *final(withdrawal) == completed_withdrawal(*old(withdrawal), now)
                &&& *final(provider) == provider_after_payout(*old(provider), old(withdrawal).amount)
                &&& m == (CustodyMove {
                    from: old(withdrawal).freelancer,
                    to: old(provider).authority,
                    mint: old(withdrawal).mint,
                    amount: old(withdrawal).amount,
                })
            },
            Err(e) => {
                &&& finalize_withdrawal_error(*old(withdrawal), *old(provider), signer, provider_signer)
                    == Some(e)
                &&& *final(withdrawal) == *old(withdrawal)
                &&& *final(provider) == *old(provider)
            },
        },
{
    if withdrawal.status != WithdrawalStatus::ProviderSelected {
        return Err(CrossPayError::InvalidWithdrawalStatus);
    }
    let chosen = match withdrawal.selected_provider {
        Some(k) => k.same_as(&provider.authority),
        None => false,
    };
    if !signer.same_as(&withdrawal.freelancer) || !chosen || !provider_signer.same_as(
        &provider.authority,
    ) {
        return Err(CrossPayError::Unauthorized);
    }
    let new_volume = match provider.total_volume.checked_add(withdrawal.amount) {
        Some(v) => v,
        None => return Err(CrossPayError::ArithmeticOverflow),
    };
    let new_count = match provider.completed_transactions.checked_add(1) {
        Some(v) => v,
        None => return Err(CrossPayError::ArithmeticOverflow),
    };
    withdrawal.status = WithdrawalStatus::Completed;
    withdrawal.completed_at = Some(now);
    provider.total_volume = new_volume;
    provider.completed_transactions = new_count;
    provider.available_liquidity = provider.available_liquidity.saturating_sub(withdrawal.amount);
    Ok(
        CustodyMove {
            from: withdrawal.freelancer,
            to: provider.authority,
            mint: withdrawal.mint,
            amount: withdrawal.amount,
        },
    )
}

/// A withdrawal settles at most once, so the provider's volume and count grow
/// once per withdrawal: after a successful settlement any further attempt fails
/// with `InvalidWithdrawalStatus`.
pub proof fn lemma_finalize_withdrawal_once(
    withdrawal: WithdrawalRequest,
    provider: LiquidityProvider,
    signer: Key,
    provider_signer: Key,
    now: i64,
    later_provider: LiquidityProvider,
    later_signer: Key,
    later_provider_signer: Key,
)
    requires
        finalize_withdrawal_error(withdrawal, provider, signer, provider_signer) is None,
    ensures
        finalize_withdrawal_error(
            completed_withdrawal(withdrawal, now),
            later_provider,
            later_signer,
            later_provider_signer,
        ) == Some(CrossPayError::InvalidWithdrawalStatus),
{
}

/// Settlement never drives liquidity below zero: when the amount exceeds the
/// available liquidity it becomes zero, and otherwise it drops by exactly the
/// amount; volume grows by the amount and the count by one.
pub proof fn lemma_payout_clamps_liquidity(provider: LiquidityProvider, amount: u64)
    requires
        provider.total_volume + amount <= u64::MAX,
        provider.completed_transactions + 1 <= u64::MAX,
    ensures
        amount > provider.available_liquidity ==> provider_after_payout(
            provider,
            amount,
        ).available_liquidity == 0,
        amount <= provider.available_liquidity ==> provider_after_payout(
            provider,
            amount,
        ).available_liquidity == provider.available_liquidity - amount,
        provider_after_payout(provider, amount).total_volume == provider.total_volume + amount,
        provider_after_payout(provider, amount).completed_transactions
            == provider.completed_transactions + 1,
{
}

} // verus!
