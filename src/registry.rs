use vstd::prelude::*;
use vstd::utf8::encode_utf8;
use crate::addressing::{
    liquidity_provider_address,
    program_address_of,
    provider_seeds,
    user_profile_address,
    user_profile_seeds,
};
use crate::constants::{DEFAULT_TRUST_SCORE, MAX_COUNTRY_CODE_LEN, MAX_LOCATION_LEN};
use crate::errors::CrossPayError;
use crate::state::{Key, LiquidityProvider, UserProfile, UserRole};

verus! {

/// Length of a string in bytes of UTF-8.
pub open spec fn byte_len(s: Seq<char>) -> usize {
    encode_utf8(s).len() as usize
}

/// A KYC commitment that commits to nothing: all zero bytes.
pub open spec fn empty_kyc_hash(h: [u8; 32]) -> bool {
    h@ == Seq::new(32, |_i: int| 0u8)
}

/// A new profile: not KYC-verified, with zero counters and the given
/// commitment (which [`initialize_user`] makes empty).
pub open spec fn new_profile(
    authority: Key,
    role: UserRole,
    country_code: String,
    now: i64,
    bump: u8,
    kyc_hash: [u8; 32],
) -> UserProfile {
    UserProfile {
        authority,
        role,
        kyc_verified: false,
        kyc_hash,
        country_code,
        created_at: now,
        total_sent: 0,
        total_received: 0,
        bump,
    }
}

/// Create the profile of `authority`. The country code may be at most three
/// bytes long.
pub fn initialize_user(
    program_id: &Key,
    authority: Key,
    role: UserRole,
    country_code: String,
    now: i64,
) -> (r: Result<UserProfile, CrossPayError>)
    ensures
        byte_len(country_code@) > MAX_COUNTRY_CODE_LEN ==> r == Err::<UserProfile, CrossPayError>(
            CrossPayError::InvalidCountryCode,
        ),
        byte_len(country_code@) <= MAX_COUNTRY_CODE_LEN ==> match program_address_of(
            user_profile_seeds(authority@),
            program_id@,
        ) {
            Some((_, bump)) => r matches Ok(p) && p == new_profile(
                authority,
                role,
                country_code,
                now,
                bump,
                p.kyc_hash,
            ) && empty_kyc_hash(p.kyc_hash),
            None => r == Err::<UserProfile, CrossPayError>(CrossPayError::AddressUnavailable),
        },
{
    if country_code.as_str().len() > MAX_COUNTRY_CODE_LEN {
        return Err(CrossPayError::InvalidCountryCode);
    }
    match user_profile_address(program_id, &authority) {
        None => Err(CrossPayError::AddressUnavailable),
        Some((_, bump)) => {
            let kyc_hash = [0u8; 32];
            proof {
                assert(kyc_hash@ =~= Seq::new(32, |_i: int| 0u8));
            }
            Ok(
            UserProfile {
                authority,
                role,
                kyc_verified: false,
                kyc_hash,
                country_code,
                created_at: now,
                total_sent: 0,
                total_received: 0,
                bump,
            },
        )
        },
    }
}

/// Record the outcome of KYC verification on the signer's own profile.
pub fn update_kyc_status(
    profile: &mut UserProfile,
    signer: Key,
    kyc_verified: bool,
    kyc_hash: [u8; 32],
) -> (r: Result<(), CrossPayError>)
    ensures
        signer != old(profile).authority ==> r == Err::<(), CrossPayError>(
            CrossPayError::Unauthorized,
        ) && *final(profile) == *old(profile),
        signer == old(profile).authority ==> r == Ok::<(), CrossPayError>(()) && *final(profile)
            == (UserProfile { kyc_verified, kyc_hash, ..*old(profile) }),
{
    if !signer.same_as(&profile.authority) {
        return Err(CrossPayError::Unauthorized);
    }
    profile.kyc_verified = kyc_verified;
    profile.kyc_hash = kyc_hash;
    Ok(())
}

/// Why registering a provider is refused, checked in this order, if it is.
pub open spec fn register_provider_error(location: Seq<char>, exchange_rate: u64) -> Option<
    CrossPayError,
> {
    if byte_len(location) > MAX_LOCATION_LEN {
        Some(CrossPayError::InvalidLocation)
    } else if exchange_rate == 0 {
        Some(CrossPayError::InvalidAmount)
    } else {
        None
    }
}

/// A newly registered provider: active, default trust score, no liquidity yet.
pub open spec fn new_provider(
    authority: Key,
    location: String,
    exchange_rate: u64,
    now: i64,
    bump: u8,
) -> LiquidityProvider {
    LiquidityProvider {
        authority,
        location,
        exchange_rate,
        available_liquidity: 0,
        total_volume: 0,
        completed_transactions: 0,
        trust_score: DEFAULT_TRUST_SCORE,
        is_active: true,
        created_at: now,
        bump,
    }
}

/// Register `authority` as a liquidity provider. The location may be at most
/// fifty bytes long and the exchange rate must be positive.
pub fn register_liquidity_provider(
    program_id: &Key,
    authority: Key,
    location: String,
    exchange_rate: u64,
    now: i64,
) -> (r: Result<LiquidityProvider, CrossPayError>)
    ensures
        register_provider_error(location@, exchange_rate) matches Some(e) ==> r == Err::<
            LiquidityProvider,
            CrossPayError,
        >(e),
        register_provider_error(location@, exchange_rate) is None ==> match program_address_of(
            provider_seeds(authority@),
            program_id@,
        ) {
            Some((_, bump)) => r == Ok::<LiquidityProvider, CrossPayError>(
                new_provider(authority, location, exchange_rate, now, bump),
            ),
            None => r == Err::<LiquidityProvider, CrossPayError>(CrossPayError::AddressUnavailable),
        },
        r matches Ok(p) ==> p.wf(),
{
    if location.as_str().len() > MAX_LOCATION_LEN {
        return Err(CrossPayError::InvalidLocation);
    }
    if exchange_rate == 0 {
        return Err(CrossPayError::InvalidAmount);
    }
    match liquidity_provider_address(program_id, &authority) {
        None => Err(CrossPayError::AddressUnavailable),
        Some((_, bump)) => Ok(
            LiquidityProvider {
                authority,
                location,
                exchange_rate,
                available_liquidity: 0,
                total_volume: 0,
                completed_transactions: 0,
                trust_score: DEFAULT_TRUST_SCORE,
                is_active: true,
                created_at: now,
                bump,
            },
        ),
    }
}

/// The provider sets its own available liquidity and whether it takes work.
pub fn update_provider_availability(
    provider: &mut LiquidityProvider,
    signer: Key,
    available_liquidity: u64,
    is_active: bool,
) -> (r: Result<(), CrossPayError>)
    ensures
        signer != old(provider).authority ==> r == Err::<(), CrossPayError>(
            CrossPayError::Unauthorized,
        ) && *final(provider) == *old(provider),
        signer == old(provider).authority ==> r == Ok::<(), CrossPayError>(()) && *final(provider)
            == (LiquidityProvider { available_liquidity, is_active, ..*old(provider) }),
{
    if !signer.same_as(&provider.authority) {
        return Err(CrossPayError::Unauthorized);
    }
    provider.available_liquidity = available_liquidity;
    provider.is_active = is_active;
    Ok(())
}

} // verus!
