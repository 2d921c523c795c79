//! The five operation handlers. Each takes the accounts it is wired to,
//! already resolved, and performs the authorization and precondition checks
//! and the state transition of one atomic operation. A handler mutates
//! nothing until every check has passed, so a failure leaves every account
//! exactly as it was.

use vstd::prelude::*;

use crate::errors::CryptoLiftError;
use crate::state::MAX_TOKEN_NAME_LEN;
use crate::state::MAX_TOKEN_SYMBOL_LEN;
use crate::state::PlatformState;
use crate::state::Pubkey;
use crate::state::SystemAccount;
use crate::state::TokenRecord;
use crate::state::is_initial_platform_state;
use crate::state::lemma_sum_fees_push;
use crate::state::metadata_ok;

verus! {

/// True when `caller` is the principal the platform records as its authority.
pub open spec fn is_authority(caller: Pubkey, state: PlatformState) -> bool {
    caller == state.authority
}

/// The authority check as a pure predicate: true exactly when the caller is
/// the recorded platform authority.
pub fn check_authority(caller: &Pubkey, state: &PlatformState) -> (r: bool)
    ensures
        r == is_authority(*caller, *state),
{
    *caller == state.authority
}

/// Boundary validation of the display metadata: true exactly when the name
/// and the symbol fit the bounded persisted layout.
pub fn validate_metadata(token_name: &String, token_symbol: &String) -> (r: bool)
    ensures
        r == metadata_ok(token_name@, token_symbol@),
{
    token_name.as_str().unicode_len() <= MAX_TOKEN_NAME_LEN
        && token_symbol.as_str().unicode_len() <= MAX_TOKEN_SYMBOL_LEN
}

/// The accounts `initialize_platform` touches: the freshly allocated platform
/// singleton and the caller, who signs and becomes the authority.
pub struct InitializePlatform {
    pub platform_state: PlatformState,
    pub authority: Pubkey,
}

/// Creates the platform configuration: the caller becomes the sole authority,
/// the fee settings are set to the given values, and both counters start at
/// zero. The record store grants this handler a fresh singleton, so the
/// handler itself always succeeds; that the singleton can be created at most
/// once is enforced where it is resolved, in [`crate::ledger::Ledger`].
pub fn initialize_platform(
    ctx: &mut InitializePlatform,
    fee_amount: u64,
    fee_collector: Pubkey,
) -> (result: Result<(), CryptoLiftError>)
    ensures
        result is Ok,
        is_initial_platform_state(final(ctx).platform_state, old(ctx).authority, fee_amount, fee_collector),
        final(ctx).platform_state.wf(),
        final(ctx).authority == old(ctx).authority,
{
    ctx.platform_state.authority = ctx.authority;
    ctx.platform_state.fee_amount = fee_amount;
    ctx.platform_state.fee_collector = fee_collector;
    ctx.platform_state.total_tokens_created = 0;
    ctx.platform_state.total_fees_collected = 0;
    ctx.platform_state.fee_history = Ghost(Seq::empty());
    Ok(())
}

/// The accounts `create_token` touches: the platform singleton, the new
/// token's mint identity, the freshly allocated creation receipt, the signing
/// creator, the account the fee is taken from, and the account that collects
/// it.
pub struct CreateToken {
    pub platform_state: PlatformState,
    pub mint: Pubkey,
    pub token_record: TokenRecord,
    pub creator: Pubkey,
    pub fee_payment: SystemAccount,
    pub fee_collector: SystemAccount,
}

/// Every check of `create_token` passes: the metadata fits and the payer can
/// afford the currently configured fee.
pub open spec fn create_token_applies(
    ctx: CreateToken,
    token_name: Seq<char>,
    token_symbol: Seq<char>,
) -> bool {
    &&& metadata_ok(token_name, token_symbol)
    &&& ctx.fee_payment.lamports >= ctx.platform_state.fee_amount
}

/// A successful creation stays within the machine integers: the counters and
/// the collector's balance have room for one more fee.
pub open spec fn create_token_fits(ctx: CreateToken) -> bool {
    &&& ctx.platform_state.total_tokens_created < u64::MAX
    &&& ctx.platform_state.total_fees_collected + ctx.platform_state.fee_amount <= u64::MAX
    &&& ctx.fee_collector.lamports + ctx.platform_state.fee_amount <= u64::MAX
}

/// What one successful creation does, relating the accounts before (`pre`)
/// and after (`post`): exactly the configured fee moves from the payer to the
/// collector, both counters advance, the fee in effect is appended to the
/// ghost history, a full creation receipt is written, and every other field
/// is untouched.
pub open spec fn create_token_transition(
    pre: CreateToken,
    post: CreateToken,
    token_name: Seq<char>,
    token_symbol: Seq<char>,
    decimals: u8,
    initial_supply: u64,
    now: i64,
) -> bool {
    let fee = pre.platform_state.fee_amount;
    &&& post.platform_state.authority == pre.platform_state.authority
    &&& post.platform_state.fee_amount == fee
    &&& post.platform_state.fee_collector == pre.platform_state.fee_collector
    &&& post.platform_state.total_tokens_created == pre.platform_state.total_tokens_created + 1
    &&& post.platform_state.total_fees_collected == pre.platform_state.total_fees_collected + fee
    &&& post.platform_state.fee_history@ == pre.platform_state.fee_history@.push(fee)
    &&& post.fee_payment.key == pre.fee_payment.key
    &&& post.fee_payment.lamports == pre.fee_payment.lamports - fee
    &&& post.fee_collector.key == pre.fee_collector.key
    &&& post.fee_collector.lamports == pre.fee_collector.lamports + fee
    &&& post.creator == pre.creator
    &&& post.mint == pre.mint
    &&& post.token_record.creator == pre.creator
    &&& post.token_record.mint == pre.mint
    &&& post.token_record.token_name@ == token_name
    &&& post.token_record.token_symbol@ == token_symbol
    &&& post.token_record.decimals == decimals
    &&& post.token_record.initial_supply == initial_supply
    &&& post.token_record.created_at == now
}

/// Creates a token against payment of the configured fee, atomically: the fee
/// moves from the payer to the collector, the counters advance, and the
/// creation receipt is written — or nothing happens at all. `now` is the
/// ledger clock's timestamp for this transaction, handed in by the runtime.
/// Minting the `initial_supply` units themselves is the external token
/// capability's work; `mint` is the fresh identity it issued, and the receipt
/// records both.
///
/// The supplied collector account must be the one the platform records — the
/// record store cross-checks that reference before this handler runs — and
/// the payer and collector are distinct accounts, exclusively held for this
/// transaction.
pub fn create_token(
    ctx: &mut CreateToken,
    token_name: String,
    token_symbol: String,
    decimals: u8,
    initial_supply: u64,
    now: i64,
) -> (result: Result<(), CryptoLiftError>)
    requires
        old(ctx).fee_collector.key == old(ctx).platform_state.fee_collector,
        old(ctx).fee_payment.key != old(ctx).fee_collector.key,
        create_token_applies(*old(ctx), token_name@, token_symbol@) ==> create_token_fits(*old(ctx)),
    ensures
        !metadata_ok(token_name@, token_symbol@) ==> result == Err::<(), CryptoLiftError>(
            CryptoLiftError::MetadataTooLong,
        ) && *final(ctx) == *old(ctx),
        metadata_ok(token_name@, token_symbol@) && old(ctx).fee_payment.lamports < old(ctx).platform_state.fee_amount ==> result == Err::<(), CryptoLiftError>(
            CryptoLiftError::InsufficientFee,
        ) && *final(ctx) == *old(ctx),
        create_token_applies(*old(ctx), token_name@, token_symbol@) ==> result is Ok
            && create_token_transition(
            *old(ctx),
            *final(ctx),
            token_name@,
            token_symbol@,
            decimals,
            initial_supply,
            now,
        ),
        old(ctx).platform_state.wf() ==> final(ctx).platform_state.wf(),
        result is Ok ==> final(ctx).token_record.wf(),
{
    if !validate_metadata(&token_name, &token_symbol) {
        return Err(CryptoLiftError::MetadataTooLong);
    }
    if ctx.fee_payment.lamports < ctx.platform_state.fee_amount {
        return Err(CryptoLiftError::InsufficientFee);
    }

    // The fee transfer: debit the payer, credit the collector.
    let fee_amount = ctx.platform_state.fee_amount;
    ctx.fee_payment.lamports = ctx.fee_payment.lamports - fee_amount;
    ctx.fee_collector.lamports = ctx.fee_collector.lamports + fee_amount;

    // The platform statistics.
    ctx.platform_state.total_tokens_created = ctx.platform_state.total_tokens_created + 1;
    ctx.platform_state.total_fees_collected = ctx.platform_state.total_fees_collected + fee_amount;
    proof {
        lemma_sum_fees_push(old(ctx).platform_state.fee_history@, fee_amount);
    }
    ctx.platform_state.fee_history = Ghost(ctx.platform_state.fee_history@.push(fee_amount));

    // The creation receipt.
    ctx.token_record.creator = ctx.creator;
    ctx.token_record.mint = ctx.mint;
    ctx.token_record.token_name = token_name;
    ctx.token_record.token_symbol = token_symbol;
    ctx.token_record.decimals = decimals;
    ctx.token_record.initial_supply = initial_supply;
    ctx.token_record.created_at = now;

    Ok(())
}

/// The accounts `update_fee` touches: the platform singleton and the signing
/// caller.
pub struct UpdateFee {
    pub platform_state: PlatformState,
    pub authority: Pubkey,
}

/// Replaces the fee charged per creation — zero is a legal fee — for all
/// subsequent creations; past creations are unaffected. Only the recorded
/// authority may call this: any other caller fails with `Unauthorized` and
/// changes nothing.
pub fn update_fee(ctx: &mut UpdateFee, new_fee_amount: u64) -> (result: Result<(), CryptoLiftError>)
    ensures
        !is_authority(old(ctx).authority, old(ctx).platform_state) ==> result == Err::<
            (),
            CryptoLiftError,
        >(CryptoLiftError::Unauthorized) && *final(ctx) == *old(ctx),
        is_authority(old(ctx).authority, old(ctx).platform_state) ==> result is Ok
            && final(ctx).platform_state.fee_amount == new_fee_amount
            && final(ctx).platform_state.authority == old(ctx).platform_state.authority
            && final(ctx).platform_state.fee_collector == old(ctx).platform_state.fee_collector
            && final(ctx).platform_state.total_tokens_created == old(ctx).platform_state.total_tokens_created && final(ctx).platform_state.total_fees_collected
            == old(ctx).platform_state.total_fees_collected && final(ctx).platform_state.fee_history
            == old(ctx).platform_state.fee_history,
        final(ctx).authority == old(ctx).authority,
        old(ctx).platform_state.wf() ==> final(ctx).platform_state.wf(),
{
    if !check_authority(&ctx.authority, &ctx.platform_state) {
        return Err(CryptoLiftError::Unauthorized);
    }
    ctx.platform_state.fee_amount = new_fee_amount;
    Ok(())
}

/// The accounts `update_fee_collector` touches: the platform singleton and
/// the signing caller.
pub struct UpdateFeeCollector {
    pub platform_state: PlatformState,
    pub authority: Pubkey,
}

/// Replaces the account that receives future fees; value collected before the
/// change stays where it is. Only the recorded authority may call this: any
/// other caller fails with `Unauthorized` and changes nothing.
pub fn update_fee_collector(ctx: &mut UpdateFeeCollector, new_fee_collector: Pubkey) -> (result: Result<(), CryptoLiftError>)
    ensures
        !is_authority(old(ctx).authority, old(ctx).platform_state) ==> result == Err::<
            (),
            CryptoLiftError,
        >(CryptoLiftError::Unauthorized) && *final(ctx) == *old(ctx),
        is_authority(old(ctx).authority, old(ctx).platform_state) ==> result is Ok
            && final(ctx).platform_state.fee_collector == new_fee_collector
            && final(ctx).platform_state.authority == old(ctx).platform_state.authority
            && final(ctx).platform_state.fee_amount == old(ctx).platform_state.fee_amount
            && final(ctx).platform_state.total_tokens_created == old(ctx).platform_state.total_tokens_created && final(ctx).platform_state.total_fees_collected
            == old(ctx).platform_state.total_fees_collected && final(ctx).platform_state.fee_history
            == old(ctx).platform_state.fee_history,
        final(ctx).authority == old(ctx).authority,
        old(ctx).platform_state.wf() ==> final(ctx).platform_state.wf(),
{
    if !check_authority(&ctx.authority, &ctx.platform_state) {
        return Err(CryptoLiftError::Unauthorized);
    }
    ctx.platform_state.fee_collector = new_fee_collector;
    Ok(())
}

/// The accounts `withdraw_fees` touches: the platform singleton, the signing
/// authority's own account, and the fee collector's account.
pub struct WithdrawFees {
    pub platform_state: PlatformState,
    pub authority: SystemAccount,
    pub fee_collector: SystemAccount,
}

/// Every check of `withdraw_fees` passes: the caller is the authority and the
/// collector holds at least the requested amount.
pub open spec fn withdraw_applies(ctx: WithdrawFees, amount: u64) -> bool {
    &&& is_authority(ctx.authority.key, ctx.platform_state)
    &&& ctx.fee_collector.lamports >= amount
}

/// Moves `amount` from the fee collector's balance to the authority's,
/// atomically. Only the recorded authority may call this (`Unauthorized`
/// otherwise), and the collector must hold at least `amount`
/// (`InsufficientFunds` otherwise); either failure changes nothing.
/// `total_fees_collected` is a historical total and is deliberately not
/// decremented. The two accounts are distinct and exclusively held for this
/// transaction.
pub fn withdraw_fees(ctx: &mut WithdrawFees, amount: u64) -> (result: Result<(), CryptoLiftError>)
    requires
        old(ctx).authority.key != old(ctx).fee_collector.key,
        withdraw_applies(*old(ctx), amount) ==> old(ctx).authority.lamports + amount <= u64::MAX,
    ensures
        !is_authority(old(ctx).authority.key, old(ctx).platform_state) ==> result == Err::<
            (),
            CryptoLiftError,
        >(CryptoLiftError::Unauthorized) && *final(ctx) == *old(ctx),
        is_authority(old(ctx).authority.key, old(ctx).platform_state) && old(ctx).fee_collector.lamports < amount ==> result == Err::<(), CryptoLiftError>(
            CryptoLiftError::InsufficientFunds,
        ) && *final(ctx) == *old(ctx),
        withdraw_applies(*old(ctx), amount) ==> result is Ok && final(ctx).platform_state == old(ctx).platform_state && final(ctx).authority.key == old(ctx).authority.key && final(ctx).fee_collector.key == old(ctx).fee_collector.key && final(ctx).fee_collector.lamports
            == old(ctx).fee_collector.lamports - amount && final(ctx).authority.lamports == old(ctx).authority.lamports + amount,
        old(ctx).platform_state.wf() ==> final(ctx).platform_state.wf(),
{
    if !check_authority(&ctx.authority.key, &ctx.platform_state) {
        return Err(CryptoLiftError::Unauthorized);
    }
    if ctx.fee_collector.lamports < amount {
        return Err(CryptoLiftError::InsufficientFunds);
    }
    ctx.fee_collector.lamports = ctx.fee_collector.lamports - amount;
    ctx.authority.lamports = ctx.authority.lamports + amount;
    Ok(())
}

} // verus!
