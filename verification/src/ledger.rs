//! The record store the platform lives in: a durable, address-keyed store
//! holding the platform singleton and one immutable creation receipt per
//! issued token. Each operation resolves its accounts here, runs the matching
//! handler of [`crate::instructions`], and commits its effects atomically —
//! or leaves everything untouched.

use vstd::prelude::*;

use crate::errors::CryptoLiftError;
use crate::errors::LedgerError;
use crate::instructions;
use crate::instructions::CreateToken;
use crate::instructions::InitializePlatform;
use crate::instructions::UpdateFee;
use crate::instructions::UpdateFeeCollector;
use crate::instructions::WithdrawFees;
use crate::state::PlatformState;
use crate::state::Pubkey;
use crate::state::SystemAccount;
use crate::state::TokenRecord;
use crate::state::is_initial_platform_state;
use crate::state::metadata_ok;
use crate::state::sum_fees;

verus! {

/// No two creation receipts are for the same token identifier.
pub open spec fn mints_unique(records: Seq<TokenRecord>) -> bool {
    forall|i: int, j: int|
        0 <= i < j < records.len() ==> records[i].mint != records[j].mint
}

/// The platform's corner of the ledger. `platform_state` is the singleton —
/// absent until `initialize` creates it, never deleted afterwards — and
/// `token_records` holds the receipts in order of creation, keyed by each
/// token's unique mint identity.
pub struct Ledger {
    pub platform_state: Option<PlatformState>,
    pub token_records: Vec<TokenRecord>,
}

impl Ledger {
    /// The store's invariant, held by every operation. Before `initialize`
    /// nothing has been created; afterwards the singleton's counters are the
    /// running-sum account of its ghost history, there is exactly one receipt
    /// per created token, and no two receipts share a mint identity.
    pub open spec fn wf(self) -> bool {
        match self.platform_state {
            None => self.token_records@.len() == 0,
            Some(st) => {
                &&& st.wf()
                &&& st.total_tokens_created == self.token_records@.len()
                &&& mints_unique(self.token_records@)
            },
        }
    }

    /// A creation receipt for this mint identity already exists.
    pub open spec fn has_mint(self, mint: Pubkey) -> bool {
        exists|i: int|
            0 <= i < self.token_records@.len() && self.token_records@[i].mint == mint
    }

    /// An empty ledger: the platform is not initialized and no token exists.
    pub fn new() -> (l: Ledger)
        ensures
            l.platform_state is None,
            l.token_records@.len() == 0,
            l.wf(),
    {
        Ledger { platform_state: None, token_records: Vec::new() }
    }

    /// The one way the platform singleton comes to exist, callable at most
    /// once: while the singleton already exists every further call fails with
    /// `AlreadyInitialized` and changes nothing, whoever the caller is.
    pub fn initialize(
        &mut self,
        authority: Pubkey,
        fee_amount: u64,
        fee_collector: Pubkey,
    ) -> (result: Result<(), LedgerError>)
        requires
            old(self).wf(),
        ensures
            final(self).wf(),
            old(self).platform_state is Some ==> result == Err::<(), LedgerError>(
                LedgerError::AlreadyInitialized,
            ) && *final(self) == *old(self),
            old(self).platform_state is None ==> result is Ok
                && (final(self).platform_state matches Some(st)
                && is_initial_platform_state(st, authority, fee_amount, fee_collector)),
            final(self).token_records@ == old(self).token_records@,
    {
        match &self.platform_state {
            Some(_) => Err(LedgerError::AlreadyInitialized),
            None => {
                // The store allocates a fresh, blank singleton; the handler
                // fills every field of it.
                let mut ctx = InitializePlatform {
                    platform_state: PlatformState::blank(),
                    authority,
                };
                match instructions::initialize_platform(&mut ctx, fee_amount, fee_collector) {
                    Ok(()) => {
                        self.platform_state = Some(ctx.platform_state);
                        Ok(())
                    },
                    Err(e) => Err(LedgerError::Program(e)),
                }
            },
        }
    }

    /// Creates a token in one atomic transaction: the configured fee moves
    /// from the payer to the collector, the counters advance, and a receipt
    /// is appended — or, on any failure, nothing changes at all. The mint
    /// identity is minted fresh by the external token capability, so no
    /// receipt for it exists yet; the supplied collector account is
    /// cross-checked against the stored one before the handler runs.
    pub fn create_token(
        &mut self,
        creator: Pubkey,
        mint: Pubkey,
        fee_payment: &mut SystemAccount,
        fee_collector: &mut SystemAccount,
        token_name: String,
        token_symbol: String,
        decimals: u8,
        initial_supply: u64,
        now: i64,
    ) -> (result: Result<(), LedgerError>)
        requires
            old(self).wf(),
            !old(self).has_mint(mint),
            old(fee_payment).key != old(fee_collector).key,
            old(self).platform_state matches Some(st) ==> ((old(fee_collector).key
                == st.fee_collector && metadata_ok(token_name@, token_symbol@) && old(
                fee_payment,
            ).lamports >= st.fee_amount) ==> (st.total_tokens_created < u64::MAX
                && st.total_fees_collected + st.fee_amount <= u64::MAX && old(
                fee_collector,
            ).lamports + st.fee_amount <= u64::MAX)),
        ensures
            final(self).wf(),
            old(self).platform_state is None ==> result == Err::<(), LedgerError>(
                LedgerError::NotInitialized,
            ) && *final(self) == *old(self) && *final(fee_payment) == *old(fee_payment) && *final(fee_collector) == *old(fee_collector),
            old(self).platform_state matches Some(st) && old(fee_collector).key
                != st.fee_collector ==> result == Err::<(), LedgerError>(
                LedgerError::CollectorMismatch,
            ) && *final(self) == *old(self) && *final(fee_payment) == *old(fee_payment) && *final(fee_collector) == *old(fee_collector),
            old(self).platform_state matches Some(st) && old(fee_collector).key == st.fee_collector
                && !metadata_ok(token_name@, token_symbol@) ==> result == Err::<(), LedgerError>(
                LedgerError::Program(CryptoLiftError::MetadataTooLong),
            ) && *final(self) == *old(self) && *final(fee_payment) == *old(fee_payment) && *final(fee_collector) == *old(fee_collector),
            old(self).platform_state matches Some(st) && old(fee_collector).key == st.fee_collector
                && metadata_ok(token_name@, token_symbol@) && old(fee_payment).lamports
                < st.fee_amount ==> result == Err::<(), LedgerError>(
                LedgerError::Program(CryptoLiftError::InsufficientFee),
            ) && *final(self) == *old(self) && *final(fee_payment) == *old(fee_payment) && *final(fee_collector) == *old(fee_collector),
            old(self).platform_state matches Some(st) ==> ((old(fee_collector).key
                == st.fee_collector && metadata_ok(token_name@, token_symbol@)
                && old(fee_payment).lamports >= st.fee_amount) ==> result is Ok && (final(self).platform_state matches Some(st2) && st2.authority == st.authority && st2.fee_amount
                == st.fee_amount && st2.fee_collector == st.fee_collector
                && st2.total_tokens_created == st.total_tokens_created + 1
                && st2.total_fees_collected == st.total_fees_collected + st.fee_amount
                && st2.fee_history@ == st.fee_history@.push(st.fee_amount)) && final(fee_payment).key == old(fee_payment).key && final(fee_payment).lamports == old(fee_payment).lamports - st.fee_amount && final(fee_collector).key == old(fee_collector).key
                && final(fee_collector).lamports == old(fee_collector).lamports + st.fee_amount
                && final(self).token_records@.len() == old(self).token_records@.len() + 1 && (
            forall|i: int|
                0 <= i < old(self).token_records@.len() ==> final(self).token_records@[i] == old(self).token_records@[i]) && is_receipt_for(
                final(self).token_records@.last(),
                creator,
                mint,
                token_name@,
                token_symbol@,
                decimals,
                initial_supply,
                now,
            )),
    {
        let st = match &self.platform_state {
            None => {
                return Err(LedgerError::NotInitialized);
            },
            Some(st) => *st,
        };
        // The resolution cross-check: the supplied collector account must be
        // the very one the platform records.
        if fee_collector.key != st.fee_collector {
            return Err(LedgerError::CollectorMismatch);
        }
        // The store allocates a fresh, blank receipt; the handler fills it.
        let mut ctx = CreateToken {
            platform_state: st,
            mint,
            token_record: TokenRecord::blank(),
            creator,
            fee_payment: *fee_payment,
            fee_collector: *fee_collector,
        };
        match instructions::create_token(
            &mut ctx,
            token_name,
            token_symbol,
            decimals,
            initial_supply,
            now,
        ) {
            Ok(()) => {
                self.platform_state = Some(ctx.platform_state);
                *fee_payment = ctx.fee_payment;
                *fee_collector = ctx.fee_collector;
                self.token_records.push(ctx.token_record);
                proof {
                    let old_recs = old(self).token_records@;
                    let new_recs = self.token_records@;
                    assert forall|i: int, j: int|
                        0 <= i < j < new_recs.len() implies new_recs[i].mint != new_recs[j].mint by {
                        if j < old_recs.len() as int {
                            assert(old_recs[i].mint != old_recs[j].mint);
                        } else {
                            assert(new_recs[i] == old_recs[i]);
                            assert(old_recs[i].mint != mint) by {
                                assert(!old(self).has_mint(mint));
                            }
                        }
                    }
                }
                Ok(())
            },
            Err(e) => Err(LedgerError::Program(e)),
        }
    }

    /// Replaces the fee charged per creation, for all subsequent creations.
    /// Fails with `Unauthorized`, changing nothing, when the caller is not
    /// the recorded authority.
    pub fn update_fee(&mut self, caller: Pubkey, new_fee_amount: u64) -> (result: Result<(), LedgerError>)
        requires
            old(self).wf(),
        ensures
            final(self).wf(),
            final(self).token_records@ == old(self).token_records@,
            old(self).platform_state is None ==> result == Err::<(), LedgerError>(
                LedgerError::NotInitialized,
            ) && *final(self) == *old(self),
            old(self).platform_state matches Some(st) && caller != st.authority ==> result
                == Err::<(), LedgerError>(LedgerError::Program(CryptoLiftError::Unauthorized))
                && *final(self) == *old(self),
            old(self).platform_state matches Some(st) ==> (caller == st.authority ==> result is Ok
                && (final(self).platform_state matches Some(st2) && st2.fee_amount
                == new_fee_amount && st2.authority == st.authority && st2.fee_collector
                == st.fee_collector && st2.total_tokens_created == st.total_tokens_created
                && st2.total_fees_collected == st.total_fees_collected && st2.fee_history
                == st.fee_history)),
    {
        let st = match &self.platform_state {
            None => {
                return Err(LedgerError::NotInitialized);
            },
            Some(st) => *st,
        };
        let mut ctx = UpdateFee { platform_state: st, authority: caller };
        match instructions::update_fee(&mut ctx, new_fee_amount) {
            Ok(()) => {
                self.platform_state = Some(ctx.platform_state);
                Ok(())
            },
            Err(e) => Err(LedgerError::Program(e)),
        }
    }

    /// Replaces the account that collects future fees; value collected before
    /// the change stays where it is. Fails with `Unauthorized`, changing
    /// nothing, when the caller is not the recorded authority.
    pub fn update_fee_collector(&mut self, caller: Pubkey, new_fee_collector: Pubkey) -> (result: Result<(), LedgerError>)
        requires
            old(self).wf(),
        ensures
            final(self).wf(),
            final(self).token_records@ == old(self).token_records@,
            old(self).platform_state is None ==> result == Err::<(), LedgerError>(
                LedgerError::NotInitialized,
            ) && *final(self) == *old(self),
            old(self).platform_state matches Some(st) && caller != st.authority ==> result
                == Err::<(), LedgerError>(LedgerError::Program(CryptoLiftError::Unauthorized))
                && *final(self) == *old(self),
            old(self).platform_state matches Some(st) ==> (caller == st.authority ==> result is Ok
                && (final(self).platform_state matches Some(st2) && st2.fee_collector
                == new_fee_collector && st2.authority == st.authority && st2.fee_amount
                == st.fee_amount && st2.total_tokens_created == st.total_tokens_created
                && st2.total_fees_collected == st.total_fees_collected && st2.fee_history
                == st.fee_history)),
    {
        let st = match &self.platform_state {
            None => {
                return Err(LedgerError::NotInitialized);
            },
            Some(st) => *st,
        };
        let mut ctx = UpdateFeeCollector { platform_state: st, authority: caller };
        match instructions::update_fee_collector(&mut ctx, new_fee_collector) {
            Ok(()) => {
                self.platform_state = Some(ctx.platform_state);
                Ok(())
            },
            Err(e) => Err(LedgerError::Program(e)),
        }
    }

    /// Moves `amount` of collected value from the fee collector's account to
    /// the authority's, atomically; the historical counters are deliberately
    /// untouched. Fails with `Unauthorized` for any caller but the recorded
    /// authority and with `InsufficientFunds` when the collector holds less
    /// than `amount`; either failure changes nothing.
    pub fn withdraw_fees(
        &mut self,
        authority: &mut SystemAccount,
        fee_collector: &mut SystemAccount,
        amount: u64,
    ) -> (result: Result<(), LedgerError>)
        requires
            old(self).wf(),
            old(authority).key != old(fee_collector).key,
            old(self).platform_state matches Some(st) ==> old(fee_collector).key
                == st.fee_collector,
            old(self).platform_state matches Some(st) && old(authority).key == st.authority && old(fee_collector).lamports >= amount ==> old(authority).lamports + amount <= u64::MAX,
        ensures
            final(self).wf(),
            *final(self) == *old(self),
            old(self).platform_state is None ==> result == Err::<(), LedgerError>(
                LedgerError::NotInitialized,
            ) && *final(authority) == *old(authority) && *final(fee_collector) == *old(fee_collector),
            old(self).platform_state matches Some(st) && old(authority).key != st.authority
                ==> result == Err::<(), LedgerError>(
                LedgerError::Program(CryptoLiftError::Unauthorized),
            ) && *final(authority) == *old(authority) && *final(fee_collector) == *old(fee_collector),
            old(self).platform_state matches Some(st) && old(authority).key == st.authority && old(fee_collector).lamports < amount ==> result == Err::<(), LedgerError>(
                LedgerError::Program(CryptoLiftError::InsufficientFunds),
            ) && *final(authority) == *old(authority) && *final(fee_collector) == *old(fee_collector),
            old(self).platform_state matches Some(st) && old(authority).key == st.authority && old(fee_collector).lamports >= amount ==> result is Ok && final(authority).key == old(authority).key
                && final(fee_collector).key == old(fee_collector).key && final(fee_collector).lamports == old(fee_collector).lamports - amount && final(authority).lamports == old(authority).lamports + amount,
    {
        let st = match &self.platform_state {
            None => {
                return Err(LedgerError::NotInitialized);
            },
            Some(st) => *st,
        };
        let mut ctx = WithdrawFees {
            platform_state: st,
            authority: *authority,
            fee_collector: *fee_collector,
        };
        match instructions::withdraw_fees(&mut ctx, amount) {
            Ok(()) => {
                *authority = ctx.authority;
                *fee_collector = ctx.fee_collector;
                Ok(())
            },
            Err(e) => Err(LedgerError::Program(e)),
        }
    }
}

/// The creation receipt `create_token` writes: who created the token, its
/// mint identity, its display metadata, its precision and initial quantity,
/// and the transaction's timestamp.
pub open spec fn is_receipt_for(
    rec: TokenRecord,
    creator: Pubkey,
    mint: Pubkey,
    token_name: Seq<char>,
    token_symbol: Seq<char>,
    decimals: u8,
    initial_supply: u64,
    created_at: i64,
) -> bool {
    &&& rec.creator == creator
    &&& rec.mint == mint
    &&& rec.token_name@ == token_name
    &&& rec.token_symbol@ == token_symbol
    &&& rec.decimals == decimals
    &&& rec.initial_supply == initial_supply
    &&& rec.created_at == created_at
}

/// Law: whatever sequence of operations led to an initialized ledger, the
/// platform's cumulative fee total equals the sum of the fee amounts in
/// effect at each successful creation, and the creation counter equals both
/// the length of that history and the number of creation receipts.
pub proof fn lemma_fees_are_running_sum(l: Ledger, st: PlatformState)
    requires
        l.wf(),
        l.platform_state == Some(st),
    ensures
        st.total_fees_collected == sum_fees(st.fee_history@),
        st.total_tokens_created == st.fee_history@.len(),
        st.total_tokens_created == l.token_records@.len(),
{
}

} // verus!
