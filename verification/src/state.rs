//! The two persistent record types — the platform singleton and the per-token
//! creation receipt — together with the account and identity model they are
//! stated over.

use vstd::prelude::*;

verus! {

/// Longest token name, in characters, that a creation receipt stores.
pub const MAX_TOKEN_NAME_LEN: usize = 32;

/// Longest token symbol, in characters, that a creation receipt stores.
pub const MAX_TOKEN_SYMBOL_LEN: usize = 10;

/// An address on the ledger: the identity of a principal, an account or a
/// token. Two identities are the same exactly when their addresses are.
#[derive(Clone, Copy, PartialEq, Eq, Structural, Debug, Hash)]
pub struct Pubkey {
    pub id: u64,
}

/// A value-bearing ledger account: its address and its spendable balance.
#[derive(Clone, Copy, PartialEq, Eq, Structural, Debug)]
pub struct SystemAccount {
    pub key: Pubkey,
    pub lamports: u64,
}

/// The platform singleton: who administers the platform, what a creation
/// costs, where fees go, and how much has been created and collected so far.
///
/// The ghost `fee_history` records the fee amount that was in effect at each
/// successful creation, oldest first; `wf` ties the two counters to it.
#[derive(Clone, Copy)]
pub struct PlatformState {
    pub authority: Pubkey,
    pub fee_amount: u64,
    pub fee_collector: Pubkey,
    pub total_tokens_created: u64,
    pub total_fees_collected: u64,
    pub fee_history: Ghost<Seq<u64>>,
}

/// The sum of a sequence of fee amounts, as an unbounded integer.
pub open spec fn sum_fees(fees: Seq<u64>) -> int
    decreases fees.len(),
{
    if fees.len() == 0 {
        0
    } else {
        sum_fees(fees.drop_last()) + fees.last()
    }
}

/// Appending one fee to a history adds exactly that fee to its sum.
pub proof fn lemma_sum_fees_push(fees: Seq<u64>, fee: u64)
    ensures
        sum_fees(fees.push(fee)) == sum_fees(fees) + fee,
{
    assert(fees.push(fee).drop_last() =~= fees);
}

impl PlatformState {
    /// The running-sum account of the counters: the platform has seen exactly
    /// `fee_history` many successful creations, and `total_fees_collected` is
    /// the sum of the fee in effect at each of them.
    pub open spec fn wf(self) -> bool {
        &&& self.total_tokens_created == self.fee_history@.len()
        &&& self.total_fees_collected == sum_fees(self.fee_history@)
    }

    /// A blank, zeroed singleton, as the record store allocates it before
    /// `initialize_platform` fills every field.
    pub fn blank() -> (st: PlatformState)
        ensures
            st.authority == (Pubkey { id: 0 }),
            st.fee_amount == 0,
            st.fee_collector == (Pubkey { id: 0 }),
            st.total_tokens_created == 0,
            st.total_fees_collected == 0,
            st.fee_history@ == Seq::<u64>::empty(),
            st.wf(),
    {
        PlatformState {
            authority: Pubkey { id: 0 },
            fee_amount: 0,
            fee_collector: Pubkey { id: 0 },
            total_tokens_created: 0,
            total_fees_collected: 0,
            fee_history: Ghost(Seq::empty()),
        }
    }
}

/// The platform singleton exactly as `initialize_platform` leaves it: the
/// caller became the authority, the fee settings are the given ones, and
/// nothing has been created or collected yet.
pub open spec fn is_initial_platform_state(
    st: PlatformState,
    authority: Pubkey,
    fee_amount: u64,
    fee_collector: Pubkey,
) -> bool {
    &&& st.authority == authority
    &&& st.fee_amount == fee_amount
    &&& st.fee_collector == fee_collector
    &&& st.total_tokens_created == 0
    &&& st.total_fees_collected == 0
    &&& st.fee_history@ == Seq::<u64>::empty()
}

/// The display metadata fits the bounded persisted layout: the name and the
/// symbol are no longer than the store allots them.
pub open spec fn metadata_ok(token_name: Seq<char>, token_symbol: Seq<char>) -> bool {
    &&& token_name.len() <= MAX_TOKEN_NAME_LEN
    &&& token_symbol.len() <= MAX_TOKEN_SYMBOL_LEN
}

/// The creation receipt written once per issued token and immutable
/// afterwards: no operation updates an existing record.
pub struct TokenRecord {
    pub creator: Pubkey,
    pub mint: Pubkey,
    pub token_name: String,
    pub token_symbol: String,
    pub decimals: u8,
    pub initial_supply: u64,
    pub created_at: i64,
}

impl TokenRecord {
    /// The display metadata fits the bounded persisted layout.
    pub open spec fn wf(self) -> bool {
        metadata_ok(self.token_name@, self.token_symbol@)
    }

    /// A blank, zeroed receipt, as the record store allocates it before
    /// `create_token` fills every field.
    pub fn blank() -> (rec: TokenRecord)
        ensures
            rec.creator == (Pubkey { id: 0 }),
            rec.mint == (Pubkey { id: 0 }),
            rec.token_name@ == Seq::<char>::empty(),
            rec.token_symbol@ == Seq::<char>::empty(),
            rec.decimals == 0,
            rec.initial_supply == 0,
            rec.created_at == 0,
            rec.wf(),
    {
        TokenRecord {
            creator: Pubkey { id: 0 },
            mint: Pubkey { id: 0 },
            token_name: String::new(),
            token_symbol: String::new(),
            decimals: 0,
            initial_supply: 0,
            created_at: 0,
        }
    }
}

} // verus!
