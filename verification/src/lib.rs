//! A fee-gated token-issuance ledger: a platform collects a fixed fee per
//! token-creation request, records an immutable creation receipt per token,
//! and lets a single authority adjust the fee settings and withdraw the
//! accumulated fees.

pub mod errors;
pub mod instructions;
pub mod ledger;
pub mod state;

pub use errors::CryptoLiftError;
pub use errors::LedgerError;
pub use instructions::CreateToken;
pub use instructions::InitializePlatform;
pub use instructions::UpdateFee;
pub use instructions::UpdateFeeCollector;
pub use instructions::WithdrawFees;
pub use instructions::create_token;
pub use instructions::initialize_platform;
pub use instructions::update_fee;
pub use instructions::update_fee_collector;
pub use instructions::withdraw_fees;
pub use ledger::Ledger;
pub use state::PlatformState;
pub use state::Pubkey;
pub use state::SystemAccount;
pub use state::TokenRecord;
