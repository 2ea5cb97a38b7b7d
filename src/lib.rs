//! Decisions and arithmetic of a regtest wallet walk-through: a client that
//! funds one wallet by mining, pays another, and accounts for the fee.
//!
//! Everything that talks to the node lives with the caller; this library
//! decides what to ask next and checks what came back.
pub mod address;
pub mod amount;
pub mod config;
pub mod maturity;
pub mod payment;
pub mod run;
pub mod wallet;

pub use address::{check_address, AddressError, Chain};
pub use amount::{fee, total, FeeError, MAX_MONEY, SAT_PER_COIN};
pub use config::NodeConfig;
pub use maturity::{blocks_to_mine, COINBASE_MATURITY, REGTEST_HALVING_INTERVAL};
pub use payment::{
    settle, split_outputs, PaymentSplit, SettleError, Settlement, SplitError, TxOutput,
};
pub use run::{
    Action, Reply, Report, Run, RunError, Stage, WalletRole, CONFIRMING_BLOCKS, MATURED_REWARDS,
    PAYMENT_SAT,
};
pub use wallet::{
    classify_wallet_error, contains_text, ensure_wallet_step, EnsureWallet, RpcFailure,
    WalletErrorKind, RPC_WALLET_ALREADY_EXISTS, RPC_WALLET_ALREADY_LOADED, RPC_WALLET_ERROR,
};
