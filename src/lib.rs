//! A regtest bitcoind test fixture: the decisions of its node lifecycle and of
//! its background miner, stated and proved; the I/O that carries them out lives
//! with the caller.

mod bootstrap;
mod endpoint;
mod error;
mod funding;
mod handle;
mod miner;

pub use bootstrap::{bootstrap_block_count, wallet_name, Bootstrap, InitAction, InitEvent, InitPhase, MATURITY_WINDOW, MAX_SPENDABLE_QUANTITY};
pub use endpoint::{endpoint_locator, resolve_endpoint, RPC_PORT};
pub use error::{Error, ErrorKind, Result};
pub use funding::{check_amount, transfer_error, RPC_WALLET_INSUFFICIENT_FUNDS};
pub use handle::NodeHandle;
pub use miner::{Miner, MinerAction, MinerEvent, MinerPhase, TICK_SECONDS};
