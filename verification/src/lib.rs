//! Settlement and execution core of a prediction-market arbitrage bot.
//!
//! Two subsystems share one account model (an externally-owned key that
//! controls a proxy wallet):
//!
//! * position-merge settlement: turn equal holdings of the two outcome
//!   tokens of a binary market back into collateral, over one of two
//!   mutually exclusive paths (an on-chain multisig wallet, or a
//!   meta-transaction relayer);
//! * arbitrage order-pair execution: place two dependent limit orders as
//!   one logical operation, with slippage policy, a minimum-notional gate,
//!   deterministic send ordering, and outcome reconciliation.
//!
//! Everything that computes — byte-level encodings, hash preimages,
//! policy decisions, reconciliation — lives here with contracts. The
//! I/O around it (chain reads, HTTP, signing) is driven by a thin
//! unverified shell that hands plain values in and out.

pub mod bytesutil;
pub mod codec;
pub mod errors;
pub mod ext;
pub mod hexfmt;
pub mod merge_plan;
pub mod relayer;
pub mod trading;

