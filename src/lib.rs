//! A binary prediction market: a constant-product market maker over YES and NO
//! claim tokens, a lifecycle of trading, locking, resolution or cancellation,
//! oracle-backed resolution and pro-rata redemption of the collateral pool.
//!
//! Every operation is a pure transition over the records it touches. The host
//! runtime (token transfers, account storage, the clock, signatures) performs
//! what an operation's result describes.
pub mod state;
pub mod arith;
pub mod amm;
pub mod lifecycle;
pub mod trading;
pub mod oracle;
pub mod resolution;
pub mod redemption;
pub mod laws;
