//! The verified core of a perpetual exchange.
//!
//! The engine computes the state transitions of a position that is opened,
//! increased, decreased or forcibly closed against a pooled liquidity market,
//! and the market-wide funding and borrowing state that positions settle
//! against. Every action is a function of the market, the position and
//! validated prices; its contract says what it returns and what it leaves
//! behind, also where it fails.
//!
//! Beside the engine stand the state that guards it: the roles of a store and
//! the members that hold them, the header of an instruction that waits for
//! its time lock, and the compact encoding of the vectors of a multisig.

pub mod error;
pub mod num;
pub mod fixed;
pub mod price;
pub mod pool;
pub mod params;
pub mod market;
pub mod fees;
pub mod price_impact;
pub mod position;
pub mod action;
pub mod laws;
pub mod order;
pub mod pubkey;
pub mod roles;
pub mod timelock;
pub mod small_vec;
