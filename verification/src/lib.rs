//! Maker/taker token escrow: account validation, the escrow record's byte
//! layout, and the ordered cross-program calls that each instruction makes.

pub mod account;
pub mod cpi;
pub mod error;
pub mod ids;
pub mod instructions;
pub mod pda;
pub mod state;
pub mod processor;
pub mod rent;
