//! A lending market kept in fixed-layout account records: pool
//! initialisation, deposits, collateralised borrowing, repayment and
//! liquidation, with the loan lifecycle and the pool's solvency proved.
//! Beside it stand a user registry and an asset registry, and one router
//! (`program::process`) takes every instruction of the program.

pub mod address;
pub mod asset;
pub mod codec;
pub mod collateral;
pub mod instruction;
pub mod processor;
pub mod program;
pub mod state;
pub mod text;
pub mod user;
