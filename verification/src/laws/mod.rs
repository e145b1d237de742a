//! What the operations of the vault promise together.

pub mod acceptance;
pub mod batches;
pub mod books;
pub mod bridging;
pub mod credits;
pub mod funding;
pub mod governance;
pub mod positions;
pub mod pricing;
pub mod redemption;
pub mod reporting;
pub mod rounding;
pub mod settlement;
pub mod transfers;
pub mod yields;
