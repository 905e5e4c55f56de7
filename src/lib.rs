pub mod error;
pub mod fixed_point;
pub mod laws;
pub mod ledger;
pub mod offering;
pub mod variants;
pub mod vault;
