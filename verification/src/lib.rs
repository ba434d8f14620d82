pub mod laws;
pub mod ledger;
pub mod store;
