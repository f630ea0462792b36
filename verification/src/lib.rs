//! Local transaction proving: turns a transaction witness into a proven
//! transaction record, with every decision of the pipeline stated as a
//! contract and checked by Verus.

pub mod account_update;
pub mod code_cache;
pub mod engine;
pub mod errors;
pub mod ledger;
pub mod notes;
pub mod outputs;
pub mod prover;
pub mod record;
pub mod worker;
