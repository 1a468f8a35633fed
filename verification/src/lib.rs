//! Shape logic, density-type flags and cache bookkeeping of a DFT numerical-integration library.
pub mod error;
pub mod flags;
pub mod checks;
pub mod lists;
pub mod eval_rho;
pub mod xcpot;
pub mod plans;
pub mod ao_cache;
pub mod transpose;
pub mod batches;
pub mod xc;
