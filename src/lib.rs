//! A claims clearinghouse: claim intake, payer pricing, accounts-receivable
//! derivation and reporting, with the pipeline's decisions stated as verified
//! contracts. Money is held in integer cents throughout.

pub mod intake;
pub mod text;
pub mod validation;
pub mod insurance;
pub mod clearinghouse;
pub mod report;
pub mod pipeline;
