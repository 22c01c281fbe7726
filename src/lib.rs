//! A payment-processor connector: canonical payment types, the shared
//! connector contract, and one REST processor adapter with its error
//! classification and webhook handling, specified and verified with Verus.

pub mod text;
pub mod types;
pub mod error_table;
pub mod amount;
pub mod upstream;
pub mod flows;
pub mod checkout;
pub mod integration;
pub mod responses;
pub mod webhook;
pub mod metadata;
