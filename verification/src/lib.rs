//! Search engine for vanity bitcoin addresses: random key pairs are generated
//! and their pay-to-witness-public-key-hash addresses derived until one
//! contains a requested substring. The coordinator tracks attempts, supports
//! cooperative cancellation, and delivers at most one result per search.

pub mod engine;
pub mod keys;
pub mod matcher;
pub mod report;
pub mod text;
