//! Link health checking: URL rules, a per-URL probe machine, and a store of
//! health records with its staleness and grace-period policy.
pub mod text;
pub mod rules;
pub mod error;
pub mod probe;
pub mod laws;
pub mod store;
pub mod plan;
