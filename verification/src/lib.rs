//! A permissioned key-value store: a singleton class value, a write-once
//! student registry, and an overwritable dormitory assignment registry,
//! each guarded by caller authorization.

mod assoc;
pub mod laws;
pub mod store;
