//! A verified core for a URL-shortening service: candidate key generation,
//! URL and key validation, and atomic reservation of keys in a shared
//! key-value namespace with a bounded retry budget.

pub mod allocator;
pub mod config;
pub mod link_generator;
pub mod remote_kv;
pub mod storage;
pub mod suggestion;
pub mod validation;
