//! The ADNL client over TCP.

pub mod queries_cache;
