//! Clients for the node's RPC endpoints.

pub mod tcp_adnl;
