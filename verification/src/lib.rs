//! Tools for running an Everscale validator node: the command-line setup
//! helpers and the query correlation cache of the node's ADNL client.

pub mod cli;
pub mod node_rpc;
