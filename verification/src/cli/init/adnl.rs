//! Setting up ADNL: the client's side is brought to match the node.
//!
//! Like the setup of the control server, this one is a function of the
//! configs and of the answers given so far.

use vstd::prelude::*;

use super::control::Address;
use super::keys::same_key;

verus! {

/// The port that the client binds where the config is made anew.
pub const DEFAULT_LOCAL_ADNL_PORT: u16 = 5032;

/// The ADNL port that is offered where the node config suggests none.
pub const DEFAULT_ADNL_PORT: u16 = 30100;

/// The client's side of ADNL.
#[derive(Debug, Clone, Copy, PartialEq, Eq)]
pub struct AdnlClient {
    /// The port that the client binds.
    pub client_port: u16,
    /// Where the client finds the node.
    pub server_address: Address,
    /// The public key that the client expects of the node.
    pub server_pubkey: [u8; 32],
    /// The file hash of the zerostate of the network.
    pub zerostate_file_hash: [u8; 32],
}

/// What the setup reads of the node's side of ADNL.
#[derive(Debug, Clone, Copy, PartialEq, Eq)]
pub struct AdnlNode {
    /// Where the node is reached.
    pub ip_address: Address,
    /// The public key of the node's overlay key.
    pub overlay_pubkey: [u8; 32],
}

/// The questions of the setup, in the order in which they are asked.
#[derive(Debug, Clone, Copy, PartialEq, Eq, Structural)]
pub enum AdnlQuestion {
    /// The client does not match the node: update it?
    Update,
    /// Under which public address is the new node reached?
    PublicIp,
    /// On which port does the new node listen?
    AdnlPort,
}

/// The answers that were given so far, `None` for each question that was
/// not asked yet.
#[derive(Debug, Clone, Copy, PartialEq, Eq, Structural)]
pub struct AdnlAnswers {
    pub update: Option<bool>,
    pub public_ip: Option<u32>,
    pub adnl_port: Option<u16>,
}

/// Where the setup stands.
#[derive(Debug, Clone, Copy, PartialEq, Eq)]
pub enum AdnlSetup {
    /// The answer to this question is needed to go on.
    Ask(AdnlQuestion),
    /// The user declined: nothing is to be stored.
    Declined,
    /// The client matches the node, and must be stored if `store_client`
    /// says so.
    Done { client: AdnlClient, store_client: bool },
    /// The node has no ADNL side yet: it is to be made with keys of its own
    /// at `address`, and the client with [`adnl_client`] for it. Both must be
    /// stored.
    Create { address: Address },
}

impl AdnlClient {
    /// Whether the client matches the node on the network of `zerostate`: it
    /// looks for the node where it is, expects its key, and is on its
    /// network.
    pub open spec fn matches_node(self, node: AdnlNode, zerostate: Seq<u8>) -> bool {
        &&& self.server_address == node.ip_address
        &&& self.server_pubkey@ == node.overlay_pubkey@
        &&& self.zerostate_file_hash@ == zerostate
    }
}

impl Default for AdnlAnswers {
    /// No answer was given yet.
    fn default() -> (answers: Self)
        ensures
            answers == (AdnlAnswers { update: None, public_ip: None, adnl_port: None }),
    {
        AdnlAnswers { update: None, public_ip: None, adnl_port: None }
    }
}

/// The ADNL port to offer for a new node: the one that the node config
/// suggests, or [`DEFAULT_ADNL_PORT`].
pub fn suggested_adnl_port(suggested: Option<u16>) -> (port: u16)
    ensures
        port == suggested.unwrap_or(DEFAULT_ADNL_PORT),
{
    match suggested {
        Some(port) => port,
        None => DEFAULT_ADNL_PORT,
    }
}

/// The client for a node on the network of `zerostate_file_hash`, bound to
/// [`DEFAULT_LOCAL_ADNL_PORT`].
pub fn adnl_client(node: &AdnlNode, zerostate_file_hash: [u8; 32]) -> (client: AdnlClient)
    ensures
        client.client_port == DEFAULT_LOCAL_ADNL_PORT,
        client.matches_node(*node, zerostate_file_hash@),
{
    AdnlClient {
        client_port: DEFAULT_LOCAL_ADNL_PORT,
        server_address: node.ip_address,
        server_pubkey: node.overlay_pubkey,
        zerostate_file_hash,
    }
}

/// Sets up ADNL from the configs of both sides, `None` for a side that has
/// none yet, from the file hash of the zerostate, and from the answers given
/// so far.
///
/// A client that matches the node is left alone. One that does not is
/// updated where the user agrees, keeping its port, and the setup is declined
/// where the user does not. A node without a client gets one. Where there is
/// no node, the setup asks for its public address and its port and has it
/// created there.
pub fn setup_adnl(
    client: Option<AdnlClient>,
    node: Option<AdnlNode>,
    zerostate_file_hash: [u8; 32],
    answers: &AdnlAnswers,
) -> (setup: AdnlSetup)
    ensures
        match (client, node) {
            (Some(client), Some(node)) => if client.matches_node(node, zerostate_file_hash@) {
                setup == (AdnlSetup::Done { client, store_client: false })
            } else {
                match answers.update {
                    None => setup == AdnlSetup::Ask(AdnlQuestion::Update),
                    Some(false) => setup == AdnlSetup::Declined,
                    Some(true) => {
                        &&& setup matches AdnlSetup::Done { client: updated, store_client }
                        &&& store_client
                        &&& updated.client_port == client.client_port
                        &&& updated.matches_node(node, zerostate_file_hash@)
                    },
                }
            },
            (None, Some(node)) => {
                &&& setup matches AdnlSetup::Done { client: made, store_client }
                &&& store_client
                &&& made.client_port == DEFAULT_LOCAL_ADNL_PORT
                &&& made.matches_node(node, zerostate_file_hash@)
            },
            (_, None) => match (answers.public_ip, answers.adnl_port) {
                (None, _) => setup == AdnlSetup::Ask(AdnlQuestion::PublicIp),
                (Some(_), None) => setup == AdnlSetup::Ask(AdnlQuestion::AdnlPort),
                (Some(ip), Some(port)) => setup == (AdnlSetup::Create {
                    address: Address { ip, port },
                }),
            },
        },
{
    match (client, node) {
        (Some(adnl_client), Some(adnl_node)) => {
            if adnl_client.server_address != adnl_node.ip_address || !same_key(
                &adnl_client.server_pubkey,
                &adnl_node.overlay_pubkey,
            ) || !same_key(&adnl_client.zerostate_file_hash, &zerostate_file_hash) {
                match answers.update {
                    None => AdnlSetup::Ask(AdnlQuestion::Update),
                    Some(false) => AdnlSetup::Declined,
                    Some(true) => AdnlSetup::Done {
                        client: AdnlClient {
                            client_port: adnl_client.client_port,
                            server_address: adnl_node.ip_address,
                            server_pubkey: adnl_node.overlay_pubkey,
                            zerostate_file_hash,
                        },
                        store_client: true,
                    },
                }
            } else {
                AdnlSetup::Done { client: adnl_client, store_client: false }
            }
        },
        (None, Some(adnl_node)) => AdnlSetup::Done {
            client: self::adnl_client(&adnl_node, zerostate_file_hash),
            store_client: true,
        },
        (_, None) => match answers.public_ip {
            None => AdnlSetup::Ask(AdnlQuestion::PublicIp),
            Some(ip) => match answers.adnl_port {
                None => AdnlSetup::Ask(AdnlQuestion::AdnlPort),
                Some(port) => AdnlSetup::Create { address: Address { ip, port } },
            },
        },
    }
}

} // verus!
