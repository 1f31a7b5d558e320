//! Setting up the control server: the node's side and the client's side of
//! one connection are brought to agree.
//!
//! The setup asks the user as it goes. It is written as a function of the
//! two configs and of the answers that were given so far: it either names
//! the next question, or says that the user declined, or returns both configs
//! as they shall be and says which of them must be stored. The caller asks
//! the question, adds the answer and calls again.

use vstd::prelude::*;

use super::keys::{same_key, KeyPair};

verus! {

/// The control port that is offered where the node config suggests none.
pub const DEFAULT_CONTROL_PORT: u16 = 5031;

/// The address `127.0.0.1`.
pub const LOCALHOST: u32 = 0x7f00_0001;

/// The address `0.0.0.0`.
pub const UNSPECIFIED: u32 = 0;

/// An IPv4 address with a port.
#[derive(Debug, Clone, Copy, PartialEq, Eq, Structural)]
pub struct Address {
    /// The four bytes of the address, the first of them highest.
    pub ip: u32,
    pub port: u16,
}

/// The client's side of the control connection.
#[derive(Debug, Clone, Copy, PartialEq, Eq)]
pub struct ControlClient {
    /// Where the client finds the server.
    pub server_address: Address,
    /// The public key that the client expects of the server.
    pub server_pubkey: [u8; 32],
    /// The keys of the client.
    pub key: KeyPair,
}

/// The node's side of the control connection.
#[derive(Debug, Clone, PartialEq, Eq)]
pub struct ControlServer {
    /// Where the server listens.
    pub address: Address,
    /// The keys of the server.
    pub key: KeyPair,
    /// The public keys of the clients that may connect, or `None` where any
    /// client may.
    pub clients: Option<Vec<[u8; 32]>>,
}

/// What to do about control ports that differ between the two configs.
#[derive(Debug, Clone, Copy, PartialEq, Eq, Structural)]
pub enum PortChoice {
    /// Use the port of the node config.
    Node,
    /// Use the port of the client config.
    Client,
    /// Use the port given as [`ControlAnswers::custom_port`].
    Custom,
}

/// What to do about clients that the node config lists already.
#[derive(Debug, Clone, Copy, PartialEq, Eq, Structural)]
pub enum ClientsChoice {
    /// Keep them and add the client.
    Append,
    /// Drop them and list the client alone.
    Replace,
}

/// Where a new control server listens.
#[derive(Debug, Clone, Copy, PartialEq, Eq, Structural)]
pub enum ListenAddress {
    /// On [`LOCALHOST`].
    Localhost,
    /// On [`UNSPECIFIED`], which is every address of the machine.
    Any,
}

/// The questions of the setup, in the order in which they are asked.
#[derive(Debug, Clone, Copy, PartialEq, Eq, Structural)]
pub enum ControlQuestion {
    /// The node config has no control server: create one?
    CreateServer,
    /// There is a client config, and a new server makes it useless:
    /// overwrite it?
    OverwriteClient,
    /// Where shall the new server listen?
    ListenAddress,
    /// On which port shall the new server listen?
    ControlPort,
    /// There is no client config: create one?
    CreateClient,
    /// The node config lists no clients: may any client connect?
    AllowAnyClients,
    /// The two configs name different ports: which one is it?
    PortChoice,
    /// Which port is it, if neither of the two?
    CustomPort,
    /// The client expects another key than the server has: update it?
    UpdatePubkey,
    /// The node config lists other clients: keep them?
    ClientsChoice,
}

/// The answers that were given so far, `None` for each question that was
/// not asked yet.
#[derive(Debug, Clone, Copy, PartialEq, Eq, Structural)]
pub struct ControlAnswers {
    pub create_server: Option<bool>,
    pub overwrite_client: Option<bool>,
    pub listen_address: Option<ListenAddress>,
    pub control_port: Option<u16>,
    pub create_client: Option<bool>,
    pub allow_any_clients: Option<bool>,
    pub port_choice: Option<PortChoice>,
    pub custom_port: Option<u16>,
    pub update_pubkey: Option<bool>,
    pub clients_choice: Option<ClientsChoice>,
}

impl Default for ControlAnswers {
    /// No answer was given yet.
    fn default() -> (answers: Self)
        ensures
            answers == (ControlAnswers {
                create_server: None,
                overwrite_client: None,
                listen_address: None,
                control_port: None,
                create_client: None,
                allow_any_clients: None,
                port_choice: None,
                custom_port: None,
                update_pubkey: None,
                clients_choice: None,
            }),
    {
        ControlAnswers {
            create_server: None,
            overwrite_client: None,
            listen_address: None,
            control_port: None,
            create_client: None,
            allow_any_clients: None,
            port_choice: None,
            custom_port: None,
            update_pubkey: None,
            clients_choice: None,
        }
    }
}

/// Where the setup stands.
#[derive(Debug, Clone, PartialEq, Eq)]
pub enum ControlSetup {
    /// The answer to this question is needed to go on.
    Ask(ControlQuestion),
    /// The user declined: nothing is to be stored.
    Declined,
    /// The two sides agree. A side that differs from what it was before, or
    /// that is new, must be stored.
    Done { client: ControlClient, server: ControlServer, store_client: bool, store_server: bool },
}

/// What ends a run of the setup before the configs are made.
#[derive(Debug, Clone, Copy, PartialEq, Eq, Structural)]
pub enum ControlStop {
    /// The answer to this question is needed to go on.
    Ask(ControlQuestion),
    /// The user declined.
    Declined,
}

impl ControlClient {
    /// The public key of the client.
    pub open spec fn public_key(self) -> Seq<u8> {
        self.key.public@
    }

    /// Whether two client configs hold the same.
    pub open spec fn same(self, other: ControlClient) -> bool {
        &&& self.server_address == other.server_address
        &&& self.server_pubkey@ == other.server_pubkey@
        &&& self.key == other.key
    }
}

impl ControlServer {
    /// The public key of the server.
    pub open spec fn public_key(self) -> Seq<u8> {
        self.key.public@
    }

    /// The public keys of the listed clients.
    pub open spec fn listed(self) -> Option<Seq<Seq<u8>>> {
        match self.clients {
            Some(clients) => Some(keys(clients@)),
            None => None,
        }
    }

    /// Whether a client with the public key `key` may connect.
    pub open spec fn allows(self, key: Seq<u8>) -> bool {
        match self.listed() {
            Some(clients) => clients.contains(key),
            None => true,
        }
    }

    /// Whether two server configs hold the same.
    pub open spec fn same(self, other: ControlServer) -> bool {
        &&& self.address == other.address
        &&& self.key == other.key
        &&& self.listed() == other.listed()
    }
}

/// The bytes of each key.
pub open spec fn keys(list: Seq<[u8; 32]>) -> Seq<Seq<u8>> {
    list.map_values(|key: [u8; 32]| key@)
}

/// Whether the two sides agree: the client looks for the server on the port
/// on which it listens, expects the key that the server has, and may
/// connect.
pub open spec fn agree(client: ControlClient, server: ControlServer) -> bool {
    &&& client.server_address.port == server.address.port
    &&& client.server_pubkey@ == server.public_key()
    &&& server.allows(client.public_key())
}

/// The port that both sides get where they named different ones.
pub open spec fn chosen_port(client: ControlClient, server: ControlServer, answers: ControlAnswers) -> u16 {
    if client.server_address.port == server.address.port {
        server.address.port
    } else {
        match answers.port_choice {
            Some(PortChoice::Client) => client.server_address.port,
            Some(PortChoice::Custom) => answers.custom_port.unwrap_or(server.address.port),
            _ => server.address.port,
        }
    }
}

/// The address of a new server.
pub open spec fn listen_ip(listen: ListenAddress) -> u32 {
    match listen {
        ListenAddress::Localhost => LOCALHOST,
        ListenAddress::Any => UNSPECIFIED,
    }
}

/// The clients of the node config once the client with the public key `key`
/// is added to `listed` ones: behind them, or in their place.
pub open spec fn with_client(listed: Seq<Seq<u8>>, key: Seq<u8>, choice: Option<ClientsChoice>) -> Seq<
    Seq<u8>,
> {
    if listed.len() == 0 || choice == Some(ClientsChoice::Append) {
        listed.push(key)
    } else {
        seq![key]
    }
}

impl ControlQuestion {
    /// Whether the setup of these configs comes to the question, given that
    /// the questions before it did not end it.
    pub open spec fn needed(
        self,
        client: Option<ControlClient>,
        server: Option<ControlServer>,
        answers: ControlAnswers,
    ) -> bool {
        match self {
            ControlQuestion::CreateServer => server is None,
            ControlQuestion::OverwriteClient => server is None && client is Some,
            ControlQuestion::ListenAddress => server is None,
            ControlQuestion::ControlPort => server is None,
            ControlQuestion::CreateClient => server is Some && client is None,
            ControlQuestion::AllowAnyClients => server is Some && client is None
                && server.unwrap().clients is None,
            ControlQuestion::PortChoice => server is Some && client is Some
                && client.unwrap().server_address.port != server.unwrap().address.port,
            ControlQuestion::CustomPort => server is Some && client is Some
                && client.unwrap().server_address.port != server.unwrap().address.port
                && answers.port_choice == Some(PortChoice::Custom),
            ControlQuestion::UpdatePubkey => server is Some && client is Some
                && client.unwrap().server_pubkey@ != server.unwrap().public_key(),
            ControlQuestion::ClientsChoice => server is Some && (match server.unwrap().listed() {
                Some(listed) => listed.len() > 0 && (client is Some ==> !listed.contains(
                    client.unwrap().public_key(),
                )),
                None => false,
            }),
        }
    }

    /// Whether the question has its answer.
    pub open spec fn answered(self, answers: ControlAnswers) -> bool {
        match self {
            ControlQuestion::CreateServer => answers.create_server is Some,
            ControlQuestion::OverwriteClient => answers.overwrite_client is Some,
            ControlQuestion::ListenAddress => answers.listen_address is Some,
            ControlQuestion::ControlPort => answers.control_port is Some,
            ControlQuestion::CreateClient => answers.create_client is Some,
            ControlQuestion::AllowAnyClients => answers.allow_any_clients is Some,
            ControlQuestion::PortChoice => answers.port_choice is Some,
            ControlQuestion::CustomPort => answers.custom_port is Some,
            ControlQuestion::UpdatePubkey => answers.update_pubkey is Some,
            ControlQuestion::ClientsChoice => answers.clients_choice is Some,
        }
    }

    /// Whether the answer to the question ends the setup: the user said no
    /// to what the setup cannot go on without.
    pub open spec fn declined(self, answers: ControlAnswers) -> bool {
        match self {
            ControlQuestion::CreateServer => answers.create_server == Some(false),
            ControlQuestion::OverwriteClient => answers.overwrite_client == Some(false),
            ControlQuestion::CreateClient => answers.create_client == Some(false),
            ControlQuestion::UpdatePubkey => answers.update_pubkey == Some(false),
            _ => false,
        }
    }
}

impl ControlQuestion {
    /// What ends the setup at this question or later: this question where
    /// it is needed and has no answer, the refusal where its answer
    /// declines, and otherwise what the `later` questions come to.
    pub open spec fn or_later(
        self,
        client: Option<ControlClient>,
        server: Option<ControlServer>,
        answers: ControlAnswers,
        later: Option<ControlStop>,
    ) -> Option<ControlStop> {
        if !self.needed(client, server, answers) {
            later
        } else if !self.answered(answers) {
            Some(ControlStop::Ask(self))
        } else if self.declined(answers) {
            Some(ControlStop::Declined)
        } else {
            later
        }
    }
}

/// What ends the setup before the configs are made: going through the
/// questions in their order, the first that is needed and has no answer yet,
/// or the refusal where an answer declines. `None` says that the setup runs
/// to its end.
pub open spec fn stop(
    client: Option<ControlClient>,
    server: Option<ControlServer>,
    answers: ControlAnswers,
) -> Option<ControlStop> {
    let clients_choice = ControlQuestion::ClientsChoice.or_later(client, server, answers, None);
    let update_pubkey = ControlQuestion::UpdatePubkey.or_later(
        client,
        server,
        answers,
        clients_choice,
    );
    let custom_port = ControlQuestion::CustomPort.or_later(client, server, answers, update_pubkey);
    let port_choice = ControlQuestion::PortChoice.or_later(client, server, answers, custom_port);
    let allow_any = ControlQuestion::AllowAnyClients.or_later(client, server, answers, port_choice);
    let create_client = ControlQuestion::CreateClient.or_later(client, server, answers, allow_any);
    let control_port = ControlQuestion::ControlPort.or_later(client, server, answers, create_client);
    let listen = ControlQuestion::ListenAddress.or_later(client, server, answers, control_port);
    let overwrite = ControlQuestion::OverwriteClient.or_later(client, server, answers, listen);
    ControlQuestion::CreateServer.or_later(client, server, answers, overwrite)
}

/// What holds of the configs that a finished setup returns.
///
/// The two sides agree. Where both were there, each keeps its keys and
/// the address of its host, both get the chosen port, and a side is stored
/// exactly if it changed. Where only the server was there, it keeps its
/// address and keys, the client is new with keys of its own and looks for
/// the server on this machine, and the server is stored unless it goes on to
/// let any client connect. Where no server was there, both sides are new
/// with keys of their own and share the address that was asked for, and the
/// server lists this client alone. A server that lists clients gets the
/// client added as it was answered.
pub open spec fn finished(
    client: Option<ControlClient>,
    server: Option<ControlServer>,
    answers: ControlAnswers,
    made_client: ControlClient,
    made_server: ControlServer,
    store_client: bool,
    store_server: bool,
) -> bool {
    &&& agree(made_client, made_server)
    &&& match (client, server) {
        (Some(client), Some(server)) => {
            &&& made_client.key == client.key
            &&& made_client.server_address.ip == client.server_address.ip
            &&& made_server.key == server.key
            &&& made_server.address.ip == server.address.ip
            &&& made_server.address.port == chosen_port(client, server, answers)
            &&& made_server.listed() == match server.listed() {
                Some(listed) => Some(
                    if listed.contains(client.public_key()) {
                        listed
                    } else {
                        with_client(listed, client.public_key(), answers.clients_choice)
                    },
                ),
                None => None,
            }
            &&& store_client == !made_client.same(client)
            &&& store_server == !made_server.same(server)
        },
        (None, Some(server)) => {
            &&& made_client.server_address == (Address { ip: LOCALHOST, port: server.address.port })
            &&& made_server.key == server.key
            &&& made_server.address == server.address
            &&& made_server.listed() == match server.listed() {
                Some(listed) => Some(
                    with_client(listed, made_client.public_key(), answers.clients_choice),
                ),
                None => if answers.allow_any_clients == Some(true) {
                    None
                } else {
                    Some(seq![made_client.public_key()])
                },
            }
            &&& store_client
            &&& store_server == (made_server.listed() is Some)
        },
        (_, None) => {
            &&& answers.listen_address is Some
            &&& answers.control_port is Some
            &&& made_server.address == (Address {
                ip: listen_ip(answers.listen_address.unwrap()),
                port: answers.control_port.unwrap(),
            })
            &&& made_client.server_address == made_server.address
            &&& made_server.listed() == Some(seq![made_client.public_key()])
            &&& store_client
            &&& store_server
        },
    }
}

/// Whether `setup` is what a run of the setup returns for these configs and
/// answers: the question or the refusal that [`stop`] finds, and otherwise
/// configs of which [`finished`] holds.
pub open spec fn follows(
    client: Option<ControlClient>,
    server: Option<ControlServer>,
    answers: ControlAnswers,
    setup: ControlSetup,
) -> bool {
    match stop(client, server, answers) {
        Some(ControlStop::Ask(question)) => setup == ControlSetup::Ask(question),
        Some(ControlStop::Declined) => setup == ControlSetup::Declined,
        None => match setup {
            ControlSetup::Done { client: made_client, server: made_server, store_client, store_server } => finished(
                client,
                server,
                answers,
                made_client,
                made_server,
                store_client,
                store_server,
            ),
            _ => false,
        },
    }
}

/// Whether `key` is among `clients`.
fn is_listed(clients: &Vec<[u8; 32]>, key: &[u8; 32]) -> (listed: bool)
    ensures
        listed == keys(clients@).contains(key@),
{
    let mut at: usize = 0;
    while at < clients.len()
        invariant
            at <= clients.len(),
            forall|i: int| 0 <= i < at ==> keys(clients@)[i] != key@,
        decreases clients.len() - at,
    {
        if same_key(&clients[at], key) {
            assert(keys(clients@)[at as int] == key@);
            return true;
        }
        at += 1;
    }
    false
}

/// Adds the client with the public key `key` to the listed `clients`: behind
/// them where there are none or the user chose to append, and in their place
/// otherwise.
fn add_client(clients: Vec<[u8; 32]>, key: [u8; 32], choice: Option<ClientsChoice>) -> (added: Vec<
    [u8; 32],
>)
    ensures
        keys(added@) == with_client(keys(clients@), key@, choice),
{
    let mut clients = clients;
    let append = clients.len() == 0 || match choice {
        Some(ClientsChoice::Append) => true,
        _ => false,
    };
    if !append {
        clients.clear();
    }
    clients.push(key);
    clients
}

/// The control port to offer for a new server: the one that the node config
/// suggests, or [`DEFAULT_CONTROL_PORT`].
pub fn suggested_control_port(suggested: Option<u16>) -> (port: u16)
    ensures
        port == suggested.unwrap_or(DEFAULT_CONTROL_PORT),
{
    match suggested {
        Some(port) => port,
        None => DEFAULT_CONTROL_PORT,
    }
}

/// What ends the setup of these configs with these answers before the
/// configs are made: the question to ask next, or that the user declined.
/// `None` says that all is answered and agreed to.
pub fn control_stop(
    client: &Option<ControlClient>,
    server: &Option<ControlServer>,
    answers: &ControlAnswers,
) -> (found: Option<ControlStop>)
    ensures
        found == stop(*client, *server, *answers),
{
    match (client, server) {
        (existing_client, None) => {
            match answers.create_server {
                None => return Some(ControlStop::Ask(ControlQuestion::CreateServer)),
                Some(false) => return Some(ControlStop::Declined),
                Some(true) => {},
            }
            if existing_client.is_some() {
                match answers.overwrite_client {
                    None => return Some(ControlStop::Ask(ControlQuestion::OverwriteClient)),
                    Some(false) => return Some(ControlStop::Declined),
                    Some(true) => {},
                }
            }
            if answers.listen_address.is_none() {
                return Some(ControlStop::Ask(ControlQuestion::ListenAddress));
            }
            if answers.control_port.is_none() {
                return Some(ControlStop::Ask(ControlQuestion::ControlPort));
            }
            None
        },
        (None, Some(existing_server)) => {
            match answers.create_client {
                None => return Some(ControlStop::Ask(ControlQuestion::CreateClient)),
                Some(false) => return Some(ControlStop::Declined),
                Some(true) => {},
            }
            match &existing_server.clients {
                None => if answers.allow_any_clients.is_none() {
                    return Some(ControlStop::Ask(ControlQuestion::AllowAnyClients));
                },
                Some(clients) => if clients.len() > 0 && answers.clients_choice.is_none() {
                    return Some(ControlStop::Ask(ControlQuestion::ClientsChoice));
                },
            }
            None
        },
        (Some(existing_client), Some(existing_server)) => {
            if existing_client.server_address.port != existing_server.address.port {
                match answers.port_choice {
                    None => return Some(ControlStop::Ask(ControlQuestion::PortChoice)),
                    Some(PortChoice::Custom) => if answers.custom_port.is_none() {
                        return Some(ControlStop::Ask(ControlQuestion::CustomPort));
                    },
                    Some(_) => {},
                }
            }
            let server_pubkey = existing_server.key.public;
            if !same_key(&server_pubkey, &existing_client.server_pubkey) {
                match answers.update_pubkey {
                    None => return Some(ControlStop::Ask(ControlQuestion::UpdatePubkey)),
                    Some(false) => return Some(ControlStop::Declined),
                    Some(true) => {},
                }
            }
            if let Some(clients) = &existing_server.clients {
                let client_pubkey = existing_client.key.public;
                if clients.len() > 0 && !is_listed(clients, &client_pubkey)
                    && answers.clients_choice.is_none() {
                    return Some(ControlStop::Ask(ControlQuestion::ClientsChoice));
                }
            }
            None
        },
    }
}

/// Sets up the control server from the configs of both sides, `None` for a
/// side that has none yet, and from the answers given so far.
///
/// The setup goes through its questions in their order. It stops at the
/// first that it needs and that has no answer, and asks for that. It stops
/// as declined where the user said no to creating a side, to overwriting the
/// client, or to updating the key that the client expects. Otherwise it
/// returns both sides as [`finished`] describes them, with new keys for the
/// sides that it makes. Sides whose public keys belong to their secret keys
/// stay so.
pub fn setup_control_server(
    client: Option<ControlClient>,
    server: Option<ControlServer>,
    answers: &ControlAnswers,
) -> (setup: ControlSetup)
    ensures
        follows(client, server, *answers, setup),
        setup matches ControlSetup::Done { client: made_client, server: made_server, .. } ==> {
            &&& (client matches Some(client) ==> client.key.wf()) ==> made_client.key.wf()
            &&& (server matches Some(server) ==> server.key.wf()) ==> made_server.key.wf()
        },
{
    setup_control_server_with(client, server, answers, KeyPair::generate)
}

/// Sets up the control server as [`setup_control_server`] does, with the
/// keys that `new_key` makes: one pair for a client that is made anew, and
/// before it one for a server that is made anew. `new_key` is called for
/// these keys alone, once the setup is sure to finish.
pub fn setup_control_server_with<F: Fn() -> KeyPair>(
    client: Option<ControlClient>,
    server: Option<ControlServer>,
    answers: &ControlAnswers,
    new_key: F,
) -> (setup: ControlSetup)
    requires
        new_key.requires(()),
    ensures
        follows(client, server, *answers, setup),
        setup matches ControlSetup::Done { client: made_client, server: made_server, .. } ==> {
            &&& server is None ==> new_key.ensures((), made_server.key)
            &&& server is None || client is None ==> new_key.ensures((), made_client.key)
        },
{
    match control_stop(&client, &server, answers) {
        Some(ControlStop::Ask(question)) => ControlSetup::Ask(question),
        Some(ControlStop::Declined) => ControlSetup::Declined,
        None => match (client, server) {
            (Some(existing_client), Some(existing_server)) => reconcile(
                existing_client,
                existing_server,
                answers,
            ),
            (None, Some(existing_server)) => {
                let client_key = new_key();
                make_client(existing_server, answers, client_key)
            },
            (existing_client, None) => {
                let server_key = new_key();
                let client_key = new_key();
                make_both(existing_client, answers, server_key, client_key)
            },
        },
    }
}

/// Brings a client and a server to agree, once all is answered.
fn reconcile(client: ControlClient, server: ControlServer, answers: &ControlAnswers) -> (setup:
    ControlSetup)
    requires
        stop(Some(client), Some(server), *answers) is None,
    ensures
        follows(Some(client), Some(server), *answers, setup),
{
    let mut made_client = client;
    let mut client_changed = false;
    let mut server_changed = false;

    let server_port = server.address.port;
    let client_port = client.server_address.port;
    let mut port = server_port;
    if client_port != server_port {
        port = match answers.port_choice.unwrap() {
            PortChoice::Node => server_port,
            PortChoice::Client => client_port,
            PortChoice::Custom => answers.custom_port.unwrap(),
        };
        client_changed = port != client_port;
        server_changed = port != server_port;
        made_client.server_address.port = port;
    }

    let server_pubkey = server.key.public;
    if !same_key(&server_pubkey, &client.server_pubkey) {
        made_client.server_pubkey = server_pubkey;
        client_changed = true;
    }

    let made_clients = match server.clients {
        None => None,
        Some(clients) => {
            let client_pubkey = client.key.public;
            if is_listed(&clients, &client_pubkey) {
                Some(clients)
            } else {
                let added = add_client(clients, client_pubkey, answers.clients_choice);
                server_changed = true;
                assert(keys(added@).contains(client_pubkey@)) by {
                    let listed = keys(added@);
                    assert(listed[listed.len() - 1] == client_pubkey@);
                }
                Some(added)
            }
        },
    };
    let made_server = ControlServer {
        address: Address { ip: server.address.ip, port },
        key: server.key,
        clients: made_clients,
    };
    ControlSetup::Done {
        client: made_client,
        server: made_server,
        store_client: client_changed,
        store_server: server_changed,
    }
}

/// Makes the client with the secret key `client_key` for a server that has
/// none, once all is answered.
fn make_client(server: ControlServer, answers: &ControlAnswers, client_key: KeyPair) -> (setup:
    ControlSetup)
    requires
        stop(None, Some(server), *answers) is None,
    ensures
        follows(None, Some(server), *answers, setup),
        setup matches ControlSetup::Done { client: made_client, .. } && made_client.key
            == client_key,
{
    let client_pubkey = client_key.public;
    let made_clients = match server.clients {
        None => if answers.allow_any_clients.unwrap() {
            None
        } else {
            let mut clients = Vec::new();
            clients.push(client_pubkey);
            assert(keys(clients@) =~= seq![client_pubkey@]);
            Some(clients)
        },
        Some(clients) => Some(add_client(clients, client_pubkey, answers.clients_choice)),
    };
    assert(made_clients matches Some(list) ==> keys(list@).contains(client_pubkey@)) by {
        if let Some(list) = made_clients {
            let listed = keys(list@);
            assert(listed[listed.len() - 1] == client_pubkey@);
        }
    }
    let store_server = made_clients.is_some();
    let made_client = ControlClient {
        server_address: Address { ip: LOCALHOST, port: server.address.port },
        server_pubkey: server.key.public,
        key: client_key,
    };
    let made_server = ControlServer {
        address: server.address,
        key: server.key,
        clients: made_clients,
    };
    ControlSetup::Done { client: made_client, server: made_server, store_client: true, store_server }
}

/// Makes both sides anew with the secret keys `server_key` and `client_key`,
/// once all is answered.
fn make_both(
    client: Option<ControlClient>,
    answers: &ControlAnswers,
    server_key: KeyPair,
    client_key: KeyPair,
) -> (setup: ControlSetup)
    requires
        stop(client, None, *answers) is None,
    ensures
        follows(client, None, *answers, setup),
        setup matches ControlSetup::Done { client: made_client, server: made_server, .. }
            && made_client.key == client_key && made_server.key == server_key,
{
    let ip = match answers.listen_address.unwrap() {
        ListenAddress::Localhost => LOCALHOST,
        ListenAddress::Any => UNSPECIFIED,
    };
    let address = Address { ip, port: answers.control_port.unwrap() };

    let client_pubkey = client_key.public;
    let mut clients = Vec::new();
    clients.push(client_pubkey);
    assert(keys(clients@) =~= seq![client_pubkey@]);
    assert(keys(clients@)[0] == client_pubkey@);

    let made_client = ControlClient {
        server_address: address,
        server_pubkey: server_key.public,
        key: client_key,
    };
    let made_server = ControlServer { address, key: server_key, clients: Some(clients) };
    ControlSetup::Done {
        client: made_client,
        server: made_server,
        store_client: true,
        store_server: true,
    }
}

} // verus!
