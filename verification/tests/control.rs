use everscale_crypto::ed25519::{PublicKey, SecretKey};
use std::cell::Cell;

use stever::cli::init::control::{
    control_stop, setup_control_server, setup_control_server_with, suggested_control_port,
    Address, ClientsChoice, ControlAnswers, ControlClient, ControlQuestion, ControlServer,
    ControlSetup, ControlStop, ListenAddress, PortChoice, DEFAULT_CONTROL_PORT, LOCALHOST,
    UNSPECIFIED,
};
use stever::cli::init::keys::KeyPair;

const SERVER_KEY: [u8; 32] = [
    99, 87, 207, 105, 199, 108, 51, 89, 172, 108, 232, 48, 240, 147, 49, 155, 145, 60, 66, 55, 98,
    149, 119, 0, 251, 19, 132, 69, 151, 132, 184, 53,
];

const SERVER_PUBKEY: [u8; 32] = [
    75, 54, 96, 93, 16, 21, 8, 159, 230, 42, 68, 148, 54, 18, 251, 196, 205, 254, 252, 114, 76, 87,
    204, 218, 132, 26, 196, 181, 191, 188, 115, 123,
];

const CLIENT_SECRET: [u8; 32] = [7; 32];

fn pubkey(secret: [u8; 32]) -> [u8; 32] {
    PublicKey::from(&SecretKey::from_bytes(secret)).to_bytes()
}

fn client(port: u16, server_pubkey: [u8; 32]) -> ControlClient {
    ControlClient {
        server_address: Address { ip: LOCALHOST, port },
        server_pubkey,
        key: KeyPair::new(CLIENT_SECRET),
    }
}

fn server(port: u16, clients: Option<Vec<[u8; 32]>>) -> ControlServer {
    ControlServer {
        address: Address { ip: UNSPECIFIED, port },
        key: KeyPair::new(SERVER_KEY),
        clients,
    }
}

#[test]
fn key_pair_holds_the_public_key_of_its_secret_key() {
    let pair = KeyPair::new(SERVER_KEY);
    assert_eq!(pair.secret, SERVER_KEY);
    assert_eq!(pair.public, SERVER_PUBKEY);
    let made = KeyPair::generate();
    assert_eq!(made.public, pubkey(made.secret));
    assert_ne!(made, KeyPair::generate());
}

#[test]
fn public_key_is_derived_from_the_secret_key() {
    let setup = setup_control_server(
        Some(client(5031, [0; 32])),
        Some(server(5031, None)),
        &ControlAnswers { update_pubkey: Some(true), ..Default::default() },
    );
    match setup {
        ControlSetup::Done { client, .. } => {
            assert_eq!(client.server_pubkey, SERVER_PUBKEY);
            assert_ne!(client.server_pubkey, SERVER_KEY);
        }
        other => panic!("{other:?}"),
    }
}

#[test]
fn sides_that_agree_are_left_alone() {
    let client = client(5031, SERVER_PUBKEY);
    let server = server(5031, Some(vec![[1; 32], pubkey(CLIENT_SECRET)]));
    assert_eq!(
        setup_control_server(Some(client), Some(server.clone()), &ControlAnswers::default()),
        ControlSetup::Done { client, server, store_client: false, store_server: false }
    );
    let open = self::server(5031, None);
    assert_eq!(
        setup_control_server(Some(client), Some(open.clone()), &ControlAnswers::default()),
        ControlSetup::Done { client, server: open, store_client: false, store_server: false }
    );
}

#[test]
fn different_ports_are_asked_about() {
    let client = client(6000, SERVER_PUBKEY);
    let server = server(5031, None);
    let mut answers = ControlAnswers::default();
    assert_eq!(
        setup_control_server(Some(client), Some(server.clone()), &answers),
        ControlSetup::Ask(ControlQuestion::PortChoice)
    );

    answers.port_choice = Some(PortChoice::Node);
    assert_eq!(
        setup_control_server(Some(client), Some(server.clone()), &answers),
        ControlSetup::Done {
            client: self::client(5031, SERVER_PUBKEY),
            server: server.clone(),
            store_client: true,
            store_server: false,
        }
    );

    answers.port_choice = Some(PortChoice::Client);
    assert_eq!(
        setup_control_server(Some(client), Some(server.clone()), &answers),
        ControlSetup::Done {
            client,
            server: self::server(6000, None),
            store_client: false,
            store_server: true,
        }
    );

    answers.port_choice = Some(PortChoice::Custom);
    assert_eq!(
        setup_control_server(Some(client), Some(server.clone()), &answers),
        ControlSetup::Ask(ControlQuestion::CustomPort)
    );
    answers.custom_port = Some(7000);
    assert_eq!(
        setup_control_server(Some(client), Some(server.clone()), &answers),
        ControlSetup::Done {
            client: self::client(7000, SERVER_PUBKEY),
            server: self::server(7000, None),
            store_client: true,
            store_server: true,
        }
    );
    answers.custom_port = Some(5031);
    assert_eq!(
        setup_control_server(Some(client), Some(server.clone()), &answers),
        ControlSetup::Done {
            client: self::client(5031, SERVER_PUBKEY),
            server,
            store_client: true,
            store_server: false,
        }
    );
}

#[test]
fn hosts_are_kept_when_ports_are_reconciled() {
    let client = ControlClient {
        server_address: Address { ip: 0x0a00_0001, port: 1 },
        server_pubkey: SERVER_PUBKEY,
        key: KeyPair::new(CLIENT_SECRET),
    };
    let server = ControlServer {
        address: Address { ip: 0x0a00_0002, port: 2 },
        key: KeyPair::new(SERVER_KEY),
        clients: None,
    };
    let answers = ControlAnswers { port_choice: Some(PortChoice::Node), ..Default::default() };
    match setup_control_server(Some(client), Some(server), &answers) {
        ControlSetup::Done { client, server, .. } => {
            assert_eq!(client.server_address, Address { ip: 0x0a00_0001, port: 2 });
            assert_eq!(server.address, Address { ip: 0x0a00_0002, port: 2 });
        }
        other => panic!("{other:?}"),
    }
}

#[test]
fn wrong_server_key_is_updated_only_with_consent() {
    let client = client(5031, [9; 32]);
    let server = server(5031, None);
    let mut answers = ControlAnswers::default();
    assert_eq!(
        setup_control_server(Some(client), Some(server.clone()), &answers),
        ControlSetup::Ask(ControlQuestion::UpdatePubkey)
    );
    answers.update_pubkey = Some(false);
    assert_eq!(
        setup_control_server(Some(client), Some(server.clone()), &answers),
        ControlSetup::Declined
    );
    answers.update_pubkey = Some(true);
    assert_eq!(
        setup_control_server(Some(client), Some(server.clone()), &answers),
        ControlSetup::Done {
            client: self::client(5031, SERVER_PUBKEY),
            server,
            store_client: true,
            store_server: false,
        }
    );
}

#[test]
fn ports_are_asked_about_before_the_key() {
    let client = client(6000, [9; 32]);
    let server = server(5031, Some(vec![[1; 32]]));
    let mut answers = ControlAnswers { update_pubkey: Some(false), ..Default::default() };
    assert_eq!(
        setup_control_server(Some(client), Some(server.clone()), &answers),
        ControlSetup::Ask(ControlQuestion::PortChoice)
    );
    answers.port_choice = Some(PortChoice::Node);
    assert_eq!(
        setup_control_server(Some(client), Some(server.clone()), &answers),
        ControlSetup::Declined
    );
    answers.update_pubkey = Some(true);
    assert_eq!(
        setup_control_server(Some(client), Some(server), &answers),
        ControlSetup::Ask(ControlQuestion::ClientsChoice)
    );
}

#[test]
fn unlisted_client_is_added() {
    let client = client(5031, SERVER_PUBKEY);
    let client_pubkey = pubkey(CLIENT_SECRET);

    let empty = server(5031, Some(vec![]));
    assert_eq!(
        setup_control_server(Some(client), Some(empty), &ControlAnswers::default()),
        ControlSetup::Done {
            client,
            server: server(5031, Some(vec![client_pubkey])),
            store_client: false,
            store_server: true,
        }
    );

    let others = server(5031, Some(vec![[1; 32], [2; 32]]));
    let mut answers = ControlAnswers::default();
    assert_eq!(
        setup_control_server(Some(client), Some(others.clone()), &answers),
        ControlSetup::Ask(ControlQuestion::ClientsChoice)
    );
    answers.clients_choice = Some(ClientsChoice::Append);
    assert_eq!(
        setup_control_server(Some(client), Some(others.clone()), &answers),
        ControlSetup::Done {
            client,
            server: server(5031, Some(vec![[1; 32], [2; 32], client_pubkey])),
            store_client: false,
            store_server: true,
        }
    );
    answers.clients_choice = Some(ClientsChoice::Replace);
    assert_eq!(
        setup_control_server(Some(client), Some(others), &answers),
        ControlSetup::Done {
            client,
            server: server(5031, Some(vec![client_pubkey])),
            store_client: false,
            store_server: true,
        }
    );
}

#[test]
fn client_is_made_for_a_server_that_has_none() {
    let server = server(5555, None);
    let mut answers = ControlAnswers::default();
    assert_eq!(
        setup_control_server(None, Some(server.clone()), &answers),
        ControlSetup::Ask(ControlQuestion::CreateClient)
    );
    answers.create_client = Some(false);
    assert_eq!(setup_control_server(None, Some(server.clone()), &answers), ControlSetup::Declined);
    answers.create_client = Some(true);
    assert_eq!(
        setup_control_server(None, Some(server.clone()), &answers),
        ControlSetup::Ask(ControlQuestion::AllowAnyClients)
    );

    answers.allow_any_clients = Some(true);
    match setup_control_server(None, Some(server.clone()), &answers) {
        ControlSetup::Done { client, server: made, store_client, store_server } => {
            assert_eq!(client.server_address, Address { ip: LOCALHOST, port: 5555 });
            assert_eq!(client.server_pubkey, SERVER_PUBKEY);
            assert_eq!(made, server);
            assert!(store_client);
            assert!(!store_server);
        }
        other => panic!("{other:?}"),
    }

    answers.allow_any_clients = Some(false);
    match setup_control_server(None, Some(server.clone()), &answers) {
        ControlSetup::Done { client, server: made, store_client, store_server } => {
            assert_eq!(made.address, server.address);
            assert_eq!(made.key, KeyPair::new(SERVER_KEY));
            assert_eq!(made.clients, Some(vec![client.key.public]));
            assert!(store_client);
            assert!(store_server);
        }
        other => panic!("{other:?}"),
    }
}

#[test]
fn new_client_joins_or_replaces_the_listed_ones() {
    let mut answers = ControlAnswers { create_client: Some(true), ..Default::default() };

    match setup_control_server(None, Some(server(5031, Some(vec![]))), &answers) {
        ControlSetup::Done { client, server, store_server, .. } => {
            assert_eq!(server.clients, Some(vec![client.key.public]));
            assert!(store_server);
        }
        other => panic!("{other:?}"),
    }

    let listed = server(5031, Some(vec![[1; 32]]));
    assert_eq!(
        setup_control_server(None, Some(listed.clone()), &answers),
        ControlSetup::Ask(ControlQuestion::ClientsChoice)
    );
    answers.clients_choice = Some(ClientsChoice::Append);
    match setup_control_server(None, Some(listed.clone()), &answers) {
        ControlSetup::Done { client, server, store_server, .. } => {
            assert_eq!(server.clients, Some(vec![[1; 32], client.key.public]));
            assert!(store_server);
        }
        other => panic!("{other:?}"),
    }
    answers.clients_choice = Some(ClientsChoice::Replace);
    match setup_control_server(None, Some(listed), &answers) {
        ControlSetup::Done { client, server, store_server, .. } => {
            assert_eq!(server.clients, Some(vec![client.key.public]));
            assert!(store_server);
        }
        other => panic!("{other:?}"),
    }
}

#[test]
fn both_sides_are_made_where_there_is_no_server() {
    let mut answers = ControlAnswers::default();
    assert_eq!(
        setup_control_server(None, None, &answers),
        ControlSetup::Ask(ControlQuestion::CreateServer)
    );
    answers.create_server = Some(false);
    assert_eq!(setup_control_server(None, None, &answers), ControlSetup::Declined);
    answers.create_server = Some(true);
    assert_eq!(
        setup_control_server(None, None, &answers),
        ControlSetup::Ask(ControlQuestion::ListenAddress)
    );
    answers.listen_address = Some(ListenAddress::Any);
    assert_eq!(
        setup_control_server(None, None, &answers),
        ControlSetup::Ask(ControlQuestion::ControlPort)
    );
    answers.control_port = Some(suggested_control_port(None));
    match setup_control_server(None, None, &answers) {
        ControlSetup::Done { client, server, store_client, store_server } => {
            let address = Address { ip: UNSPECIFIED, port: 5031 };
            assert_eq!(server.address, address);
            assert_eq!(client.server_address, address);
            assert_eq!(client.server_pubkey, server.key.public);
            assert_eq!(server.clients, Some(vec![client.key.public]));
            assert_ne!(client.key.secret, server.key.secret);
            assert_eq!(client.key.public, pubkey(client.key.secret));
            assert_eq!(server.key.public, pubkey(server.key.secret));
            assert!(store_client && store_server);
        }
        other => panic!("{other:?}"),
    }
    answers.listen_address = Some(ListenAddress::Localhost);
    answers.control_port = Some(1);
    match setup_control_server(None, None, &answers) {
        ControlSetup::Done { client, server, .. } => {
            assert_eq!(server.address, Address { ip: LOCALHOST, port: 1 });
            assert_eq!(client.server_address, server.address);
        }
        other => panic!("{other:?}"),
    }
}

#[test]
fn client_without_server_is_overwritten_only_with_consent() {
    let client = client(5031, SERVER_PUBKEY);
    let mut answers = ControlAnswers { create_server: Some(true), ..Default::default() };
    assert_eq!(
        setup_control_server(Some(client), None, &answers),
        ControlSetup::Ask(ControlQuestion::OverwriteClient)
    );
    answers.overwrite_client = Some(false);
    assert_eq!(setup_control_server(Some(client), None, &answers), ControlSetup::Declined);
    answers.overwrite_client = Some(true);
    answers.listen_address = Some(ListenAddress::Localhost);
    answers.control_port = Some(4000);
    match setup_control_server(Some(client), None, &answers) {
        ControlSetup::Done { client: made, server, store_client, store_server } => {
            assert_ne!(made.key, client.key);
            assert_eq!(made.server_address, Address { ip: LOCALHOST, port: 4000 });
            assert_eq!(made.server_pubkey, server.key.public);
            assert!(store_client && store_server);
        }
        other => panic!("{other:?}"),
    }
}

#[test]
fn new_keys_differ_from_run_to_run() {
    let answers = ControlAnswers {
        create_server: Some(true),
        listen_address: Some(ListenAddress::Localhost),
        control_port: Some(4000),
        ..Default::default()
    };
    let first = setup_control_server(None, None, &answers);
    let second = setup_control_server(None, None, &answers);
    assert_ne!(first, second);
}

#[test]
fn suggested_port_falls_back_to_the_default() {
    assert_eq!(DEFAULT_CONTROL_PORT, 5031);
    assert_eq!(suggested_control_port(None), 5031);
    assert_eq!(suggested_control_port(Some(1234)), 1234);
    assert_eq!(LOCALHOST.to_be_bytes(), [127, 0, 0, 1]);
    assert_eq!(UNSPECIFIED.to_be_bytes(), [0, 0, 0, 0]);
}

/// A source of keys whose secret keys count up from `[1; 32]`.
fn counted_keys(made: &Cell<u8>) -> impl Fn() -> KeyPair + '_ {
    move || {
        made.set(made.get() + 1);
        KeyPair::new([made.get(); 32])
    }
}

#[test]
fn new_sides_get_the_keys_that_are_made_for_them() {
    let made = Cell::new(0);
    let answers = ControlAnswers {
        create_server: Some(true),
        listen_address: Some(ListenAddress::Localhost),
        control_port: Some(4000),
        ..Default::default()
    };
    let address = Address { ip: LOCALHOST, port: 4000 };
    assert_eq!(
        setup_control_server_with(None, None, &answers, counted_keys(&made)),
        ControlSetup::Done {
            client: ControlClient {
                server_address: address,
                server_pubkey: pubkey([1; 32]),
                key: KeyPair::new([2; 32]),
            },
            server: ControlServer {
                address,
                key: KeyPair::new([1; 32]),
                clients: Some(vec![pubkey([2; 32])]),
            },
            store_client: true,
            store_server: true,
        }
    );
    assert_eq!(made.get(), 2);
}

#[test]
fn new_client_gets_the_key_that_is_made_for_it() {
    let made = Cell::new(0);
    let answers = ControlAnswers {
        create_client: Some(true),
        clients_choice: Some(ClientsChoice::Append),
        ..Default::default()
    };
    assert_eq!(
        setup_control_server_with(
            None,
            Some(server(5031, Some(vec![[9; 32]]))),
            &answers,
            counted_keys(&made)
        ),
        ControlSetup::Done {
            client: ControlClient {
                server_address: Address { ip: LOCALHOST, port: 5031 },
                server_pubkey: SERVER_PUBKEY,
                key: KeyPair::new([1; 32]),
            },
            server: server(5031, Some(vec![[9; 32], pubkey([1; 32])])),
            store_client: true,
            store_server: true,
        }
    );
    assert_eq!(made.get(), 1);
}

#[test]
fn keys_are_made_only_for_a_setup_that_finishes() {
    let made = Cell::new(0);
    let mut answers = ControlAnswers::default();
    assert_eq!(
        setup_control_server_with(None, Some(server(1, None)), &answers, counted_keys(&made)),
        ControlSetup::Ask(ControlQuestion::CreateClient)
    );
    answers.create_client = Some(true);
    assert_eq!(
        setup_control_server_with(None, Some(server(1, None)), &answers, counted_keys(&made)),
        ControlSetup::Ask(ControlQuestion::AllowAnyClients)
    );
    answers.create_server = Some(false);
    assert_eq!(
        setup_control_server_with(None, None, &answers, counted_keys(&made)),
        ControlSetup::Declined
    );
    let agreeing = client(5031, SERVER_PUBKEY);
    assert!(matches!(
        setup_control_server_with(
            Some(agreeing),
            Some(server(5031, None)),
            &answers,
            counted_keys(&made)
        ),
        ControlSetup::Done { store_client: false, store_server: false, .. }
    ));
    assert_eq!(made.get(), 0);
}

#[test]
fn stop_names_the_next_question_or_the_refusal() {
    let mut answers = ControlAnswers::default();
    let client = Some(client(6000, [9; 32]));
    let server = Some(server(5031, Some(vec![[1; 32]])));
    let mut asked = Vec::new();
    loop {
        match control_stop(&client, &server, &answers) {
            Some(ControlStop::Ask(question)) => {
                asked.push(question);
                match question {
                    ControlQuestion::PortChoice => answers.port_choice = Some(PortChoice::Custom),
                    ControlQuestion::CustomPort => answers.custom_port = Some(7000),
                    ControlQuestion::UpdatePubkey => answers.update_pubkey = Some(true),
                    ControlQuestion::ClientsChoice => {
                        answers.clients_choice = Some(ClientsChoice::Replace)
                    }
                    other => panic!("{other:?}"),
                }
            }
            Some(ControlStop::Declined) => panic!("declined"),
            None => break,
        }
    }
    assert_eq!(
        asked,
        vec![
            ControlQuestion::PortChoice,
            ControlQuestion::CustomPort,
            ControlQuestion::UpdatePubkey,
            ControlQuestion::ClientsChoice,
        ]
    );
    answers.update_pubkey = Some(false);
    assert_eq!(control_stop(&client, &server, &answers), Some(ControlStop::Declined));
    assert_eq!(control_stop(&None, &None, &answers), Some(ControlStop::Ask(ControlQuestion::CreateServer)));
}
