use lanstream::discovery::{
    classify_payload, parse_command, Command, ControlMessage, ControlPoll, DiscoveryAction,
    DiscoveryError, DiscoveryServer, LoopControl, Receipt,
};
use lanstream::endpoint::{ClientEndpoint, IpAddress};
use lanstream::registry::ClientRegistry;

fn ep(a: u8, b: u8, c: u8, d: u8, port: u16) -> ClientEndpoint {
    ClientEndpoint::v4(a, b, c, d, port)
}

#[test]
fn ipv4_value_is_big_endian() {
    let e = ep(10, 0, 0, 5, 4000);
    assert_eq!(e.ip, IpAddress::V4(0x0A00_0005));
    assert_eq!(e.port, 4000);
    assert_eq!(ClientEndpoint::new(IpAddress::V6(1), 9), ClientEndpoint { ip: IpAddress::V6(1), port: 9 });
}

#[test]
fn discovery_from_new_client_replies_and_registers() {
    let mut server = DiscoveryServer::new();
    let client = ep(10, 0, 0, 5, 4000);
    let action = server.handle_datagram(b"DISCOVERY", client);
    assert_eq!(
        action,
        DiscoveryAction::ReplyAndPublish { reply_to: client, snapshot: vec![client] }
    );
    assert_eq!(server.clients(), vec![client]);
}

#[test]
fn disconnect_removes_only_that_port() {
    let mut server = DiscoveryServer::new();
    let a = ep(10, 0, 0, 5, 4000);
    let b = ep(10, 0, 0, 6, 4001);
    server.handle_datagram(b"DISCOVERY", a);
    server.handle_datagram(b"DISCOVERY", b);
    let action = server.handle_datagram(b"DISCONNECT", a);
    assert_eq!(action, DiscoveryAction::Publish { snapshot: vec![b] });
    assert_eq!(server.clients(), vec![b]);
}

#[test]
fn distinct_discoveries_register_in_order_without_duplicates() {
    let mut server = DiscoveryServer::new();
    let a = ep(10, 0, 0, 1, 5000);
    let b = ep(10, 0, 0, 2, 5000);
    let c = ep(10, 0, 0, 1, 5001);
    server.handle_datagram(b"DISCOVERY", a);
    server.handle_datagram(b"DISCOVERY", b);
    server.handle_datagram(b"DISCOVERY", c);
    let again = server.handle_datagram(b"DISCOVERY", b);
    assert_eq!(
        again,
        DiscoveryAction::ReplyAndPublish { reply_to: b, snapshot: vec![a, b, c] }
    );
    assert_eq!(server.clients(), vec![a, b, c]);
}

#[test]
fn disconnect_matches_port_across_addresses() {
    let mut server = DiscoveryServer::new();
    let a = ep(10, 0, 0, 1, 7000);
    let b = ep(10, 0, 0, 2, 7000);
    server.handle_datagram(b"DISCOVERY", a);
    server.handle_datagram(b"DISCOVERY", b);
    let action = server.handle_datagram(b"DISCONNECT", ep(192, 168, 1, 1, 7000));
    assert_eq!(action, DiscoveryAction::Publish { snapshot: vec![] });
    assert!(server.clients().is_empty());
}

#[test]
fn disconnect_without_match_still_publishes() {
    let mut server = DiscoveryServer::new();
    let a = ep(10, 0, 0, 1, 7000);
    server.handle_datagram(b"DISCOVERY", a);
    let action = server.handle_datagram(b"DISCONNECT", ep(10, 0, 0, 1, 7001));
    assert_eq!(action, DiscoveryAction::Publish { snapshot: vec![a] });
}

#[test]
fn other_payloads_are_ignored() {
    let mut server = DiscoveryServer::new();
    let a = ep(10, 0, 0, 1, 7000);
    assert_eq!(server.handle_datagram(b"discovery", a), DiscoveryAction::Nothing);
    assert_eq!(server.handle_datagram(b"HELLO", a), DiscoveryAction::Nothing);
    assert_eq!(server.handle_datagram(b"", a), DiscoveryAction::Nothing);
    assert!(server.clients().is_empty());
}

#[test]
fn payload_is_trimmed_before_matching() {
    assert_eq!(classify_payload(b"  DISCOVERY\r\n"), Command::Discovery);
    assert_eq!(classify_payload(b"\tDISCONNECT "), Command::Disconnect);
    assert_eq!(classify_payload("\u{a0}DISCOVERY\u{2003}".as_bytes()), Command::Discovery);
    assert_eq!(classify_payload(b"DIS COVERY"), Command::Other);
}

#[test]
fn invalid_utf8_is_decoded_lossily() {
    assert_eq!(classify_payload(b"\xffDISCOVERY"), Command::Other);
    assert_eq!(classify_payload(b"DISCOVERY\xc3"), Command::Other);
    assert_eq!(classify_payload(b"\xff"), Command::Other);
}

#[test]
fn parse_command_is_case_sensitive() {
    assert_eq!(parse_command("DISCOVERY"), Command::Discovery);
    assert_eq!(parse_command("DISCONNECT"), Command::Disconnect);
    assert_eq!(parse_command("Discovery"), Command::Other);
    assert_eq!(parse_command(" DISCOVERY"), Command::Other);
}

#[test]
fn control_poll_decisions() {
    assert_eq!(DiscoveryServer::on_control(ControlPoll::Received(ControlMessage::Stop)), LoopControl::Stop);
    assert_eq!(DiscoveryServer::on_control(ControlPoll::Received(ControlMessage::Pause)), LoopControl::Continue);
    assert_eq!(DiscoveryServer::on_control(ControlPoll::Received(ControlMessage::Resume)), LoopControl::Continue);
    assert_eq!(DiscoveryServer::on_control(ControlPoll::Empty), LoopControl::Continue);
    assert_eq!(
        DiscoveryServer::on_control(ControlPoll::Disconnected),
        LoopControl::Fail(DiscoveryError::ControlChannelClosed)
    );
}

#[test]
fn stop_is_decided_before_the_datagram_of_its_iteration() {
    let mut server = DiscoveryServer::new();
    let a = ep(10, 0, 0, 5, 4000);
    let iterations = vec![
        (ControlPoll::Empty, Receipt::Datagram { payload: b"DISCOVERY".to_vec(), source: a }),
        (
            ControlPoll::Received(ControlMessage::Stop),
            Receipt::Datagram { payload: b"DISCOVERY".to_vec(), source: ep(10, 0, 0, 6, 4001) },
        ),
        (ControlPoll::Empty, Receipt::Datagram { payload: b"DISCONNECT".to_vec(), source: a }),
    ];
    let mut end = None;
    for (poll, receipt) in iterations.iter() {
        let decision = DiscoveryServer::on_control(*poll);
        if decision != LoopControl::Continue {
            end = Some(decision);
            break;
        }
        server.handle_receipt(receipt);
    }
    assert_eq!(end, Some(LoopControl::Stop));
    assert_eq!(server.clients(), vec![a]);
}

#[test]
fn receipts_without_datagram_change_nothing() {
    let mut server = DiscoveryServer::new();
    assert_eq!(server.handle_receipt(&Receipt::WouldBlock), DiscoveryAction::Nothing);
    assert_eq!(server.handle_receipt(&Receipt::Failed), DiscoveryAction::Nothing);
    assert!(server.clients().is_empty());
}

#[test]
fn registry_register_and_remove() {
    let mut r = ClientRegistry::new();
    let a = ep(1, 2, 3, 4, 10);
    let b = ep(1, 2, 3, 5, 11);
    assert!(r.register(a));
    assert!(!r.register(a));
    assert!(r.register(b));
    assert_eq!(r.len(), 2);
    assert!(r.contains(&b));
    r.remove_port(10);
    assert_eq!(r.snapshot(), vec![b]);
    assert!(!r.contains(&a));
}
