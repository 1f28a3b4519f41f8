use dtn7::bp::eid::EndpointID;
use dtn7::dtnd::httpd::fn_guard_localhost;
use dtn7::node::peer::IpAddress;
use dtn7::dtnd::ecla::{
    forward_packets, Beacon, EclaAction, EclaRegistry, ForwardDataPacket, Packet,
    RegisterPacket, TCPTransportLayer, TransportLayerEnum, WebsocketTransportLayer,
};
use dtn7::dtnd::erouting::{accepts_routing_agent, notify, Packet as RoutingPacket, RoutingNotifcation};
use dtn7::dtnd::ws::{
    parse_ws_command, sent_payload_reply, DataReceiveFormat, WsAction, WsCommand,
    WsReceiveMode, WsSession,
};

fn register(name: &str) -> Packet {
    Packet::RegisterPacket(RegisterPacket { name: name.to_string(), enable_beacon: true })
}

#[test]
fn layers() {
    let t = TCPTransportLayer::new(3012);
    assert_eq!(t.port, 3012);
    assert_eq!(TransportLayerEnum::TCPTransportLayer(t).name(), "TCP");
    let w = WebsocketTransportLayer::new(3002);
    assert_eq!(TransportLayerEnum::WebsocketTransportLayer(w).name(), "Websocket");
}

#[test]
fn module_registers_once() {
    let mut reg = EclaRegistry::new();
    reg.add_layer(TransportLayerEnum::TCPTransportLayer(TCPTransportLayer::new(1)));
    reg.handle_connect("TCP", "10.0.0.2:5000");
    let names = vec!["mtcp".to_string()];
    match reg.handle_packet("TCP", "10.0.0.2:5000", register("lora"), &names) {
        EclaAction::AddCla(n) => assert_eq!(n, "lora"),
        other => panic!("unexpected {:?}", other),
    }
    // A registered module's registration is ignored.
    assert!(matches!(
        reg.handle_packet("TCP", "10.0.0.2:5000", register("other"), &names),
        EclaAction::Nothing
    ));
    let targets = reg.submission_targets("lora");
    assert_eq!(targets, vec![("10.0.0.2:5000".to_string(), "TCP".to_string())]);
    assert!(reg.submission_targets("other").is_empty());
    assert_eq!(reg.handle_disconnect("10.0.0.2:5000"), "lora");
    assert!(reg.submission_targets("lora").is_empty());
}

#[test]
fn taken_names_and_unknown_sources() {
    let mut reg = EclaRegistry::new();
    reg.add_layer(TransportLayerEnum::WebsocketTransportLayer(WebsocketTransportLayer::new(1)));
    reg.handle_connect("Websocket", "a");
    let names = vec!["mtcp".to_string()];
    assert!(matches!(
        reg.handle_packet("Websocket", "a", register("mtcp"), &names),
        EclaAction::Nothing
    ));
    assert!(matches!(
        reg.handle_packet("TCP", "a", register("x"), &names),
        EclaAction::Nothing
    ));
    assert!(matches!(
        reg.handle_packet("Websocket", "b", register("x"), &names),
        EclaAction::Nothing
    ));
}

#[test]
fn active_module_packets() {
    let mut reg = EclaRegistry::new();
    reg.add_layer(TransportLayerEnum::TCPTransportLayer(TCPTransportLayer::new(1)));
    reg.handle_connect("TCP", "m");
    let names: Vec<String> = Vec::new();
    // Before registering, data is ignored.
    let data = Packet::ForwardDataPacket(ForwardDataPacket {
        src: "x".to_string(),
        dst: "y".to_string(),
        data: vec![1, 2, 3],
    });
    assert!(matches!(reg.handle_packet("TCP", "m", data, &names), EclaAction::Nothing));
    reg.handle_packet("TCP", "m", register("ble"), &names);
    let data = Packet::ForwardDataPacket(ForwardDataPacket {
        src: "x".to_string(),
        dst: "y".to_string(),
        data: vec![1, 2, 3],
    });
    // Bytes that hold no bundle are dropped.
    assert!(matches!(reg.handle_packet("TCP", "m", data, &names), EclaAction::Nothing));
    let mut bundle = bp7::bundle::new_std_payload_bundle(
        bp7::EndpointID::with_dtn("node1/src").unwrap(),
        bp7::EndpointID::with_dtn("node2/dst").unwrap(),
        b"hello".to_vec(),
    );
    let data = Packet::ForwardDataPacket(ForwardDataPacket {
        src: "x".to_string(),
        dst: "y".to_string(),
        data: bundle.to_cbor(),
    });
    match reg.handle_packet("TCP", "m", data, &names) {
        EclaAction::ReceiveBundle(b) => assert_eq!(b.id(), bundle.id()),
        other => panic!("unexpected {:?}", other),
    }
    let beacon = Packet::Beacon(Beacon {
        eid: EndpointID::with_dtn("peer".to_string()),
        addr: "ble:01".to_string(),
        service_block: vec![0x80],
    });
    match reg.handle_packet("TCP", "m", beacon, &names) {
        EclaAction::AddPeer(b) => {
            assert_eq!(b.addr, "ble:01");
            assert_eq!(b.service_block, vec![0x80]);
        }
        other => panic!("unexpected {:?}", other),
    }
}

#[test]
fn forwarding_packets() {
    let p = forward_packets("dest", &vec![vec![1], vec![2, 3]]);
    assert_eq!(p.len(), 2);
    assert_eq!(p[0].dst, "dest");
    assert_eq!(p[0].src, "");
    assert_eq!(p[1].data, vec![2, 3]);
}

#[test]
fn routing_notifications() {
    match notify(RoutingNotifcation::SendingFailed("node".to_string(), "b1".to_string()), None) {
        RoutingPacket::SendingFailedPacket(p) => {
            assert_eq!(p.a, "node");
            assert_eq!(p.b, "b1");
        }
        _ => panic!("wrong packet"),
    }
    match notify(RoutingNotifcation::DroppedPeer(EndpointID::with_dtn("n".to_string())), None) {
        RoutingPacket::DroppedPeerPacket(p) => {
            assert_eq!(p.eid, EndpointID::with_dtn("n".to_string()))
        }
        _ => panic!("wrong packet"),
    }
    match notify(
        RoutingNotifcation::IncomingBundleWithoutPreviousNode("b".to_string(), "n".to_string()),
        None,
    ) {
        RoutingPacket::IncomingBundleWithoutPreviousNodePacket(p) => assert_eq!(p.a, "b"),
        _ => panic!("wrong packet"),
    }
}

#[test]
fn ws_commands() {
    assert!(matches!(parse_ws_command("  /node \n"), WsCommand::Node));
    assert!(matches!(parse_ws_command("/bundle"), WsCommand::Bundle));
    assert!(matches!(parse_ws_command("/data"), WsCommand::Data));
    assert!(matches!(parse_ws_command("/json"), WsCommand::Json));
    assert!(matches!(parse_ws_command("hello"), WsCommand::NotACommand));
    assert!(matches!(parse_ws_command("   "), WsCommand::NotACommand));
    match parse_ws_command("/subscribe dtn://node1/in box") {
        WsCommand::Subscribe(Some(a)) => assert_eq!(a, "dtn://node1/in box"),
        other => panic!("unexpected {:?}", other),
    }
    assert!(matches!(parse_ws_command("/subscribe"), WsCommand::Subscribe(None)));
    assert!(matches!(parse_ws_command("/unsubscribe"), WsCommand::Unsubscribe(None)));
    match parse_ws_command(" /frobnicate now ") {
        WsCommand::Unknown(m) => assert_eq!(m, "/frobnicate now"),
        other => panic!("unexpected {:?}", other),
    }
}

#[test]
fn ws_session_modes_and_replies() {
    let mut s = WsSession::new();
    assert_eq!(s.mode, WsReceiveMode::Data(DataReceiveFormat::JSON));
    let step = s.handle_command(parse_ws_command("/foo bar"), "dtn://me/");
    assert_eq!(step.reply, Some("501 unknown command: \"/foo bar\"".to_string()));
    assert_eq!(s.mode, WsReceiveMode::Data(DataReceiveFormat::JSON));
    assert!(s.endpoints.is_none());
    s.handle_command(parse_ws_command("/bundle"), "dtn://me/");
    assert_eq!(s.mode, WsReceiveMode::Bundle);
    let step = s.handle_command(parse_ws_command("/json"), "dtn://me/");
    assert_eq!(step.reply, Some("200 tx mode: JSON".to_string()));
    assert_eq!(s.mode, WsReceiveMode::Data(DataReceiveFormat::JSON));
    let step = s.handle_command(parse_ws_command("/data"), "dtn://me/");
    assert_eq!(step.reply, Some("200 tx mode: data".to_string()));
    assert_eq!(s.mode, WsReceiveMode::Data(DataReceiveFormat::CBOR));
    let step = s.handle_command(parse_ws_command("/bundle"), "dtn://me/");
    assert_eq!(step.reply, Some("200 tx mode: bundle".to_string()));
    let step = s.handle_command(parse_ws_command("/node"), "dtn://me/");
    assert_eq!(step.reply, Some("200 node: dtn://me/".to_string()));
    let step = s.handle_command(parse_ws_command("/what \"x\""), "dtn://me/");
    assert_eq!(
        step.reply,
        Some("501 unknown command: \"/what \\\"x\\\"\"".to_string())
    );
    assert_eq!(sent_payload_reply(42), "200 Sent payload with 42 bytes");
}

#[test]
fn ws_session_subscriptions() {
    let mut s = WsSession::new();
    let step = s.handle_command(parse_ws_command("/subscribe"), "dtn://me/");
    assert_eq!(step.reply, Some("400 endpoint is missing".to_string()));
    let step = s.handle_command(parse_ws_command("/subscribe dtn://me/in"), "dtn://me/");
    assert_eq!(step.reply, None);
    match step.action {
        WsAction::CheckSubscription(e) => assert_eq!(e, EndpointID::with_dtn("me/in".to_string())),
        other => panic!("unexpected {:?}", other),
    }
    let step = s.handle_command(parse_ws_command("/subscribe in"), "dtn://me/");
    assert!(matches!(step.action, WsAction::CheckRelativeSubscription(ref n) if n == "in"));
    let step = s.handle_command(parse_ws_command("/unsubscribe dtn://me/in"), "dtn://me/");
    assert_eq!(step.reply, Some("404 endpoint not found".to_string()));
    assert_eq!(
        s.subscribe(EndpointID::with_dtn("me/in".to_string())),
        "200 subscribed"
    );
    assert_eq!(s.endpoints.as_ref().unwrap().len(), 1);
    let step = s.handle_command(parse_ws_command("/unsubscribe ???"), "dtn://me/");
    assert_eq!(step.reply, Some("400 invalid endpoint".to_string()));
    let step = s.handle_command(parse_ws_command("/unsubscribe dtn://me/in"), "dtn://me/");
    assert_eq!(step.reply, Some("200 unsubscribed".to_string()));
    assert!(matches!(step.action, WsAction::ClearDelivery(_)));
    assert!(s.endpoints.as_ref().unwrap().is_empty());
}

#[test]
fn ws_commands_ignore_surrounding_white_space() {
    for m in ["/json", "  /json", "/json \t", "\u{a0}/json\u{3000}"] {
        assert!(matches!(parse_ws_command(m), WsCommand::Json));
    }
}

#[test]
fn routing_agent_admission() {
    assert!(accepts_routing_agent("external", false));
    assert!(!accepts_routing_agent("external", true));
    assert!(!accepts_routing_agent("epidemic", false));
}

#[test]
fn web_guard() {
    let mut mapped = [0u8; 16];
    mapped[10] = 0xff;
    mapped[11] = 0xff;
    mapped[12] = 127;
    mapped[15] = 1;
    let mut v6_loopback = [0u8; 16];
    v6_loopback[15] = 1;
    assert!(fn_guard_localhost(true, None));
    assert!(!fn_guard_localhost(false, None));
    assert!(fn_guard_localhost(false, Some(IpAddress::V4([127, 0, 0, 1]))));
    assert!(fn_guard_localhost(false, Some(IpAddress::V4([127, 1, 2, 3]))));
    assert!(!fn_guard_localhost(false, Some(IpAddress::V4([10, 0, 0, 1]))));
    assert!(fn_guard_localhost(false, Some(IpAddress::V6(v6_loopback))));
    assert!(fn_guard_localhost(false, Some(IpAddress::V6(mapped))));
    mapped[12] = 10;
    assert!(!fn_guard_localhost(false, Some(IpAddress::V6(mapped))));
}

use dtn7::dtnd::rest::{endpoint, local_endpoint, unregister};
use dtn7::node::application_agent::DtnCore;

fn rest_bundle(payload: &[u8]) -> bp7::Bundle {
    bp7::bundle::new_std_payload_bundle(
        bp7::EndpointID::with_dtn("node2/src").unwrap(),
        bp7::EndpointID::with_dtn("node1/in").unwrap(),
        payload.to_vec(),
    )
}

#[test]
fn rest_local_endpoint_paths() {
    let (text, eid) = local_endpoint("node1", "in").unwrap();
    assert_eq!(text, "dtn://node1/in");
    assert_eq!(eid, Some(EndpointID::with_dtn("node1/in".to_string())));
    let (text, _) = local_endpoint("node1", "").unwrap();
    assert_eq!(text, "dtn://node1/");
    assert_eq!(
        local_endpoint("node1", "in/coming"),
        Err("Malformed endpoint path, only alphanumeric strings allowed!".to_string())
    );
    assert_eq!(
        local_endpoint("node1", "a b"),
        Err("Malformed endpoint path, only alphanumeric strings allowed!".to_string())
    );
    assert!(local_endpoint("node1", "über7").is_ok());
}

#[test]
fn rest_register_fetch_unregister() {
    let mut core: DtnCore<u32> = DtnCore::new();
    let (text, eid) = local_endpoint("node1", "in").unwrap();
    let eid = eid.unwrap();
    assert_eq!(
        endpoint(&mut core, &eid),
        Err("No such endpoint registered!".to_string())
    );
    assert_eq!(dtn7::dtnd::rest::register(&mut core, &text, eid.clone()), "Registered dtn://node1/in");
    assert_eq!(core.eids(), vec!["dtn://node1/in"]);
    assert_eq!(endpoint(&mut core, &eid), Err("Nothing to receive".to_string()));
    let (one, two) = (rest_bundle(b"one"), rest_bundle(b"two"));
    {
        let aa = core.get_endpoint_mut(&eid).unwrap();
        assert!(aa.push(one.clone()).is_none());
        assert!(aa.push(two.clone()).is_none());
    }
    assert_eq!(endpoint(&mut core, &eid), Ok(one));
    assert_eq!(endpoint(&mut core, &eid), Ok(two));
    assert_eq!(endpoint(&mut core, &eid), Err("Nothing to receive".to_string()));
    assert_eq!(unregister(&mut core, &text, &eid), "Unregistered dtn://node1/in");
    assert!(core.eids().is_empty());
    assert_eq!(unregister(&mut core, &text, &eid), "Unregistered dtn://node1/in");
    assert!(core.get_endpoint_mut(&eid).is_none());
}

use dtn7::dtnd::ws::{BinaryAction, WsSendRequest};

fn send_request(src: &str, dst: &str, notify: bool) -> WsSendRequest {
    WsSendRequest {
        src: src.to_string(),
        dst: dst.to_string(),
        delivery_notification: notify,
        lifetime: 3_600_000,
        data: vec![1, 2, 3],
    }
}

#[test]
fn ws_binary_bundle_frames() {
    let mut session = WsSession::new();
    session.handle_command(WsCommand::Bundle, "dtn://node1/");
    let mut bundle = bp7::bundle::new_std_payload_bundle(
        bp7::EndpointID::with_dtn("node1/src").unwrap(),
        bp7::EndpointID::with_dtn("node2/dst").unwrap(),
        b"hello".to_vec(),
    );
    let bin = bundle.to_cbor();
    let step = session.handle_binary(&bin, None);
    assert_eq!(step.reply, Some(format!("200 Sent payload with {} bytes", bin.len())));
    match step.action {
        BinaryAction::SendBundle(b) => assert_eq!(b.id(), bundle.id()),
        other => panic!("unexpected action {:?}", other),
    }
    let step = session.handle_binary(&[1, 2, 3], None);
    assert_eq!(step.reply, Some("400 Invalid binary bundle".to_string()));
    assert!(matches!(step.action, BinaryAction::Nothing));
}

#[test]
fn ws_binary_data_frames() {
    let mut session = WsSession::new();
    session.handle_command(WsCommand::Json, "dtn://node1/");
    let step = session.handle_binary(&[], Some(send_request("dtn://node1/a", "dtn://node2/b", true)));
    assert_eq!(step.reply, Some("200 Sent payload with 3 bytes".to_string()));
    match step.action {
        BinaryAction::SendData(d) => {
            assert_eq!(d.flags, 0x020004);
            assert_eq!(d.src, EndpointID::with_dtn("node1/a".to_string()));
            assert_eq!(d.dst, EndpointID::with_dtn("node2/b".to_string()));
            assert_eq!(d.lifetime, 3_600_000);
            assert_eq!(d.data, vec![1, 2, 3]);
        }
        other => panic!("unexpected action {:?}", other),
    }
    let step = session.handle_binary(&[], Some(send_request("dtn://node1/a", "dtn://node2/b", false)));
    match step.action {
        BinaryAction::SendData(d) => assert_eq!(d.flags, 0x000004),
        other => panic!("unexpected action {:?}", other),
    }
    let step = session.handle_binary(&[], Some(send_request("not an endpoint", "dtn://node2/b", true)));
    assert_eq!(step.reply, None);
    assert!(matches!(step.action, BinaryAction::Nothing));
    let step = session.handle_binary(&[9, 9], None);
    assert_eq!(step.reply, Some("400 Unexpected binary".to_string()));
    assert!(matches!(step.action, BinaryAction::Nothing));
}

use dtn7::dtnd::ws::{WsControlAction, WsControlFrame};

#[test]
fn ws_control_frames() {
    let s = WsSession::new();
    assert!(matches!(s.handle_control(WsControlFrame::Ping(vec![1, 2])), WsControlAction::Answer(p) if p == vec![1, 2]));
    assert!(matches!(s.handle_control(WsControlFrame::Pong), WsControlAction::Alive));
    assert!(matches!(s.handle_control(WsControlFrame::Close), WsControlAction::End));
}

use dtn7::bp::eid::{IpnAddress as EidIpn, ENDPOINT_URI_SCHEME_IPN};
use dtn7::dtnd::ws::{relative_endpoint, session_endpoint};
use dtn7::node::application_agent::SimpleApplicationAgent;

#[test]
fn ws_endpoints_read_as_bp7_reads_them() {
    assert_eq!(session_endpoint("dtn://n1/x".to_string()), Some(EndpointID::with_dtn("n1/x".to_string())));
    assert_eq!(session_endpoint("dtn:none".to_string()), Some(EndpointID::new()));
    assert_eq!(
        session_endpoint("ipn:23.42".to_string()),
        Some(EndpointID::Ipn(ENDPOINT_URI_SCHEME_IPN, EidIpn(23, 42)))
    );
    assert_eq!(session_endpoint("dtn:n1/x".to_string()), None);
    assert_eq!(session_endpoint("foo:bar".to_string()), None);
    assert_eq!(session_endpoint("ipn:0.42".to_string()), None);
    let mut s = WsSession::new();
    s.subscribe(EndpointID::with_dtn("me/in".to_string()));
    let step = s.handle_command(parse_ws_command("/unsubscribe foo:bar"), "dtn://me/");
    assert_eq!(step.reply, Some("400 invalid endpoint".to_string()));
    let step = s.handle_command(parse_ws_command("/subscribe dtn:n1/x"), "dtn://me/");
    assert!(matches!(step.action, WsAction::CheckRelativeSubscription(ref n) if n == "dtn:n1/x"));
}

#[test]
fn ws_relative_subscriptions() {
    let host = EndpointID::with_dtn("me".to_string());
    assert_eq!(relative_endpoint(&host, "in"), Some(EndpointID::with_dtn("me/in".to_string())));
    assert_eq!(relative_endpoint(&EndpointID::new(), "in"), None);
    let ipn_host = EndpointID::Ipn(ENDPOINT_URI_SCHEME_IPN, EidIpn(23, 0));
    assert_eq!(
        relative_endpoint(&ipn_host, " 42 "),
        Some(EndpointID::Ipn(ENDPOINT_URI_SCHEME_IPN, EidIpn(23, 42)))
    );
    assert_eq!(relative_endpoint(&ipn_host, "x"), None);
    let mut core: DtnCore<u32> = DtnCore::new();
    core.register_application_agent(SimpleApplicationAgent::with(EndpointID::with_dtn("me/in".to_string())));
    let mut s = WsSession::new();
    assert_eq!(s.subscribe_relative(&mut core, &host, "out", 5), "404 unknown endpoint");
    assert!(s.endpoints.is_none());
    assert_eq!(s.subscribe_relative(&mut core, &EndpointID::new(), "in", 5), "400 invalid endpoint combination");
    assert_eq!(s.subscribe_relative(&mut core, &host, "in", 5), "200 subscribed");
    assert_eq!(s.endpoints.as_ref().unwrap().len(), 1);
    assert_eq!(core.get_endpoint(&EndpointID::with_dtn("me/in".to_string())).unwrap().delivery_addr(), Some(&5));
    let mut t = WsSession::new();
    assert_eq!(
        t.subscribe_checked(&mut core, EndpointID::with_dtn("me/in".to_string()), 6),
        "200 subscribed"
    );
    assert_eq!(t.subscribe_checked(&mut core, EndpointID::with_dtn("me/zz".to_string()), 6), "404 unknown endpoint");
}

use dtn7::dtnd::ws::{heartbeat_tick, WsHeartbeat, CLIENT_TIMEOUT_MS, HEARTBEAT_INTERVAL_MS};

#[test]
fn ws_heartbeat() {
    assert_eq!(HEARTBEAT_INTERVAL_MS, 5000);
    assert!(matches!(heartbeat_tick(1000, 1000 + CLIENT_TIMEOUT_MS), WsHeartbeat::Ping(ref p) if p == b"dtn7"));
    assert!(matches!(heartbeat_tick(1000, 1001 + CLIENT_TIMEOUT_MS), WsHeartbeat::End));
    assert!(matches!(heartbeat_tick(5000, 1000), WsHeartbeat::Ping(_)));
}

use dtn7::dtnd::ws::DeliveryForm;

#[test]
fn ws_delivery_forms() {
    let mut s = WsSession::new();
    assert_eq!(s.delivery_form(true), DeliveryForm::Data(DataReceiveFormat::JSON));
    assert_eq!(s.delivery_form(false), DeliveryForm::Skip);
    s.handle_command(WsCommand::Bundle, "dtn://me/");
    assert_eq!(s.delivery_form(false), DeliveryForm::WholeBundle);
    s.handle_command(WsCommand::Data, "dtn://me/");
    assert_eq!(s.delivery_form(true), DeliveryForm::Data(DataReceiveFormat::CBOR));
}
