use dtn7::cla::mtcp::MtcpConvergenceLayer;
use dtn7::cla::dummy::DummyConvergenceLayer;
use dtn7::cla::dummy_cl::DummyConversionLayer;
use dtn7::cla::external::ExternalConvergenceLayer;
use dtn7::cla::http::HttpConvergenceLayer;
use dtn7::cla::tcp::{Session, SessionStep, State, TcpConvergenceLayer};
use dtn7::cla::tcpcl::{TcpClError, TcpClPacket, XferAckData, XferSegmentFlags};
use dtn7::cla::{ConvergenceLayerAgent, ConvergenceLayerAgents};
use dtn7::client::DtnClient;

#[test]
fn agent_names_and_ports() {
    let d = DummyConvergenceLayer::new();
    assert_eq!(d.counter, 0);
    assert_eq!(d.port(), 0);
    assert_eq!(d.name(), "dummy");
    assert!(d.scheduled_submission("anywhere", &[vec![1, 2]]));
    assert_eq!(DummyConversionLayer::new().counter, 0);
    let e = ExternalConvergenceLayer::new("lora".to_string());
    assert_eq!(e.name(), "lora");
    assert_eq!(e.port(), 0);
    let h = HttpConvergenceLayer::new(None, 3000);
    assert_eq!(h.port(), 3000);
    assert_eq!(h.name(), "http");
    assert_eq!(HttpConvergenceLayer::new(Some(8080), 3000).port(), 8080);
    let t = TcpConvergenceLayer::new(None);
    assert_eq!(t.port(), 4556);
    assert_eq!(t.name(), "tcp");
    assert_eq!(t.remote_config.keepalive, 30);
    assert_eq!(t.remote_config.segment_mru, 64000);
    assert_eq!(t.remote_config.transfer_mru, 64000);
    assert_eq!(t.remote_config.node_id, "");
    assert_eq!(TcpConvergenceLayer::new(Some(1)).port(), 1);
}

#[test]
fn agent_kinds_by_name() {
    assert_eq!(
        ConvergenceLayerAgents::from_str("mtcp"),
        Ok(ConvergenceLayerAgents::MtcpConvergenceLayer)
    );
    assert_eq!(
        ConvergenceLayerAgents::from_str("dummy"),
        Ok(ConvergenceLayerAgents::DummyConvergenceLayer)
    );
    assert_eq!(
        ConvergenceLayerAgents::from_str("http"),
        Ok(ConvergenceLayerAgents::HttpConvergenceLayer)
    );
    assert_eq!(ConvergenceLayerAgents::from("tcp"), ConvergenceLayerAgents::TcpConvergenceLayer);
    assert_eq!(
        ConvergenceLayerAgents::from_str("udp"),
        Err("Unknown convergence layer agent agent udp".to_string())
    );
    assert_eq!(ConvergenceLayerAgents::TcpConvergenceLayer.name(), "tcp");
    assert_eq!(
        ConvergenceLayerAgents::enumerate_help_str(),
        "dummy, mtcp, http, tcp, "
    );
}

#[test]
fn client_addresses() {
    let c = DtnClient::new();
    assert_eq!(c.localhost, "127.0.0.1");
    assert_eq!(c.port, 3000);
    assert_eq!(c.local_node_id_url(), "http://127.0.0.1:3000/status/nodeid");
    assert_eq!(c.creation_timestamp_url(), "http://127.0.0.1:3000/cts");
    let d = DtnClient::with_host_and_port("10.0.0.1".to_string(), 8080);
    assert_eq!(
        d.register_application_endpoint_url("incoming"),
        "http://10.0.0.1:8080/register?incoming"
    );
    assert_eq!(
        d.unregister_application_endpoint_url("incoming"),
        "http://10.0.0.1:8080/unregister?incoming"
    );
}

#[test]
fn session_steps() {
    let mut s = Session::new();
    assert_eq!(s.state, State::Idle);
    assert_eq!(s.step(&Err(TcpClError::NotEnoughBytesReceived)), SessionStep::ReadMore);
    assert_eq!(s.step(&Err(TcpClError::UnknownPacketType(9))), SessionStep::Disconnect);
    assert_eq!(s.step(&Ok(TcpClPacket::KeepAlive)), SessionStep::Continue);
    let mut sending = Session {
        state: State::Sending,
        active_tid: Some(4),
        ack_sizes: vec![100],
        all_sent: false,
    };
    let ack = XferAckData { flags: XferSegmentFlags::empty(), tid: 4, len: 100 };
    assert_eq!(sending.step(&Ok(TcpClPacket::XferAck(ack))), SessionStep::Continue);
    assert_eq!(sending.ack_sizes, vec![100]);
}

#[test]
fn agent_kinds_parse() {
    assert_eq!(
        "http".parse::<ConvergenceLayerAgents>(),
        Ok(ConvergenceLayerAgents::HttpConvergenceLayer)
    );
    assert!("lora".parse::<ConvergenceLayerAgents>().is_err());
    for a in [
        ConvergenceLayerAgents::DummyConvergenceLayer,
        ConvergenceLayerAgents::MtcpConvergenceLayer,
        ConvergenceLayerAgents::HttpConvergenceLayer,
        ConvergenceLayerAgents::TcpConvergenceLayer,
    ] {
        assert_eq!(ConvergenceLayerAgents::from_str(a.name()), Ok(a));
    }
}

#[test]
fn agent_texts() {
    assert_eq!(MtcpConvergenceLayer::new(None).port(), 16162);
    assert_eq!(MtcpConvergenceLayer::new(Some(1234)).port(), 1234);
    assert_eq!(MtcpConvergenceLayer::new(None).to_string(), "mtcp:16162");
    assert_eq!(MtcpConvergenceLayer::new(None).name(), "mtcp");
    assert_eq!(HttpConvergenceLayer::new(Some(8080), 3000).to_string(), "http:8080");
    assert_eq!(TcpConvergenceLayer::new(None).to_string(), "tcp");
    assert_eq!(DummyConvergenceLayer::new().to_string(), "dummy");
    assert_eq!(DummyConversionLayer::new().to_string(), "DummyConversionLayer");
    assert_eq!(ExternalConvergenceLayer::new("lora".to_string()).to_string(), "external");
}
