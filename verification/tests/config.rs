use dtn7::bp::eid::EndpointID;
use dtn7::bp::eid::{IpnAddress, ENDPOINT_URI_SCHEME_IPN};
use dtn7::config::{cla_argument_accepted, host_eid_for, interval_ms, ConfigSettings, DtnConfig};

fn no_settings() -> ConfigSettings {
    ConfigSettings {
        debug: None,
        ipv4: None,
        ipv6: None,
        nodeid: None,
        routing: None,
        webport: None,
        janitor_interval: None,
        announcement_interval: None,
        peer_timeout: None,
        statics: Vec::new(),
        endpoints: Vec::new(),
        clas: Vec::new(),
    }
}

#[test]
fn defaults() {
    let c = DtnConfig::new("node1".to_string());
    assert_eq!(c.nodeid, "node1");
    assert_eq!(c.host_eid, EndpointID::with_dtn("node1".to_string()));
    assert!(!c.debug && c.v4 && !c.v6);
    assert_eq!(c.webport, 3000);
    assert_eq!(c.announcement_interval, 2000);
    assert_eq!(c.janitor_interval, 10000);
    assert_eq!(c.peer_timeout, 20000);
    assert_eq!(c.routing, "epidemic");
    assert!(DtnConfig::try_new("bad name with spaces".to_string()).is_none());
}

#[test]
fn settings_replace_defaults() {
    let c = DtnConfig::new("node1".to_string());
    let mut s = no_settings();
    s.debug = Some(true);
    s.ipv6 = Some(true);
    s.routing = Some("flooding".to_string());
    s.webport = Some(70000);
    s.janitor_interval = Some("no duration".to_string());
    s.announcement_interval = Some("1m 30s".to_string());
    s.peer_timeout = Some("1500ms".to_string());
    s.endpoints = vec!["incoming".to_string()];
    s.clas = vec![
        ("mtcp".to_string(), Some(16162)),
        ("carrier-pigeon".to_string(), Some(1)),
        ("http".to_string(), None),
    ];
    let c = c.apply_settings(s);
    assert!(c.debug && c.v4 && c.v6);
    assert_eq!(c.routing, "flooding");
    assert_eq!(c.webport, (70000i64 as u16));
    assert_eq!(c.janitor_interval, 0);
    assert_eq!(c.announcement_interval, 90_000);
    assert_eq!(c.peer_timeout, 1500);
    assert_eq!(c.endpoints, vec!["incoming".to_string()]);
    assert_eq!(c.clas, vec!["mtcp:16162".to_string(), "http:0".to_string()]);
}

#[test]
fn no_settings_change_nothing() {
    let c = DtnConfig::new("node7".to_string()).apply_settings(no_settings());
    assert_eq!(c.nodeid, "node7");
    assert_eq!(c.webport, 3000);
    assert!(c.clas.is_empty());
}

#[test]
fn taking_over_a_configuration() {
    let mut c = DtnConfig::new("node1".to_string());
    let mut other = DtnConfig::new("node2".to_string());
    other.webport = 8080;
    assert!(c.try_set(other));
    assert_eq!(c.nodeid, "node2");
    assert_eq!(c.host_eid, EndpointID::with_dtn("node2".to_string()));
    assert_eq!(c.webport, 8080);
    let mut bad = DtnConfig::new("node3".to_string());
    bad.nodeid = "no such node".to_string();
    assert!(!c.try_set(bad));
    assert_eq!(c.nodeid, "node2");
}

#[test]
fn node_ids_from_the_command_line() {
    // `dtnd -n node1` names a dtn node, `dtnd -n 23` an ipn node.
    assert_eq!(host_eid_for("node1"), Some(EndpointID::with_dtn("node1".to_string())));
    assert_eq!(
        host_eid_for("23"),
        Some(EndpointID::Ipn(ENDPOINT_URI_SCHEME_IPN, IpnAddress(23, 0)))
    );
    assert_eq!(host_eid_for("two words"), None);
}

#[test]
fn agents_from_the_command_line() {
    assert!(cla_argument_accepted("mtcp"));
    assert!(cla_argument_accepted("mtcp:16162"));
    assert!(cla_argument_accepted("tcp:4556:x"));
    assert!(!cla_argument_accepted("lora:1"));
    assert!(!cla_argument_accepted(":mtcp"));
}

#[test]
fn interval_texts() {
    assert_eq!(interval_ms("10s"), 10_000);
    assert_eq!(interval_ms("2m"), 120_000);
    assert_eq!(interval_ms("250ms"), 250);
    assert_eq!(interval_ms("1us"), 0);
    assert_eq!(interval_ms(""), 0);
    assert_eq!(interval_ms("ten seconds"), 0);
}
