use dtn7::ipnd::services::{ServiceBlock, ADDRESS, BATTERY, CUSTOM_STRING, GEO_LOCATION};

#[test]
fn new_block_is_empty() {
    let sb = ServiceBlock::new();
    assert!(sb.is_empty());
    assert!(sb.clas().is_empty());
    assert!(sb.services().is_empty());
    assert!(ServiceBlock::default().is_empty());
}

#[test]
fn adding_clas_and_services() {
    let mut sb = ServiceBlock::new();
    sb.add_cla("mtcp", &Some(16162));
    sb.add_cla("http", &None);
    assert!(!sb.is_empty());
    assert_eq!(
        sb.clas(),
        &vec![("mtcp".to_string(), Some(16162)), ("http".to_string(), None)]
    );
    sb.add_custom_service(CUSTOM_STRING, b"hello");
    sb.add_custom_service(CUSTOM_STRING, b"again");
    assert_eq!(sb.services().len(), 1);
    assert_eq!(sb.services().get(&CUSTOM_STRING), Some(&b"again".to_vec()));
}

#[test]
fn setting_clas_and_services() {
    let mut sb = ServiceBlock::new();
    sb.set_clas(vec![("tcp".to_string(), Some(4556))]);
    let mut services = std::collections::HashMap::new();
    services.insert(BATTERY, vec![50u8]);
    sb.set_services(services.clone());
    assert_eq!(sb.clas(), &vec![("tcp".to_string(), Some(4556))]);
    assert_eq!(sb.services(), &services);
}

#[test]
fn build_custom_string() {
    assert_eq!(
        ServiceBlock::build_custom_service(CUSTOM_STRING, "hi there", &[]),
        Ok((CUSTOM_STRING, b"hi there".to_vec()))
    );
    let long = "x".repeat(65);
    assert_eq!(
        ServiceBlock::build_custom_service(CUSTOM_STRING, &long, &[]),
        Err("The provided custom message is to big. Aim for less than 64 characters".to_string())
    );
    let exact = "y".repeat(64);
    assert!(ServiceBlock::build_custom_service(CUSTOM_STRING, &exact, &[]).is_ok());
}

#[test]
fn build_geo_location() {
    let location = [1u8, 2, 3, 4, 5, 6, 7, 8];
    assert_eq!(
        ServiceBlock::build_custom_service(GEO_LOCATION, "52.5 13.4", &location),
        Ok((GEO_LOCATION, location.to_vec()))
    );
    assert_eq!(
        ServiceBlock::build_custom_service(GEO_LOCATION, "  52.5  ", &[]),
        Err("Not enough arguments provided to represent geographical location".to_string())
    );
}

#[test]
fn build_battery() {
    assert_eq!(
        ServiceBlock::build_custom_service(BATTERY, "75", &[]),
        Ok((BATTERY, vec![75]))
    );
    assert_eq!(
        ServiceBlock::build_custom_service(BATTERY, "0", &[]),
        Ok((BATTERY, vec![0]))
    );
    assert_eq!(
        ServiceBlock::build_custom_service(BATTERY, "101", &[]),
        Err("Provided number can not be used to represent battery level. Please provide a number between 0 and 100".to_string())
    );
    assert_eq!(
        ServiceBlock::build_custom_service(BATTERY, "-3", &[]),
        Err("Provided number can not be used to represent battery level. Please provide a number between 0 and 100".to_string())
    );
    assert_eq!(
        ServiceBlock::build_custom_service(BATTERY, "full", &[]),
        Err("Could not parse provided argument into an integer. invalid digit found in string".to_string())
    );
    assert_eq!(
        ServiceBlock::build_custom_service(BATTERY, "300", &[]),
        Err("Could not parse provided argument into an integer. number too large to fit in target type".to_string())
    );
}

#[test]
fn build_address() {
    let addr = "Mainstreet 1 12345 Town DE";
    assert_eq!(
        ServiceBlock::build_custom_service(ADDRESS, addr, &[]),
        Ok((ADDRESS, addr.as_bytes().to_vec()))
    );
    assert_eq!(
        ServiceBlock::build_custom_service(ADDRESS, "Mainstreet\t1\u{a0}12345\nTown  DE", &[]),
        Ok((ADDRESS, "Mainstreet\t1\u{a0}12345\nTown  DE".as_bytes().to_vec()))
    );
    assert_eq!(
        ServiceBlock::build_custom_service(ADDRESS, "Mainstreet 1 Town DE", &[]),
        Err("Can not derive address from provided arguments. Argument order is: Street HouseNumber PostalNumber City CountryCode".to_string())
    );
}

#[test]
fn build_unknown_tag() {
    assert_eq!(
        ServiceBlock::build_custom_service(5, "x", &[]),
        Err("This custom tag is not yet defined. Please refrain from using it until added.".to_string())
    );
}

#[test]
fn convert_known_services() {
    let mut sb = ServiceBlock::new();
    sb.add_custom_service(CUSTOM_STRING, "grüße".as_bytes());
    sb.add_custom_service(BATTERY, &[0xfd]);
    sb.add_custom_service(ADDRESS, b"a 1 2 b c");
    sb.add_custom_service(GEO_LOCATION, &[0; 8]);
    sb.add_custom_service(7, b"ignored");
    let c = sb.convert_services("0 0");
    assert_eq!(c.len(), 4);
    assert_eq!(c.get(&CUSTOM_STRING), Some(&"grüße".to_string()));
    assert_eq!(c.get(&BATTERY), Some(&"-3".to_string()));
    assert_eq!(c.get(&ADDRESS), Some(&"a 1 2 b c".to_string()));
    assert_eq!(c.get(&GEO_LOCATION), Some(&"0 0".to_string()));
    assert_eq!(c.get(&7), None);
}

#[test]
fn convert_battery_levels() {
    let mut sb = ServiceBlock::new();
    sb.add_custom_service(BATTERY, &[100]);
    assert_eq!(sb.convert_services("").get(&BATTERY), Some(&"100".to_string()));
    sb.add_custom_service(BATTERY, &[0x80]);
    assert_eq!(sb.convert_services("").get(&BATTERY), Some(&"-128".to_string()));
}

use dtn7::bp::eid::EndpointID;
use dtn7::ipnd::beacon::{
    beacon_tail, Beacon, BeaconTail, BEACON_PERIOD_PRESENT, IPND_VERSION, SERVICE_BLOCK_PRESENT,
    SOURCE_EID_PRESENT,
};

#[test]
fn plain_beacon() {
    let b = Beacon::new(EndpointID::with_dtn("node1".to_string()));
    assert_eq!(b.version(), "0x7");
    assert_eq!(b.flags(), "0b00000001");
    assert_eq!(b.beacon_sequence_number(), 0);
    assert!(b.service_block().is_empty());
    assert_eq!(b.beacon_period(), None);
    assert_eq!(b.eid(), &EndpointID::with_dtn("node1".to_string()));
    assert_eq!(IPND_VERSION, 7);
}

#[test]
fn configured_beacon_flags() {
    let eid = EndpointID::with_dtn("node1".to_string());
    let b = Beacon::with_config(eid.clone(), ServiceBlock::new(), None);
    assert_eq!(b.flags(), "0b00000001");
    let mut sb = ServiceBlock::new();
    sb.add_cla("mtcp", &Some(16162));
    let b = Beacon::with_config(eid.clone(), sb, Some(std::time::Duration::from_secs(2)));
    assert_eq!(b.flags(), "0b00000111");
    assert_eq!(b.field_count(), 6);
    let b = Beacon::with_config(eid, ServiceBlock::new(), Some(std::time::Duration::from_secs(2)));
    assert_eq!(b.flags(), "0b00000101");
    assert_eq!(b.field_count(), 5);
    assert_eq!(Beacon::new(EndpointID::with_dtn("n".to_string())).field_count(), 4);
    assert_eq!(SOURCE_EID_PRESENT | SERVICE_BLOCK_PRESENT | BEACON_PERIOD_PRESENT, 7);
}

#[test]
fn beacon_services() {
    let mut b = Beacon::new(EndpointID::with_dtn("node1".to_string()));
    b.set_beacon_sequence_number(9);
    assert_eq!(b.beacon_sequence_number(), 9);
    b.add_cla("http", &None);
    assert_eq!(b.flags(), "0b00000011");
    assert_eq!(b.service_block().clas(), &vec![("http".to_string(), None)]);
    assert_eq!(
        b.try_add_custom_service(BATTERY, "200".to_string(), &[]),
        Err("Could not parse provided argument into an integer. number too large to fit in target type".to_string())
    );
    assert!(b.service_block().services().is_empty());
    assert_eq!(b.try_add_custom_service(BATTERY, "80".to_string(), &[]), Ok(()));
    b.add_custom_service(CUSTOM_STRING, "hello".to_string(), &[]);
    assert_eq!(b.service_block().services().get(&BATTERY), Some(&vec![80u8]));
    assert_eq!(b.service_block().services().get(&CUSTOM_STRING), Some(&b"hello".to_vec()));
}

#[test]
fn beacon_tails() {
    assert_eq!(beacon_tail(1, 0), BeaconTail::Nothing);
    assert_eq!(beacon_tail(3, 1), BeaconTail::ServiceBlock);
    assert_eq!(beacon_tail(5, 1), BeaconTail::Period);
    assert_eq!(beacon_tail(7, 2), BeaconTail::Both);
}

#[test]
fn built_services_show_what_they_were_built_from() {
    for (tag, text, shown) in [
        (CUSTOM_STRING, "hello world", "hello world"),
        (ADDRESS, "Main 1 12345 Town DE", "Main 1 12345 Town DE"),
        (BATTERY, "+42", "42"),
        (BATTERY, "100", "100"),
    ] {
        let (t, bytes) = ServiceBlock::build_custom_service(tag, text, &[]).unwrap();
        assert_eq!(t, tag);
        let mut sb = ServiceBlock::new();
        sb.add_custom_service(t, &bytes);
        assert_eq!(sb.convert_services("").get(&tag), Some(&shown.to_string()));
    }
}

#[test]
fn display_agents_and_one_service() {
    let mut sb = ServiceBlock::new();
    assert_eq!(sb.display_text("", ""), "ConvergencyLayerAgents:\nOther services:");
    sb.add_cla("tcp", &Some(4556));
    sb.add_cla("http", &None);
    sb.add_custom_service(BATTERY, &[80]);
    assert_eq!(
        sb.display_text("", ""),
        "ConvergencyLayerAgents:\n0. CLA: Name = tcp Port = 4556\n1. CLA: Name = http\nOther services:\n0. Tag = 191 Battery service. Battery level at 80%"
    );
}

#[test]
fn display_each_known_service() {
    let mut sb = ServiceBlock::new();
    sb.add_custom_service(ADDRESS, b"Main  5 12345\tTown DE");
    assert_eq!(
        sb.display_text("", ""),
        "ConvergencyLayerAgents:\nOther services:\n0. Tag = 255 Address service. Street Main; House Number 5; Postal Number 12345; City Town; Country Code DE"
    );
    let mut sb = ServiceBlock::new();
    sb.add_custom_service(CUSTOM_STRING, b"hello there");
    assert_eq!(
        sb.display_text("", ""),
        "ConvergencyLayerAgents:\nOther services:\n0. Tag = 63 Custom String Message: hello there"
    );
    let mut sb = ServiceBlock::new();
    sb.add_custom_service(GEO_LOCATION, &[0, 0, 0, 0, 0, 0, 0, 0]);
    assert_eq!(
        sb.display_text("52.5", "13.4"),
        "ConvergencyLayerAgents:\nOther services:\n0. Tag = 127 Geographic location service. Current location at: Latitude 52.5 Longitude 13.4"
    );
    let mut sb = ServiceBlock::new();
    sb.add_custom_service(BATTERY, &[0xf6]);
    assert_eq!(
        sb.display_text("", ""),
        "ConvergencyLayerAgents:\nOther services:\n0. Tag = 191 Battery service. Battery level at -10%"
    );
}

#[test]
fn display_numbers_services_in_map_order() {
    let mut sb = ServiceBlock::new();
    sb.add_custom_service(BATTERY, &[50]);
    sb.add_custom_service(CUSTOM_STRING, b"hi");
    let text = sb.display_text("", "");
    let battery_first = "ConvergencyLayerAgents:\nOther services:\n0. Tag = 191 Battery service. Battery level at 50%\n1. Tag = 63 Custom String Message: hi";
    let text_first = "ConvergencyLayerAgents:\nOther services:\n0. Tag = 63 Custom String Message: hi\n1. Tag = 191 Battery service. Battery level at 50%";
    assert!(text == battery_first || text == text_first);
    let mut sb = ServiceBlock::new();
    sb.add_custom_service(7, b"unknown");
    assert_eq!(sb.display_text("", ""), "ConvergencyLayerAgents:\nOther services:");
}

#[test]
fn display_beacons() {
    let b = Beacon::new(EndpointID::with_dtn("node1".to_string()));
    assert_eq!(
        b.display_text("", "", "unused"),
        "Version: 0x7\tFlags: 0000000001\tBeaconSequenceNumber: 0\nEID: dtn://node1\nServiceBlock:\nConvergencyLayerAgents:\nOther services:\nBeaconPeriod: None"
    );
    let mut sb = ServiceBlock::new();
    sb.add_cla("tcp", &Some(4556));
    let period = std::time::Duration::from_secs(10);
    let mut b = Beacon::with_config(EndpointID::with_dtn("node2/x".to_string()), sb, Some(period));
    b.set_beacon_sequence_number(12);
    assert_eq!(
        b.display_text("", "", &format!("{:#?}", period)),
        "Version: 0x7\tFlags: 0000000111\tBeaconSequenceNumber: 12\nEID: dtn://node2/x\nServiceBlock:\nConvergencyLayerAgents:\n0. CLA: Name = tcp Port = 4556\nOther services:\nBeaconPeriod: 10s"
    );
}
