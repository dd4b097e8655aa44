use tifflin_modules::usb_core::{AddressPool, EndpointKind, InterfaceBinding, bind_interface, descriptor_request, interface_endpoints, is_hub_class, set_address_request, split_configuration};
use tifflin_modules::usb_core::device::{MatchLevel, find_driver};
use tifflin_modules::usb_core::host::EndpointAddr;
use tifflin_modules::usb_core::hub::{HubDescriptor, PortFeature, changed_ports, port_status_change, port_status_has, status_from_bytes};
use tifflin_modules::usb_core::hw_decls::{DescriptorAny, DeviceRequest, IterDescriptors};
use tifflin_modules::usb_core::port::{PortInit, PortInitAction, PortInitEvent, PortInitState};

#[test]
fn endpoint_addr_packs_device_and_endpoint() {
    let a = EndpointAddr::new(0x45, 3);
    assert_eq!(a.dev_addr(), 0x45);
    assert_eq!(a.endpt(), 3);
    let z = EndpointAddr::new(127, 15);
    assert_eq!(z.dev_addr(), 127);
    assert_eq!(z.endpt(), 15);
}

#[test]
fn address_pool_hands_out_increasing_addresses() {
    let mut p = AddressPool::new();
    assert_eq!(p.allocate(), Some(1));
    assert_eq!(p.allocate(), Some(2));
    assert_eq!(p.next_id, 3);
}

#[test]
fn find_driver_prefers_best_then_first() {
    assert_eq!(find_driver(&[]), None);
    assert_eq!(find_driver(&[MatchLevel::Unmatched, MatchLevel::Unmatched]), None);
    assert_eq!(find_driver(&[MatchLevel::Generic, MatchLevel::Precise, MatchLevel::Precise]), Some(1));
    assert_eq!(find_driver(&[MatchLevel::Unmatched, MatchLevel::Generic]), Some(1));
}

#[test]
fn hub_interfaces_bind_to_the_core() {
    assert!(is_hub_class(0x090000));
    assert!(!is_hub_class(0x030101));
    assert_eq!(bind_interface(0x090000, &[MatchLevel::Precise]), InterfaceBinding::Hub);
    assert_eq!(bind_interface(0x030101, &[MatchLevel::Unmatched, MatchLevel::Generic]), InterfaceBinding::Driver(1));
    assert_eq!(bind_interface(0x080650, &[MatchLevel::Unmatched]), InterfaceBinding::Unknown);
}

#[test]
fn setup_packets_are_little_endian() {
    let r = set_address_request(5);
    assert_eq!(r.to_bytes(), [0, 5, 5, 0, 0, 0, 0, 0]);
    let d = descriptor_request(2, 0, 9);
    assert_eq!(d.to_bytes(), [0x80, 6, 0, 2, 0, 0, 9, 0]);
    let x = DeviceRequest { req_type: 0xA3, req_num: 0, value: 0x1234, index: 0x0201, length: 4 };
    assert_eq!(x.to_bytes(), [0xA3, 0, 0x34, 0x12, 0x01, 0x02, 4, 0]);
}

#[test]
fn descriptors_iterate_by_length_byte() {
    let data = [2u8, 1, 3, 2, 9, 5, 0];
    let mut it = IterDescriptors(&data);
    assert_eq!(it.next(), Some(&data[0..2]));
    assert_eq!(it.next(), Some(&data[2..5]));
    // the last descriptor claims more bytes than remain
    assert_eq!(it.next(), None);
}

fn config_block() -> Vec<u8> {
    vec![
        // interface 0: class 3/1/1, one endpoint
        9, 4, 0, 0, 1, 3, 1, 1, 0,
        // HID class descriptor
        9, 0x21, 0x11, 1, 0, 1, 0x22, 0x3F, 0,
        // endpoint 1 IN, interrupt, 8 bytes, every 10 ms
        7, 5, 0x81, 3, 8, 0, 10,
        // interface 1: class 8/6/0x50, two endpoints
        9, 4, 1, 0, 2, 8, 6, 0x50, 0,
        // endpoint 2 OUT bulk, 512 bytes
        7, 5, 0x02, 2, 0, 2, 0,
        // endpoint 3 IN bulk, 512 bytes
        7, 5, 0x83, 2, 0, 2, 0,
    ]
}

#[test]
fn configuration_splits_into_interfaces() {
    let data = config_block();
    let ints = split_configuration(&data);
    assert_eq!(ints.len(), 2);
    assert_eq!(ints[0].0.interface_class, 3);
    assert_eq!((ints[0].1, ints[0].2), (9, 25));
    assert_eq!(ints[1].0.interface_class, 8);
    assert_eq!((ints[1].1, ints[1].2), (34, 48));
}

#[test]
fn interface_endpoints_are_decoded() {
    let data = config_block();
    let eps = interface_endpoints(&data[9..25]);
    assert_eq!(eps.len(), 1);
    assert_eq!(eps[0].kind, EndpointKind::Interrupt);
    assert_eq!(eps[0].ep_num, 1);
    assert_eq!(eps[0].max_packet_size, 8);
    assert_eq!(eps[0].poll_period, 10);
    let eps = interface_endpoints(&data[34..48]);
    assert_eq!(eps.len(), 2);
    assert_eq!(eps[0].kind, EndpointKind::BulkOut);
    assert_eq!(eps[1].kind, EndpointKind::BulkIn);
    assert_eq!(eps[1].ep_num, 3);
    assert_eq!(eps[1].max_packet_size, 512);
}

#[test]
fn descriptor_kinds_by_type_byte() {
    let ep = [7u8, 5, 0x81, 3, 8, 0, 10];
    match DescriptorAny::from_bytes(&ep) {
        Ok(DescriptorAny::Endpoint(d)) => assert_eq!(d.address, 0x81),
        _ => panic!("expected an endpoint"),
    }
    // an endpoint descriptor of the wrong length is a parse error
    assert!(DescriptorAny::from_bytes(&ep[..6]).is_err());
    let unk = [3u8, 0x21, 0];
    assert!(matches!(DescriptorAny::from_bytes(&unk), Ok(DescriptorAny::Unknown(_))));
}

#[test]
fn hub_descriptor_and_port_status() {
    let b = [9u8, 0x29, 4, 0x11, 0x00, 50, 100, 0x06, 0xFF];
    let h = HubDescriptor::from_bytes(&b);
    assert_eq!(h.num_ports, 4);
    assert_eq!(h.hub_characteristics, 0x11);
    assert_eq!(h.power_stable_time_ms(), 100);
    assert!(!h.type_mismatch());
    assert!(!h.length_exceeds(9));
    assert!(h.length_exceeds(8));
    assert_eq!(h.device_removable[0], 0x06);
    assert_eq!(h.device_removable[2], 0);
    let st = status_from_bytes([0x03, 0x01, 0x01, 0x00]);
    assert_eq!(st, 0x0001_0103);
    assert!(port_status_has(st, PortFeature::Connection));
    assert!(port_status_has(st, PortFeature::Power));
    assert!(port_status_has(st, PortFeature::CConnection));
    assert!(!port_status_has(st, PortFeature::Reset));
}

#[test]
fn hub_reports_changed_ports_and_changes() {
    assert_eq!(changed_ports(&[0b1010_0010, 0b1], 9), vec![1, 5, 7, 8]);
    assert_eq!(changed_ports(&[0xFF], 3), vec![0, 1, 2]);
    let c = port_status_change(0x0011_0001);
    assert_eq!(c.clear, vec![PortFeature::CConnection, PortFeature::CReset]);
    assert!(c.connected);
    assert!(!c.disconnected);
    let d = port_status_change(0x0001_0000);
    assert!(d.disconnected);
}

#[test]
fn port_bring_up_powered_port() {
    let mut p = PortInit::new();
    assert_eq!(p.step(PortInitEvent::Completed, 0), PortInitAction::Query(PortFeature::Power));
    assert_eq!(p.step(PortInitEvent::Feature(true), 0), PortInitAction::SetFeature(PortFeature::Reset));
    assert_eq!(p.step(PortInitEvent::Completed, 0), PortInitAction::Sleep(50));
    assert_eq!(p.step(PortInitEvent::Completed, 50), PortInitAction::Query(PortFeature::Reset));
    assert_eq!(p.step(PortInitEvent::Feature(false), 50), PortInitAction::Sleep(2));
    assert_eq!(p.step(PortInitEvent::Completed, 52), PortInitAction::Query(PortFeature::Enable));
    assert_eq!(p.step(PortInitEvent::Feature(true), 52), PortInitAction::SendSetAddress);
    assert_eq!(p.step(PortInitEvent::Completed, 53), PortInitAction::Finish(true));
    assert_eq!(p.state, PortInitState::Done);
}

#[test]
fn port_bring_up_times_out_waiting_for_enable() {
    let mut p = PortInit::new();
    p.step(PortInitEvent::Completed, 0);
    assert_eq!(p.step(PortInitEvent::Feature(false), 0), PortInitAction::SetFeature(PortFeature::Power));
    assert_eq!(p.step(PortInitEvent::Completed, 0), PortInitAction::SleepPowerStable);
    assert_eq!(p.step(PortInitEvent::Completed, 10), PortInitAction::SetFeature(PortFeature::Reset));
    p.step(PortInitEvent::Completed, 10);
    p.step(PortInitEvent::Completed, 60);
    assert_eq!(p.step(PortInitEvent::Feature(true), 60), PortInitAction::ClearFeature(PortFeature::Reset));
    assert_eq!(p.step(PortInitEvent::Completed, 61), PortInitAction::Query(PortFeature::Reset));
    assert_eq!(p.step(PortInitEvent::Feature(false), 62), PortInitAction::Sleep(2));
    p.step(PortInitEvent::Completed, 64);
    assert_eq!(p.step(PortInitEvent::Feature(false), 64), PortInitAction::SetFeature(PortFeature::Enable));
    assert_eq!(p.step(PortInitEvent::Completed, 65), PortInitAction::Query(PortFeature::Enable));
    // deadline is 65 + 50 = 115
    assert_eq!(p.step(PortInitEvent::Feature(false), 115), PortInitAction::Sleep(5));
    assert_eq!(p.step(PortInitEvent::Completed, 116), PortInitAction::Query(PortFeature::Enable));
    assert_eq!(p.step(PortInitEvent::Feature(false), 116), PortInitAction::Finish(false));
    assert_eq!(p.state, PortInitState::Failed);
}

#[test]
fn endpoint_packet_size_uses_eleven_bits() {
    // bulk IN endpoint 1, wMaxPacketSize 0x0400
    let eps = interface_endpoints(&[7, 5, 0x81, 0x02, 0x00, 0x04, 0]);
    assert_eq!(eps.len(), 1);
    assert_eq!(eps[0].kind, EndpointKind::BulkIn);
    assert_eq!(eps[0].max_packet_size, 1024);
    // bits 11-15 (additional transactions) are not part of the size
    let eps = interface_endpoints(&[7, 5, 0x81, 0x02, 0xFF, 0xFF, 0]);
    assert_eq!(eps[0].max_packet_size, 0x7FF);
}
