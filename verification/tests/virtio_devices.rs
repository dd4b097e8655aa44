use tifflin_modules::virtio::devices::block::{capacity_from_config, BlockVolume, VirtioBlockReq, VIRTIO_BLK_T_IN};
use tifflin_modules::virtio::devices::input::{
    config_data_offset, config_len_ok, event_action, keymap, ConfigSelect, InputEvent, KeyAction, KeyCode,
};
use tifflin_modules::virtio::devices::video::{
    enabled_scanouts, framebuffer_pages, parse_display_info, CtrlHeader, CtrlType, DisplayOne, GpuFormat, Rect,
    ResourceCreate2d, ResourceIds, SetScanout,
};
use tifflin_modules::virtio::devices::{device_kind, push_le32, push_le64, read_le32, DeviceKind};
use tifflin_modules::virtio::drivers::{
    capability_list_start, mmio_handles, mmio_magic_ok, pci_device_type, pci_handles, Capability, ProtoBars,
};
use tifflin_modules::virtio::interface::{
    choose_queue_size, mmio_cfg_offset, mmio_interrupt, mmio_queue_pfn, negotiate_features, pci_notify_offset,
    pci_queue_exists, split_addr, PciCommonReg,
};

#[test]
fn mmio_and_pci_matching() {
    assert_eq!(mmio_handles(b"virtio,mmio"), 1);
    assert_eq!(mmio_handles(b"virtio,pci"), 0);
    assert!(mmio_magic_ok(0x74726976));
    assert!(!mmio_magic_ok(0));
    assert_eq!(pci_handles(0x1AF4, 0x1001), 2);
    assert_eq!(pci_handles(0x1AF4, 0x1080), 0);
    assert_eq!(pci_handles(0x8086, 0x1001), 0);
    assert_eq!(pci_device_type(0x1001), 2);
    assert_eq!(pci_device_type(0x1009), 9);
    assert_eq!(pci_device_type(0x1050), 16);
}

#[test]
fn pci_capabilities_and_regions() {
    assert_eq!(capability_list_start(0x0010_0000, 0x43), 0x40);
    assert_eq!(capability_list_start(0, 0x43), 0);
    let cap = Capability::from_header(0x40, 0x0110_5009);
    assert_eq!(cap.id, 9);
    assert_eq!(cap.next, 0x50);
    assert_eq!(cap.len, 0x10);
    assert_eq!(cap.byte0, 1);
    assert_eq!(cap.dword_offset(2), 0x48);
    let mut bars = ProtoBars::new();
    assert!(bars.complete().is_none());
    bars.add(1, (4, 0, 0x38), 0);
    bars.add(2, (4, 0x1000, 0x1000), 4);
    bars.add(3, (4, 0x2000, 4), 0);
    assert!(bars.complete().is_none());
    bars.add(1, (5, 0, 0), 0);
    bars.add(4, (4, 0x3000, 0x100), 0);
    let set = bars.complete().unwrap();
    assert_eq!(set.common, (4, 0, 0x38));
    assert_eq!(set.notify, (4, 0x1000, 0x1000));
    assert_eq!(set.notify_off_mult, 4);
    assert_eq!(set.isr, (4, 0x2000, 4));
    assert_eq!(set.dev_cfg, (4, 0x3000, 0x100));
}

#[test]
fn interface_register_arithmetic() {
    assert_eq!(PciCommonReg::QueueSize.offset(), 0x18);
    assert_eq!(PciCommonReg::QueueUsed.offset(), 0x30);
    assert_eq!(choose_queue_size(0, 256), Some(256));
    assert_eq!(choose_queue_size(64, 256), Some(64));
    assert_eq!(choose_queue_size(512, 256), Some(256));
    assert_eq!(choose_queue_size(64, 0), None);
    assert_eq!(negotiate_features(0b1011, 0b0110), 0b0010);
    assert_eq!(split_addr(0x1_2345_6789), (0x2345_6789, 1));
    assert_eq!(mmio_queue_pfn(0x12_3000), 0x123);
    assert_eq!(pci_notify_offset(3, 4), 12);
    assert_eq!(mmio_cfg_offset(8, 4), 0x108);
    let i = mmio_interrupt(3);
    assert!(i.queue_update && i.config_change && i.handled);
    let none = mmio_interrupt(0);
    assert!(!none.queue_update && !none.config_change && !none.handled);
    assert!(pci_queue_exists(0, 1));
    assert!(!pci_queue_exists(1, 1));
}

#[test]
fn device_kinds_and_le_helpers() {
    assert_eq!(device_kind(2), DeviceKind::Block);
    assert_eq!(device_kind(16), DeviceKind::Video);
    assert_eq!(device_kind(18), DeviceKind::Input);
    assert_eq!(device_kind(1), DeviceKind::Null);
    let mut out = vec![0xAA];
    push_le32(&mut out, 0x1234_5678);
    push_le64(&mut out, 0x0102_0304_0506_0708);
    assert_eq!(out, vec![0xAA, 0x78, 0x56, 0x34, 0x12, 8, 7, 6, 5, 4, 3, 2, 1]);
    assert_eq!(read_le32(&out, 1), 0x1234_5678);
}

#[test]
fn block_requests() {
    assert_eq!(capacity_from_config(0x10, 2), 0x2_0000_0010);
    let req = VirtioBlockReq::read(0, 0x1234);
    assert_eq!(req.type_, VIRTIO_BLK_T_IN);
    assert_eq!(req.ioprio, 255);
    assert_eq!(req.to_bytes(), vec![0, 0, 0, 0, 255, 0, 0, 0, 0x34, 0x12, 0, 0, 0, 0, 0, 0]);
    let vol = BlockVolume { capacity: 2048 };
    assert_eq!(vol.name(), "virtio");
    assert_eq!(vol.blocksize(), 512);
    assert_eq!(vol.capacity(), Some(2048));
    let r = vol.read_request(10, 7, 2, 1024);
    assert_eq!(r, VirtioBlockReq { type_: VIRTIO_BLK_T_IN, ioprio: 245, sector: 7 });
    assert!(vol.wipe(0, 1).is_ok());
}

#[test]
fn input_keys_and_events() {
    assert_eq!(keymap(1), Some(KeyCode::Esc));
    assert_eq!(keymap(30), Some(KeyCode::A));
    assert_eq!(keymap(87), Some(KeyCode::F11));
    assert_eq!(keymap(84), None);
    assert_eq!(keymap(0), None);
    assert_eq!(keymap(200), None);
    let ev = InputEvent::from_bytes(&[1, 0, 30, 0, 1, 0, 0, 0]);
    assert_eq!(ev, InputEvent { ty: 1, code: 30, value: 1 });
    assert_eq!(event_action(ev), KeyAction::Press(KeyCode::A));
    assert_eq!(event_action(InputEvent { ty: 1, code: 30, value: 0 }), KeyAction::Release(KeyCode::A));
    assert_eq!(event_action(InputEvent { ty: 0, code: 30, value: 1 }), KeyAction::Ignore);
    assert_eq!(event_action(InputEvent { ty: 1, code: 84, value: 1 }), KeyAction::Ignore);
    assert_eq!(ConfigSelect::EvBits.code(), 0x11);
    assert_eq!(config_data_offset(3), 11);
    assert!(config_len_ok(128));
    assert!(!config_len_ok(129));
}

#[test]
fn gpu_commands_encode() {
    assert_eq!(CtrlType::SetScanout.code(), 0x103);
    assert_eq!(GpuFormat::R8G8B8A8Unorm.code(), 67);
    let h = CtrlHeader::command(CtrlType::ResourceFlush);
    assert_eq!(h.to_bytes(), vec![0x04, 0x01, 0, 0, 0, 0, 0, 0, 0, 0, 0, 0, 0, 0, 0, 0, 0, 0, 0, 0, 0, 0, 0, 0]);
    let g = CtrlHeader::get_display_info();
    assert_eq!(g.flags, 1);
    assert_eq!(g.fence_id, 1);
    let c = ResourceCreate2d::new(1, GpuFormat::B8G8R8X8Unorm, 640, 480);
    assert_eq!(c.to_bytes(), vec![1, 0, 0, 0, 2, 0, 0, 0, 0x80, 2, 0, 0, 0xE0, 1, 0, 0]);
    let s = SetScanout::new(Rect { x: 0, y: 0, width: 640, height: 480 }, 2, 1);
    assert_eq!(s.scanout_id, 2);
    assert_eq!(s.to_bytes().len(), 24);
    assert_eq!(framebuffer_pages(640), 400);
    let mut ids = ResourceIds::new();
    assert_eq!(ids.allocate(), 0);
    assert_eq!(ids.allocate(), 1);
    ids.next = u32::MAX;
    assert_eq!(ids.allocate(), u32::MAX);
    assert_eq!(ids.next, 0);
}

#[test]
fn gpu_display_info_parsing() {
    let mut b = vec![0u8; 24 + 16 * 24];
    let at = 24 + 24;
    b[at + 8] = 0x80;
    b[at + 9] = 2;
    b[at + 12] = 0xE0;
    b[at + 13] = 1;
    b[at + 16] = 1;
    assert!(parse_display_info(&b, 100).is_none());
    let info = parse_display_info(&b, b.len()).unwrap();
    assert_eq!(info.len(), 16);
    assert_eq!(info[1].r.width, 640);
    assert_eq!(info[1].r.height, 480);
    assert_eq!(info[1].enabled, 1);
    assert_eq!(info[0].enabled, 0);
    assert_eq!(enabled_scanouts(&info, 16), vec![1]);
    assert_eq!(enabled_scanouts(&info, 1), Vec::<usize>::new());
    let one = DisplayOne::from_bytes(&b, at);
    assert_eq!(one, info[1]);
}
