use tifflin_modules::usb_ohci::root_hub_update;
use tifflin_modules::usb_ohci::connected_port_mask;
use tifflin_modules::usb_core::host::EndpointAddr;
use tifflin_modules::usb_core::hub::PortFeature;
use tifflin_modules::usb_ohci::int_buffers::InterruptBuffers;
use tifflin_modules::usb_ohci::pools::{check_done_list, walk_done_list, DescPools, TdPid};
use tifflin_modules::usb_ohci::transfers::{
    bulk_flags, finish_control, interrupt_flags, interrupt_valid_len, irq_status, queue_control,
};
use tifflin_modules::usb_ohci::{
    add_loading, bulk_ed_flags, bulk_transfer_len, clear_port_feature_value, control_ed_flags, control_in_len,
    controller_state, dma_range, get_general_td_from_phys, get_port_feature_value, init_comm_page,
    interrupt_ed_flags, interrupt_slot_range, min_load_slot, period_pow_2, periodic_start, root_hub_change_mask,
    root_hub_ports, set_port_feature_value, ControllerState, EndpointId, TransferDescriptorId, UpstreamIntSlots,
};

const PAGE: u32 = 0x10000;

#[test]
fn td_id_packs_into_u16() {
    let id = TransferDescriptorId::from_u16(0x0142);
    assert_eq!(id, TransferDescriptorId { group: 1, idx: 0x42 });
    assert_eq!(id.to_u16(), 0x0142);
    assert_eq!(TransferDescriptorId::null(), TransferDescriptorId { group: 0, idx: 0 });
}

#[test]
fn upstream_slots_follow_the_interrupt_tree() {
    let mut it = UpstreamIntSlots(3);
    let mut seen = vec![];
    while let Some(s) = it.next() {
        seen.push(s);
    }
    assert_eq!(seen, vec![3, 17, 24, 28, 30]);
    let mut loading = vec![0usize; 31];
    add_loading(&mut loading, 3);
    assert_eq!(loading[3], 1);
    assert_eq!(loading[17], 1);
    assert_eq!(loading[24], 1);
    assert_eq!(loading[28], 1);
    assert_eq!(loading[30], 1);
    assert_eq!(loading.iter().sum::<usize>(), 5);
}

#[test]
fn interrupt_periods_pick_lists() {
    assert_eq!(interrupt_slot_range(4), (0, 16));
    assert_eq!(interrupt_slot_range(0), (30, 1));
    assert_eq!(interrupt_slot_range(9), (0, 16));
    assert_eq!(min_load_slot(&[2, 1, 1, 3], 0, 4), 1);
    assert_eq!(min_load_slot(&[2, 1, 1, 3], 2, 2), 0);
    assert_eq!(period_pow_2(0), 0);
    assert_eq!(period_pow_2(1), 0);
    assert_eq!(period_pow_2(8), 3);
    assert_eq!(period_pow_2(10), 3);
    assert_eq!(period_pow_2(16), 4);
}

#[test]
fn comm_page_links_the_interrupt_tree() {
    let page = init_comm_page(PAGE);
    assert_eq!(page.len(), 1024);
    // frame 0 uses the first 16 ms list, frame 1 the ninth
    assert_eq!(page[0], PAGE + 256);
    assert_eq!(page[1], PAGE + 256 + 16 * 8);
    assert_eq!(page[32], 0);
    // first 16 ms list: skip flag, linked to the first 8 ms list
    assert_eq!(page[64], 0x4000);
    assert_eq!(page[67], PAGE + 256 + 16 * 16);
    assert_eq!(page[188], 0x4000);
    assert_eq!(page[191], 0);
}

#[test]
fn controller_registers_decode() {
    assert_eq!(controller_state(0x100), ControllerState::SmmOwned);
    assert_eq!(controller_state(0), ControllerState::Reset);
    assert_eq!(controller_state(0x80), ControllerState::Operational);
    assert_eq!(controller_state(0x40), ControllerState::SuspendOrResume);
    assert_eq!(periodic_start(0x2EDF), 10799);
    assert_eq!(root_hub_ports(0x0200_0002), Some(2));
    assert_eq!(root_hub_ports(0x10), None);
    assert_eq!(root_hub_change_mask(&[0x0001_0103, 0x103, 0x0010_0000]), 0b101);
    let s = irq_status(0x43);
    assert!(s.scheduling_overrun && s.writeback_done_head && s.root_hub_status_change && s.handled);
    assert!(!s.unrecoverable_error);
    assert!(!irq_status(0).handled);
}

#[test]
fn port_features_map_to_status_bits() {
    assert_eq!(set_port_feature_value(PortFeature::Reset), Some(0x10));
    assert_eq!(set_port_feature_value(PortFeature::Connection), None);
    assert_eq!(clear_port_feature_value(PortFeature::CReset), Some(0x10_0000));
    assert!(get_port_feature_value(0x103, PortFeature::Connection));
    assert!(!get_port_feature_value(0x103, PortFeature::Reset));
    assert!(!get_port_feature_value(0xFFFF_FFFF, PortFeature::Test));
}

#[test]
fn endpoint_flags_and_lengths() {
    let ep = EndpointAddr::new(5, 1);
    assert_eq!(control_ed_flags(&ep, 64), 0x0040_0085);
    assert_eq!(bulk_ed_flags(&ep, 64, true), 0x0040_1085);
    assert_eq!(bulk_ed_flags(&ep, 64, false), 0x0040_0885);
    assert_eq!(interrupt_ed_flags(&ep), 0x85);
    assert_eq!(control_in_len(0, 64), 64);
    assert_eq!(control_in_len(16, 64), 48);
    assert_eq!(bulk_transfer_len(512, 12), 500);
    assert_eq!(interrupt_valid_len(8, 3), 5);
    assert_eq!(bulk_flags(true).pid, TdPid::In);
    assert_eq!(interrupt_flags().rounding, true);
}

#[test]
fn dma_ranges() {
    assert_eq!(dma_range(0x10000, 0x1003F, 64), Some((0x10000, 0x1003F)));
    assert_eq!(dma_range(0, 0, 0), Some((0, 0)));
    assert_eq!(dma_range(0x1_0000_0000, 0x1_0000_003F, 64), None);
    // a buffer that crosses a page: accepted when its length matches the second-page end
    assert_eq!(dma_range(0x10F00, 0x110FF, 0x1FF), Some((0x10F00, 0x110FF)));
    assert_eq!(dma_range(0x10F00, 0x110FF, 0x200), None);
}

#[test]
fn td_lookup_from_phys() {
    assert_eq!(get_general_td_from_phys(PAGE + 64 * 32, PAGE), Some(TransferDescriptorId { group: 0, idx: 64 }));
    assert_eq!(get_general_td_from_phys(0x20000, PAGE), None);
}

#[test]
fn done_lists_are_checked() {
    let mut next = vec![0u32; 128];
    let mut flags = vec![0u32; 128];
    assert!(check_done_list(PAGE, 0, &next, &flags));
    next[64] = PAGE + 32 * 65;
    assert!(check_done_list(PAGE, PAGE + 32 * 64, &next, &flags));
    // an entry that completed with an error
    flags[65] = 0x4000_0000;
    assert!(!check_done_list(PAGE, PAGE + 32 * 64, &next, &flags));
    flags[65] = 0;
    // an entry outside the pool, and one in another page
    assert!(!check_done_list(PAGE, PAGE + 32 * 3, &next, &flags));
    assert!(!check_done_list(PAGE, 0x20000 + 32 * 64, &next, &flags));
    // a list that never ends
    next[65] = PAGE + 32 * 64;
    assert!(!check_done_list(PAGE, PAGE + 32 * 64, &next, &flags));
}

#[test]
fn pools_run_a_control_transfer() {
    let mut pools = DescPools::new(PAGE);
    let (ep, tail) = pools.allocate_endpoint(0x0040_0085);
    assert_eq!(ep, EndpointId { group: 0, idx: 48 });
    assert_eq!(tail, TransferDescriptorId { group: 0, idx: 64 });
    assert_eq!(pools.eds[48].head_ptr, PAGE + 32 * 64);

    let first = pools.push_td(ep, bulk_flags(true), 0x20000, 0x201FF);
    assert_eq!(first.idx, 64);
    assert_eq!(pools.eds[48].tail_ptr, PAGE + 32 * 65);
    assert_eq!(pools.tds[64].cbp, 0x20000);
    assert_eq!(pools.tds[64].next_td, PAGE + 32 * 65);
    assert_eq!(pools.td_phys_of(first), PAGE + 32 * 64);

    let tds = queue_control(&mut pools, ep, true, (0x30000, 0x30007), (0x31000, 0x3103F));
    assert_eq!((tds.setup.idx, tds.data.idx, tds.status.idx), (65, 66, 67));
    assert_eq!(pools.tds[65].flags.pid, TdPid::Setup);
    assert_eq!(pools.tds[66].flags.pid, TdPid::In);
    assert_eq!(pools.tds[67].flags.pid, TdPid::Out);
    assert_eq!(pools.tds[65].next_td, PAGE + 32 * 66);
    assert_eq!(pools.eds[48].tail_td.idx, 68);

    let mut next = vec![0u32; 128];
    let flags = vec![0u32; 128];
    next[65] = PAGE + 32 * 66;
    next[66] = PAGE + 32 * 67;
    assert!(check_done_list(PAGE, (PAGE + 32 * 65) | 1, &next, &flags));
    let done = walk_done_list(PAGE, (PAGE + 32 * 65) | 1, &next, &flags);
    assert_eq!(done, vec![65, 66, 67]);
    assert!(pools.retire(65));
    assert!(!pools.retire(66));
    assert!(!pools.retire(67));
    assert!(pools.td_complete(67));
    assert!(!pools.tds[65].allocated);

    let got = finish_control(&mut pools, tds, true, 64, 16);
    assert_eq!(got, 48);
    assert!(!pools.tds[66].allocated);
    assert!(!pools.tds[67].allocated);

    pools.release_td(64);
    assert!(!pools.tds[64].allocated);
    assert_eq!(pools.link_at_head(ep, 0x12340), PAGE + 16 * 48);
    assert_eq!(pools.eds[48].next_ed, 0x12340);
}

#[test]
fn interrupt_endpoints_fill_placeholders_first() {
    let mut pools = DescPools::new(PAGE);
    let mut loading = vec![0usize; 31];
    let a = pools.register_interrupt_ed(&mut loading, 0, 0x85);
    assert_eq!(a, EndpointId { group: 0, idx: 46 });
    assert_eq!(loading[30], 1);
    assert_eq!(pools.eds[46].flags, 0x85);
    let b = pools.register_interrupt_ed(&mut loading, 0, 0x86);
    assert_eq!(b, EndpointId { group: 0, idx: 48 });
    assert_eq!(loading[30], 2);
    assert_eq!(pools.eds[46].next_ed, PAGE + 16 * 48);
    let c = pools.register_interrupt_ed(&mut loading, 4, 0x87);
    assert_eq!(c, EndpointId { group: 0, idx: 16 });
    assert_eq!(loading[0], 1);
    assert_eq!(loading[16], 1);
    assert_eq!(loading[30], 3);
    let d = pools.register_interrupt_ed(&mut loading, 4, 0x88);
    assert_eq!(d, EndpointId { group: 0, idx: 17 });
}

#[test]
fn interrupt_buffers_hand_out_lowest_free() {
    let mut bufs = InterruptBuffers::new(8, 0x20000);
    assert_eq!(bufs.max_packet_size(), 8);
    let a = bufs.get_buffer().unwrap();
    assert_eq!((a.offset, a.cap), (0, 8));
    let b = bufs.get_buffer().unwrap();
    assert_eq!(b.offset, 8);
    assert_eq!(b.get_phys_range(0x20000), (0x20008, 0x2000F));
    bufs.drop_handle(a.offset, 8);
    let c = bufs.get_buffer().unwrap();
    assert_eq!(c.offset, 0);
    let filled = b.filled(5);
    assert_eq!((filled.offset, filled.cap, filled.len), (8, 8, 5));
    assert_eq!(filled.get(), (8, 13));
}

#[test]
fn connected_ports_are_found() {
    assert_eq!(connected_port_mask(&[0x103, 0x100, 0x0001_0001, 0]), 0b101);
    assert_eq!(connected_port_mask(&[]), 0);
}

#[test]
fn root_hub_updates_accumulate() {
    assert_eq!(root_hub_update(0, &[0x103, 0x0001_0103]), (0b10, true));
    assert_eq!(root_hub_update(0b1000, &[0x0010_0000, 0x103]), (0b1001, true));
    assert_eq!(root_hub_update(0, &[0x103, 0x100]), (0, false));
}

#[test]
fn retiring_checks_the_tail() {
    let mut pools = DescPools::new(PAGE);
    let (ep, _tail) = pools.allocate_endpoint(0x85);
    let tds = queue_control(&mut pools, ep, true, (0x30000, 0x30007), (0x31000, 0x3103F));
    // the setup stage is released on completion and is not a tail
    assert!(pools.may_retire(tds.setup.idx as usize));
    assert!(pools.may_retire(tds.data.idx as usize));
    // an auto-freed descriptor that is an endpoint's tail may not be retired
    let tail = pools.eds[ep.idx as usize].tail_td.idx as usize;
    pools.tds[tail].flags.autofree = true;
    assert!(!pools.may_retire(tail));
}
