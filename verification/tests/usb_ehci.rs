use tifflin_modules::usb_ehci::desc_pools::qh_pool::{QhHandle, QhPool};
use tifflin_modules::usb_core::host::{EndpointAddr, HubPortSpeed};
use tifflin_modules::usb_core::hub::PortFeature;
use tifflin_modules::usb_ehci::desc_pools::td_pool::{second_page_offset, TdHandle, TdPool};
use tifflin_modules::usb_ehci::desc_pools::{get_and_clear_bit, set_first_zero_bit};
use tifflin_modules::usb_ehci::host_interrupt::{best_offset, interrupt_period, periodic_slots};
use tifflin_modules::usb_ehci::host_queuemgmt::{after_async_removal, async_restart};
use tifflin_modules::usb_ehci::hw_regs::{OpReg, Regs};
use tifflin_modules::usb_ehci::hw_structs::{Pid, TransferDesc};
use tifflin_modules::usb_ehci::transfers::{
    finish_bulk, finish_control, queue_bulk, queue_control, set_address_target, BufferRange,
};
use tifflin_modules::usb_ehci::usb_host::{
    clear_port_feature_value, feature_bit, get_port_feature_value, make_endpoint_spec, set_port_feature_value,
    set_usb1_state, take_port_update, usb1_for_port, FeatureOp, Usb1,
};
use tifflin_modules::usb_ehci::{irq_pending_bits, irq_port_updates, irq_unhandled_bits};

const PHYS: u32 = 0x40000;

#[test]
fn td_pool_allocates_lowest_free() {
    let mut pool = TdPool::new(PHYS);
    let a = pool.allocate(Pid::Setup, 8, 0x1000, 0, None);
    assert_eq!(a.idx(), 0);
    assert_eq!(pool.get_phys(&a), PHYS);
    let b = pool.allocate(Pid::In, 64, 0x2000, 0, Some(TdHandle::new(0)));
    assert_eq!(b.idx(), 1);
    assert_eq!(pool.get_phys(&b), PHYS + 32);
    let d = pool.get_data(&b);
    assert_eq!(d.link, PHYS);
    assert_eq!(d.token, (1 << 8) | (64 << 16));
    assert_eq!(TransferDesc::token_len(d.token), 64);
    assert_eq!(pool.get_idx_from_phys(PHYS + 32), 1);
    let next = pool.release(b);
    assert_eq!(next.map(|h| h.idx()), Some(0));
    let next = pool.release(a);
    assert!(next.is_none());
}

#[test]
fn bitmap_helpers() {
    let mut bits = [0xFFu8, 0x0F, 0];
    assert_eq!(set_first_zero_bit(&mut bits, 0), Some(12));
    assert_eq!(bits[1], 0x1F);
    assert!(get_and_clear_bit(&mut bits, 12));
    assert!(!get_and_clear_bit(&mut bits, 12));
    assert_eq!(bits[1], 0x0F);
    assert_eq!(second_page_offset(0x5000, 0x6000), Some(0x5000));
    assert_eq!(second_page_offset(0x5000, 0x10), None);
}

#[test]
fn control_transfer_chain() {
    let mut pool = TdPool::new(PHYS);
    let setup = BufferRange { phys0: 0x1000, phys1: 0, len: 8 };
    let data = BufferRange { phys0: 0x2000, phys1: 0, len: 18 };
    let first = queue_control(&mut pool, true, setup, data);
    // the status stage is allocated first, then the data and setup stages
    assert_eq!(first.idx(), 2);
    assert_eq!(pool.data[2].token, (2 << 8) | (8 << 16));
    assert_eq!(pool.data[2].link, PHYS + 32);
    assert_eq!(pool.data[1].token, (1 << 8) | (18 << 16));
    assert_eq!(pool.data[1].link, PHYS);
    assert_eq!(pool.data[0].token, 0);
    assert_eq!(pool.data[0].link, 1);
    // the controller wrote back 2 bytes still to transfer
    let got = finish_control(&mut pool, first, 2 << 16, 18);
    assert_eq!(got, 16);
    assert_eq!(pool.alloced[0], 0);
}

#[test]
fn control_transfer_without_data() {
    let mut pool = TdPool::new(PHYS);
    let setup = BufferRange { phys0: 0x1000, phys1: 0, len: 8 };
    let none = BufferRange { phys0: 0, phys1: 0, len: 0 };
    let first = queue_control(&mut pool, false, setup, none);
    assert_eq!(pool.data[0].token, 1 << 8);
    assert_eq!(pool.data[1].link, PHYS);
    assert_eq!(pool.alloced[0], 0b11);
    assert_eq!(finish_control(&mut pool, first, 0, 0), 0);
    assert_eq!(pool.alloced[0], 0);
}

#[test]
fn bulk_transfer() {
    let mut pool = TdPool::new(PHYS);
    let td = queue_bulk(&mut pool, false, BufferRange { phys0: 0x3000, phys1: 0, len: 512 });
    assert_eq!(pool.data[td.idx()].token, 512 << 16);
    assert_eq!(finish_bulk(&mut pool, td, 0, 512), 512);
    assert_eq!(pool.alloced[0], 0);
}

#[test]
fn set_address_is_noticed() {
    assert_eq!(set_address_target(0, &[0, 5, 7, 0, 0, 0, 0, 0]), Some(7));
    assert_eq!(set_address_target(3, &[0, 5, 7, 0, 0, 0, 0, 0]), None);
    assert_eq!(set_address_target(0, &[0x80, 6, 0, 1, 0, 0, 18, 0]), None);
}

#[test]
fn periodic_scheduling() {
    assert_eq!(interrupt_period(0), 8);
    assert_eq!(interrupt_period(4), 32);
    assert_eq!(interrupt_period(500), 1024);
    assert_eq!(best_offset(&[3, 1, 2, 1]), 1);
    let slots = periodic_slots(256, 3);
    assert_eq!(slots, vec![3, 259, 515, 771]);
}

#[test]
fn interrupt_and_queue_registers() {
    assert_eq!(irq_pending_bits(0xF03F), 0x3F);
    assert_eq!(irq_unhandled_bits(0x3F), 0x12);
    assert_eq!(irq_port_updates(&[0x2, 0x1005, 0x20]), 0b101);
    assert_eq!(after_async_removal(0x4000, 0x21), Some(0x61));
    assert_eq!(after_async_removal(0, 0x21), None);
    assert_eq!(async_restart(0, 0x1, 0x40082), Some((0x40080, 0x21)));
    assert_eq!(async_restart(0x4000, 0x1, 0x40082), None);
    let regs = Regs::new(0x20, 0x1_0004);
    assert_eq!(regs.nports(), 4);
    assert_eq!(regs.op_ofs(OpReg::UsbSts), 0x24);
    assert_eq!(regs.op_ofs(OpReg::ConfigFlag), 0x60);
    assert_eq!(regs.port_sc_ofs(1), 0x20 + 4 * 18);
    assert!(regs.write_op_allowed(OpReg::UsbCmd, 0x21));
    assert!(!regs.write_op_allowed(OpReg::UsbCmd, 0x400));
    assert!(!regs.write_op_allowed(OpReg::FrIndex, 0));
}

#[test]
fn port_features() {
    assert_eq!(feature_bit(PortFeature::Reset, FeatureOp::SetBit), Some(0x100));
    assert_eq!(feature_bit(PortFeature::Connection, FeatureOp::SetBit), None);
    assert_eq!(set_port_feature_value(0x1001, PortFeature::Reset), Some(0x1101));
    assert_eq!(set_port_feature_value(0x1001, PortFeature::CReset), None);
    assert_eq!(clear_port_feature_value(0x100B, PortFeature::CEnable), Some(0x1003));
    assert!(get_port_feature_value(0x1001, PortFeature::Connection));
    assert!(!get_port_feature_value(0x1001, PortFeature::Enable));
    assert_eq!(take_port_update(0b1010, 4), Some((1, 0b1000)));
    assert_eq!(take_port_update(0b1_0000, 4), None);
}

#[test]
fn endpoint_characteristics() {
    let ep = EndpointAddr::new(3, 2);
    let (id, ext) = make_endpoint_spec(&ep, 64, None, false);
    assert_eq!(id, (64 << 16) | 3 | (2 << 8) | (2 << 12));
    assert_eq!(ext, 0x4000_0000);
    let usb1 = Usb1 { hub_addr: 1, hub_port: 2, is_fullspeed: true };
    let (id, ext) = make_endpoint_spec(&ep, 8, Some(usb1), true);
    assert_eq!(id, (8 << 16) | 3 | (2 << 8) | 0x0800_0000);
    assert_eq!(ext, 0x4000_0000 | (2 << 23) | (1 << 16));
    let mut a = 0xFFFF_FFFFu32;
    let mut b = 0xFFFF_FFFFu32;
    set_usb1_state(&mut a, &mut b, None, true);
    assert_eq!(a, 0xF7FF_EFFF);
    assert_eq!(b, 0xC000_FFFF);
    assert_eq!(usb1_for_port(None, 4, 2, HubPortSpeed::Low), Some(Usb1 { hub_addr: 4, hub_port: 2, is_fullspeed: false }));
    assert_eq!(usb1_for_port(Some(usb1), 4, 3, HubPortSpeed::Low), Some(Usb1 { hub_addr: 1, hub_port: 2, is_fullspeed: false }));
    assert_eq!(usb1_for_port(None, 4, 2, HubPortSpeed::High), None);
}

#[test]
fn td_release_undoes_allocate() {
    let mut pool = TdPool::new(PHYS);
    let keep = pool.allocate(Pid::Out, 4, 0x1000, 0, None);
    let before = pool.alloced;
    let h = pool.allocate(Pid::In, 8, 0x2000, 0, None);
    assert_ne!(pool.alloced, before);
    pool.release(h);
    assert_eq!(pool.alloced, before);
    assert_eq!(keep.idx(), 0);
}

#[test]
fn released_queue_head_waits_for_collection() {
    let mut qhs = QhPool::new(0x50000);
    let a = qhs.allocate(1, 2);
    assert_eq!(a.0, 0);
    qhs.release(QhHandle(a.0));
    // still allocated until collected: the next allocation takes another slot
    let b = qhs.allocate(3, 4);
    assert_eq!(b.0, 1);
    let free_before = qhs.free;
    qhs.trigger_gc();
    assert_eq!(qhs.free, free_before + 1);
    assert_eq!(qhs.alloced[0], 0b10);
    assert_eq!(qhs.released[0], 0);
    let c = qhs.allocate(5, 6);
    assert_eq!(c.0, 0);
}

#[test]
fn control_transfer_leaves_other_descriptors_alone() {
    let mut pool = TdPool::new(PHYS);
    let bulk = queue_bulk(&mut pool, true, BufferRange { phys0: 0x3000, phys1: 0, len: 64 });
    assert_eq!(bulk.idx(), 0);
    let before = pool.data[0];
    let setup = BufferRange { phys0: 0x1000, phys1: 0, len: 8 };
    let data = BufferRange { phys0: 0x2000, phys1: 0, len: 18 };
    let first = queue_control(&mut pool, true, setup, data);
    assert_eq!(first.idx(), 3);
    let same = |d: &TransferDesc| (d.link, d.link2, d.token, d.pages) == (before.link, before.link2, before.token, before.pages);
    assert!(same(&pool.data[0]));
    assert_eq!(pool.alloced[0], 0b1111);
    assert_eq!(finish_control(&mut pool, first, 0, 18), 18);
    assert_eq!(pool.alloced[0], 0b1);
    assert!(same(&pool.data[0]));
}
