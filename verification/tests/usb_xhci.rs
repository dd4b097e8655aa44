use tifflin_modules::usb_xhci::hw::regs::Regs;
use tifflin_modules::usb_xhci::phys_walk::PhysWalk;
use tifflin_modules::usb_core::hub::PortFeature;
use tifflin_modules::usb_xhci::command_ring::{command_base_offset, CommandRing, CommandRingError};
use tifflin_modules::usb_xhci::event_ring::{Event, EventRing};
use tifflin_modules::usb_xhci::hw::commands::{AddressDevice, EnableSlot, Nop};
use tifflin_modules::usb_xhci::hw::structs::{SlotContext, Trb, TrbCompletionCode, TrbLink, TrbNormalData, TrbType};
use tifflin_modules::usb_xhci::device_state::set_device_info;
use tifflin_modules::usb_xhci::irq::{event_action, irq_handled_bits, irq_pending, EventAction};
use tifflin_modules::usb_xhci::memory_pools::{clear_bits, find_and_set, MemoryPools};
use tifflin_modules::usb_xhci::usb_host::{
    get_port_feature_value, interrupt_period_log2, transfer_trbs, transferred_len, InterruptBuffers,
};
use tifflin_modules::usb_xhci::AtomicBitset256;

const RING: u64 = 0x10_0000;

#[test]
fn trb_type_codes() {
    assert_eq!(TrbType::AddressDeviceCommand.code(), 11);
    assert_eq!(TrbType::from_code(33), Some(TrbType::CommandCompletionEvent));
    assert_eq!(TrbType::from_code(30), None);
    let w = TrbType::Link.to_word3(true);
    assert_eq!(w, (6 << 10) | 1);
    assert_eq!(TrbType::from_trb_word3(w), Ok(TrbType::Link));
    assert_eq!(TrbType::from_trb_word3(30 << 10), Err(30));
    assert_eq!(TrbCompletionCode::from_u8(6), Ok(TrbCompletionCode::StallError));
    assert_eq!(TrbCompletionCode::from_u8(9), Err(9));
}

#[test]
fn trb_encodings() {
    let link = TrbLink::new_loopback(0x1234_5678_9ABC_DEF0).into_trb(false);
    assert_eq!((link.word0, link.word1, link.word2), (0x9ABC_DEF0, 0x1234_5678, 0));
    assert_eq!(link.word3, (6 << 10) | 2);
    let mut t = Nop.into_trb(false);
    assert_eq!(t.word3, 23 << 10);
    t.set_cycle(true);
    assert_eq!(t.word3, (23 << 10) | 1);
    assert_eq!(EnableSlot.into_trb(true).word3, (9 << 10) | 1);
    let a = AddressDevice::new(3, 0x2_0000_1234, true).into_trb(true);
    assert_eq!(a.word0, 0x1230);
    assert_eq!(a.word1, 2);
    assert_eq!(a.word3, (3 << 24) | (1 << 9) | (11 << 10) | 1);
}

#[test]
fn normal_data_inline_and_pointer() {
    let d = TrbNormalData::make_inline(&[1, 2, 3]).unwrap();
    assert!(d.is_immediate());
    assert_eq!(d.to_word0(), 0x0003_0201);
    assert_eq!(d.to_word1(), 0);
    assert!(TrbNormalData::make_inline(&[0; 9]).is_none());
    let p = TrbNormalData::from_words(false, 0x5000, 1);
    assert!(!p.is_immediate());
    assert_eq!(p.to_word0(), 0x5000);
    assert_eq!(p.to_word1(), 1);
    let back = TrbNormalData::from_words(true, d.to_word0(), d.to_word1());
    assert!(matches!(back, TrbNormalData::InlineData([1, 2, 3, 0, 0, 0, 0, 0])));
}

#[test]
fn command_ring_enqueues_and_remembers_types() {
    assert_eq!(command_base_offset(0), 64);
    assert_eq!(command_base_offset(16), 136);
    let mut ring = CommandRing::new(RING, 0, &[], 0);
    assert_eq!(ring.dcbaap(), RING);
    let crcr = ring.crcr_init();
    assert_eq!(crcr, (RING + 16 * 64) | 1);
    assert_eq!(ring.check_enqueue(crcr), Ok(()));
    assert_eq!(ring.check_enqueue(0x20_0000), Err(CommandRingError::CrcrOutOfRange));
    ring.enqueue_command(crcr, AddressDevice::new(1, 0x3000, false).into_trb(ring.cycle_bit));
    assert_eq!(ring.offset, 65);
    assert_eq!(ring.page[4 * 64], 0x3000);
    assert_eq!(ring.get_command_type(RING + 16 * 64), Some(TrbType::AddressDeviceCommand));
    assert_eq!(ring.get_command_type(RING), None);
    ring.set_dcba(2, 0x1_2345_6000);
    assert_eq!((ring.page[4], ring.page[5]), (0x2345_6000, 1));
}

#[test]
fn event_ring_polls_by_cycle() {
    let mut er = EventRing::new(0, 0x8000, 16);
    assert_eq!(er.erst_entry(), [0x8010, 15]);
    assert_eq!(er.erdp(), 0x8018);
    // the producer's first pass writes entries with the cycle bit set: a clear one is not yet written
    let stale = Trb { word0: 0, word1: 0, word2: 0, word3: 34 << 10 };
    assert!(er.poll(stale).is_none());
    assert_eq!(er.read_ofs, 1);
    let port = Trb { word0: 3 << 24, word1: 0, word2: 1 << 24, word3: (34 << 10) | 1 };
    let ev = er.poll(port).unwrap();
    assert!(matches!(ev, Event::PortStatusChange { port_id: 3, completion_code: 1 }));
    assert_eq!(er.read_ofs, 2);
    assert!(er.check_int(er.erdp()));
}

fn done(completion_code: TrbCompletionCode) -> Event {
    Event::CommandCompletion { trb_pointer: RING + 16 * 64, completion_code, param: 0, slot_id: 5, vf_id: 0 }
}

#[test]
fn events_become_actions() {
    assert!(irq_pending(0x8));
    assert!(!irq_pending(0x1));
    assert_eq!(irq_handled_bits(0x18), 0x8);
    let port = Event::PortStatusChange { port_id: 3, completion_code: 1 };
    assert!(matches!(event_action(port, None), EventAction::PortUpdate(2)));
    assert!(matches!(event_action(done(TrbCompletionCode::Success), Some(TrbType::EnableSlotCommand)), EventAction::SlotEnabled(5)));
    assert!(matches!(
        event_action(done(TrbCompletionCode::Success), Some(TrbType::ConfigureEndpointCommand)),
        EventAction::ConfigureDone(4)
    ));
    assert!(matches!(event_action(done(TrbCompletionCode::Success), Some(TrbType::AddressDeviceCommand)), EventAction::AddressDone));
    assert!(matches!(event_action(done(TrbCompletionCode::Success), None), EventAction::Ignore));
    assert!(matches!(
        event_action(done(TrbCompletionCode::TrbError), Some(TrbType::EnableSlotCommand)),
        EventAction::CommandFailed(TrbCompletionCode::TrbError)
    ));
    let xfer = Event::Transfer {
        data: TrbNormalData::Pointer(0x4000),
        transfer_length: 6,
        completion_code: TrbCompletionCode::Success,
        slot_id: 2,
        endpoint_id: 3,
    };
    assert!(matches!(
        event_action(xfer, None),
        EventAction::TransferDone { slot: 1, endpoint: 2, transfer_length: 6, .. }
    ));
    assert!(matches!(event_action(Event::Doorbell, None), EventAction::Ignore));
}

#[test]
fn block_bitmaps() {
    let mut bits = [0b0111u32, 0];
    assert_eq!(find_and_set(&mut bits, 2), Some(3));
    assert_eq!(bits[0], 0b11111);
    assert!(clear_bits(&mut bits, 3, 2));
    assert_eq!(bits[0], 0b0111);
    assert!(!clear_bits(&mut bits, 3, 2));
    let mut full = [u32::MAX; 2];
    assert_eq!(find_and_set(&mut full, 1), None);
}

#[test]
fn memory_pool_release_undoes_allocate() {
    let mut pools = MemoryPools::new(0x9000);
    let before = (pools.used.pool0, pools.used.pools);
    let h = pools.allocate(2).unwrap();
    assert_eq!((h.pool, h.index, h.count), (0, 64, 2));
    assert_eq!(h.len(), 2);
    assert_eq!(pools.get_phys(&h), 0x9000 + 32 * 64);
    pools.release(h);
    assert_eq!((pools.used.pool0, pools.used.pools), before);
}

#[test]
fn transfer_helpers() {
    assert_eq!(transferred_len(64, 10), 54);
    assert_eq!(interrupt_period_log2(8), 7);
    assert_eq!(interrupt_period_log2(1), 4);
    let trbs = transfer_trbs(&[(0x1000, 0x800, false), (0x3000, 0x100, true)]);
    assert_eq!(trbs.len(), 2);
    assert!(trbs[0].chain_bit && !trbs[0].ioc);
    assert!(!trbs[1].chain_bit && trbs[1].ioc);
    assert_eq!(trbs[1].transfer_length, 0x100);
    assert!(get_port_feature_value(0x1, PortFeature::Connection));
    let mut ib = InterruptBuffers::new(8);
    assert_eq!(ib.buffer_range(false), (0, 8));
    assert_eq!(ib.buffer_range(true), (8, 16));
    assert_eq!(ib.complete(3), (false, 5));
    assert!(ib.cur_buffer && ib.other_borrowed);
    ib.release();
    assert!(!ib.other_borrowed);
}

#[test]
fn slot_bitset() {
    let mut b = AtomicBitset256::new();
    assert_eq!(b.get_first_set_and_clear(), None);
    b.set(200);
    b.set(7);
    assert_eq!(b.get_first_set_and_clear(), Some(7));
    assert_eq!(b.get_first_set_and_clear(), Some(200));
    assert_eq!(b.get_first_set_and_clear(), None);
}

#[test]
fn transfer_event_endpoint_id_has_five_bits() {
    let trb = Trb { word0: 0x1000, word1: 0, word2: 0x0100_0005, word3: 0x0211_8001 };
    let ev = Event::from_trb(trb);
    assert!(matches!(
        ev,
        Event::Transfer {
            data: TrbNormalData::Pointer(0x1000),
            transfer_length: 5,
            completion_code: TrbCompletionCode::Success,
            slot_id: 2,
            endpoint_id: 17,
        }
    ));
}

#[test]
fn route_string_appends_a_nibble() {
    let hub = SlotContext::new([0x1, 3 << 16, 0, 0]);
    let info = set_device_info(Some((&hub, 4)), 2, 3);
    assert_eq!(info.route_string, 0x21);
    assert_eq!(info.root_port, 3);
    let deeper = SlotContext::new([0x321, 3 << 16, 0, 0]);
    assert_eq!(set_device_info(Some((&deeper, 4)), 5, 3).route_string, 0x5321);
    let root = SlotContext::new([0, 7 << 16, 0, 0]);
    assert_eq!(set_device_info(Some((&root, 4)), 9, 3).route_string, 0x9);
    let top = set_device_info(None, 2, 3);
    assert_eq!((top.route_string, top.root_port, top.parent_info), (0, 3, 0));
}

#[test]
fn command_ring_hands_the_link_over_on_each_wrap() {
    let mut ring = CommandRing::new(RING, 0, &[], 0);
    // the link entry is the last of the page, looping back to the first command
    assert_eq!(ring.page[1020], (RING + 16 * 64) as u32);
    assert_eq!(ring.page[1023], (6 << 10) | 2 | 1);
    let crcr = ring.crcr_init();
    for _ in 64..255 {
        let c = ring.cycle_bit;
        ring.enqueue_command(crcr, Nop.into_trb(c));
    }
    assert_eq!(ring.offset, 64);
    assert!(!ring.cycle_bit);
    assert_eq!(ring.page[1023] & 1, 1);
    assert_eq!(ring.page[4 * 254 + 3], (23 << 10) | 1);
    let crcr2 = (RING + 16 * 100) | 1;
    for _ in 64..255 {
        let c = ring.cycle_bit;
        ring.enqueue_command(crcr2, Nop.into_trb(c));
    }
    assert_eq!(ring.offset, 64);
    assert!(ring.cycle_bit);
    assert_eq!(ring.page[1023] & 1, 0);
    assert_eq!(ring.page[1023] & !1, (6 << 10) | 2);
}

#[test]
fn phys_walk_splits_at_discontinuities() {
    // a 0x2800-byte buffer starting 0x800 into a page
    let mut w = PhysWalk::start(0x1_0800, 0x2800);
    assert_eq!((w.ofs, w.remain), (0, 0x800));
    assert_eq!(w.probe(), Some(0x800));
    // contiguous: more than a page is left past the probe, so the piece runs to the end
    w.extend();
    assert_eq!(w.remain, 0x2800);
    assert_eq!(w.probe(), None);
    assert_eq!(w.take_piece(), (0, 0x2800, true));
    assert!(w.done());
    // a discontinuity right after the first page
    let mut w = PhysWalk::start(0x1_0800, 0x2800);
    assert_eq!(w.take_piece(), (0, 0x800, false));
    assert!(!w.done());
    let mut short = PhysWalk::start(0x10, 0x20);
    assert_eq!(short.probe(), None);
    assert_eq!(short.take_piece(), (0, 0x20, true));
}

#[test]
fn interrupter_register_offsets() {
    let regs = Regs::new(0x20, 0x3000, 0x2000, 0, 0, 0);
    let i = regs.interrupter(2);
    let base = 0x2000 + 0x20 + 0x20 * 2;
    assert_eq!(i.iman_ofs(), base);
    assert_eq!(i.imod_ofs(), base + 4);
    assert_eq!(i.erstsz_ofs(), base + 8);
    assert_eq!(i.erstba_ofs(), base + 0x10);
    assert_eq!(i.erdp_ofs(), base + 0x18);
}

#[test]
fn command_types_read_back() {
    let mut ring = CommandRing::new(RING, 0, &[], 0);
    let crcr = ring.crcr_init();
    ring.enqueue_command(crcr, EnableSlot.into_trb(ring.cycle_bit));
    ring.enqueue_command(crcr, Nop.into_trb(ring.cycle_bit));
    assert_eq!(ring.get_command_type(RING + 16 * 64), Some(TrbType::EnableSlotCommand));
    assert_eq!(ring.get_command_type(RING + 16 * 65), Some(TrbType::NoOpCommand));
    assert_eq!(ring.get_command_type(RING + 16 * 63), None);
    assert_eq!(ring.get_command_type(RING - 16), None);
    assert_eq!(ring.get_command_type(RING + 0x1000), None);
}

#[test]
fn new_command_ring_page_is_clear_but_for_scratchpads_and_link() {
    let ring = CommandRing::new(RING, 2, &[0xA000, 0xB000], 0);
    assert_eq!(ring.page.len(), 1024);
    for (k, w) in ring.page.iter().enumerate() {
        let set = k < 2 || (512..516).contains(&k) || k >= 1020;
        if !set {
            assert_eq!(*w, 0, "word {}", k);
        }
    }
    assert_eq!((ring.page[512], ring.page[514]), (0xA000, 0xB000));
    assert_ne!(ring.page[1023], 0);
}
