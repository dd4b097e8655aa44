//! The event ring: decoding event TRBs and tracking the dequeue position.
use vstd::prelude::*;
use crate::usb_xhci::hw::structs::{
    Trb, TrbType, TrbNormalData, TrbCompletionCode, completion_code_of, trb_type_of_code,
    word3_type_field, normal_data_of_words,
};

verus! {

/// An event reported by the controller.
#[derive(Debug)]
#[allow(inconsistent_fields)]
pub enum Event {
    /// Completion of a transfer TRB
    Transfer {
        /// Either inline data, or a pointer to the TRB
        data: TrbNormalData,
        /// Residual of the transfer length (bytes not transferred)
        transfer_length: u32,
        completion_code: TrbCompletionCode,
        slot_id: u8,
        endpoint_id: u8,
    },
    /// A command completed
    CommandCompletion {
        trb_pointer: u64,
        completion_code: TrbCompletionCode,
        param: u32,
        slot_id: u8,
        vf_id: u8,
    },
    /// Change to the status of a port
    PortStatusChange {
        /// Port that changed (numbered from 1)
        port_id: u8,
        completion_code: u8,
    },
    BandwidthRequest,
    Doorbell,
    HostController,
    DeviceNotification,
    MfindexWrap,
    /// Any other TRB
    Unk(Trb),
}

/// A completion code value, with unknown values read as `Invalid`.
pub open spec fn completion_code_or_invalid(v: u8) -> TrbCompletionCode {
    match completion_code_of(v) {
        Some(c) => c,
        None => TrbCompletionCode::Invalid,
    }
}

/// `e` is the event that `trb` encodes.
pub open spec fn event_of_trb(trb: Trb, e: Event) -> bool {
    match trb_type_of_code(word3_type_field(trb.word3)) {
        Some(TrbType::TransferEvent) => e matches Event::Transfer {
            data,
            transfer_length,
            completion_code,
            slot_id,
            endpoint_id,
        } && normal_data_of_words((trb.word3 >> 2u32) & 1 != 0, trb.word0, trb.word1, data)
            && transfer_length == trb.word2 & 0xFF_FFFF && completion_code
            == completion_code_or_invalid((trb.word2 >> 24u32) as u8) && slot_id == (trb.word3
            >> 24u32) as u8 && endpoint_id == ((trb.word3 >> 16u32) as u8) & 0x1F,
        Some(TrbType::CommandCompletionEvent) => e == Event::CommandCompletion {
            trb_pointer: (trb.word0 as u64) | ((trb.word1 as u64) << 32u64),
            param: trb.word2 & 0xFF_FFFF,
            completion_code: completion_code_or_invalid((trb.word2 >> 24u32) as u8),
            slot_id: (trb.word3 >> 24u32) as u8,
            vf_id: ((trb.word3 >> 16u32) as u8) & 0xF,
        },
        Some(TrbType::PortStatusChangeEvent) => e == Event::PortStatusChange {
            port_id: (trb.word0 >> 24u32) as u8,
            completion_code: (trb.word2 >> 24u32) as u8,
        },
        Some(TrbType::BandwidthRequestEvent) => e == Event::BandwidthRequest,
        Some(TrbType::DoorbellEvent) => e == Event::Doorbell,
        Some(TrbType::HostControllerEvent) => e == Event::HostController,
        Some(TrbType::DeviceNotificationEvent) => e == Event::DeviceNotification,
        Some(TrbType::MfindexWrapEvent) => e == Event::MfindexWrap,
        _ => e == Event::Unk(trb),
    }
}

/// Field positions of the fourth word of an event TRB, in arithmetic terms.
proof fn lemma_event_word3_fields(w: u32)
    by (bit_vector)
    ensures
        (w >> 10u32) & 63u32 == (w / 1024u32) % 64u32,
        ((w >> 24u32) as u8) as u32 == w / 0x100_0000u32,
        (((w >> 16u32) as u8) & 0xF) as u32 == (w / 0x1_0000u32) % 16u32,
        (((w >> 16u32) as u8) & 0x1F) as u32 == (w / 0x1_0000u32) % 32u32,
{
}

/// A 64-bit pointer assembled from its low and high words.
proof fn lemma_pointer_of_words(lo: u32, hi: u32)
    by (bit_vector)
    ensures
        (lo as u64) | ((hi as u64) << 32u64) == (lo as u64) + (hi as u64) * 0x1_0000_0000u64,
{
}

/// Where the identifiers of an event sit: a command completion event (type
/// 33) names its slot in the top byte of the fourth word, exactly as a
/// transfer event (type 32) does, whatever the byte below holds (the VF id
/// for a command completion, the endpoint for a transfer); the command's
/// address is the first two words.
pub proof fn lemma_event_ids(trb: Trb, e: Event)
    requires
        event_of_trb(trb, e),
    ensures
        (trb.word3 / 1024) % 64 == 33 ==> (e matches Event::CommandCompletion { slot_id, vf_id, trb_pointer, .. }
            && slot_id as int == trb.word3 / 0x100_0000 && vf_id as int == (trb.word3 / 0x1_0000) % 16
            && trb_pointer as int == trb.word0 + trb.word1 * 0x1_0000_0000),
        (trb.word3 / 1024) % 64 == 32 ==> (e matches Event::Transfer { slot_id, endpoint_id, .. }
            && slot_id as int == trb.word3 / 0x100_0000 && endpoint_id as int == (trb.word3 / 0x1_0000) % 32),
{
    lemma_event_word3_fields(trb.word3);
    lemma_pointer_of_words(trb.word0, trb.word1);
}

impl Event {
    /// Decode a completion code; unknown values become `Invalid`.
    pub fn get_completion_code(v: u8) -> (r: TrbCompletionCode)
        ensures
            r == completion_code_or_invalid(v),
    {
        match TrbCompletionCode::from_u8(v) {
            Ok(c) => c,
            Err(_) => TrbCompletionCode::Invalid,
        }
    }

    /// Decode an event TRB.
    pub fn from_trb(trb: Trb) -> (r: Event)
        ensures
            event_of_trb(trb, r),
    {
        match TrbType::from_trb_word3(trb.word3) {
            Ok(TrbType::TransferEvent) => Event::Transfer {
                data: TrbNormalData::from_words((trb.word3 >> 2) & 1 != 0, trb.word0, trb.word1),
                transfer_length: trb.word2 & 0xFF_FFFF,
                completion_code: Self::get_completion_code((trb.word2 >> 24) as u8),
                slot_id: (trb.word3 >> 24) as u8,
                endpoint_id: ((trb.word3 >> 16) as u8) & 0x1F,
            },
            Ok(TrbType::CommandCompletionEvent) => Event::CommandCompletion {
                trb_pointer: (trb.word0 as u64) | ((trb.word1 as u64) << 32),
                param: trb.word2 & 0xFF_FFFF,
                completion_code: Self::get_completion_code((trb.word2 >> 24) as u8),
                slot_id: (trb.word3 >> 24) as u8,
                vf_id: ((trb.word3 >> 16) as u8) & 0xF,
            },
            Ok(TrbType::PortStatusChangeEvent) => Event::PortStatusChange {
                port_id: (trb.word0 >> 24) as u8,
                completion_code: (trb.word2 >> 24) as u8,
            },
            Ok(TrbType::BandwidthRequestEvent) => Event::BandwidthRequest,
            Ok(TrbType::DoorbellEvent) => Event::Doorbell,
            Ok(TrbType::HostControllerEvent) => Event::HostController,
            Ok(TrbType::DeviceNotificationEvent) => Event::DeviceNotification,
            Ok(TrbType::MfindexWrapEvent) => Event::MfindexWrap,
            _ => Event::Unk(trb),
        }
    }
}

/// Interrupter zero.
#[derive(Copy, Clone)]
pub struct Zero;

impl Zero {
    /// The interrupter number.
    pub fn index(&self) -> (r: u16)
        ensures
            r == 0,
    {
        0
    }
}

/// An event ring of one interrupter. Entry zero of the ring page holds the
/// single segment-table entry; events occupy entries 1 onwards.
pub struct EventRing {
    /// Interrupter number
    pub index: u16,
    /// Physical address of the ring page
    pub ring_phys: u64,
    /// Number of TRB entries in the page
    pub ring_len: u16,
    /// Cycle state: an entry is new when its cycle bit is the opposite of this
    pub cycle_bit: bool,
    /// Next entry to read
    pub read_ofs: u16,
}

impl EventRing {
    pub open spec fn wf(&self) -> bool {
        &&& 2 <= self.ring_len
        &&& 1 <= self.read_ofs < self.ring_len
        &&& self.ring_phys + 16 * self.ring_len <= u64::MAX
    }

    /// A ring for interrupter `index`, empty, reading from entry 1.
    pub fn new(index: u16, ring_phys: u64, ring_len: u16) -> (r: EventRing)
        requires
            2 <= ring_len,
            ring_phys + 16 * ring_len <= u64::MAX,
        ensures
            r.wf(),
            r.index == index,
            r.ring_phys == ring_phys,
            r.ring_len == ring_len,
            !r.cycle_bit,
            r.read_ofs == 1,
    {
        EventRing { index, ring_phys, ring_len, cycle_bit: false, read_ofs: 1 }
    }

    /// A ring for interrupter zero.
    pub fn new_zero(ring_phys: u64, ring_len: u16) -> (r: EventRing)
        requires
            2 <= ring_len,
            ring_phys + 16 * ring_len <= u64::MAX,
        ensures
            r.wf(),
            r.index == 0,
            r.ring_phys == ring_phys,
            r.ring_len == ring_len,
            !r.cycle_bit,
            r.read_ofs == 1,
    {
        Self::new(Zero.index(), ring_phys, ring_len)
    }

    /// The segment-table entry: the address of entry 1 and the number of
    /// event entries.
    pub fn erst_entry(&self) -> (r: [u64; 2])
        requires
            self.wf(),
        ensures
            r[0] == self.ring_phys + 16,
            r[1] == self.ring_len - 1,
    {
        [self.ring_phys + 16, (self.ring_len - 1) as u64]
    }

    /// Dequeue pointer to report: the entry to read next, with the
    /// event-handler-busy bit (3) set.
    pub fn erdp(&self) -> (r: u64)
        requires
            self.wf(),
        ensures
            r == ((self.ring_phys + 16 * self.read_ofs) as u64 | 8u64),
    {
        (self.ring_phys + self.read_ofs as u64 * 16) | 8
    }

    /// Take the event in the entry at the read position, if the controller
    /// has written it, and advance.
    pub fn poll(&mut self, entry: Trb) -> (r: Option<Event>)
        requires
            old(self).wf(),
        ensures
            final(self).wf(),
            final(self).index == old(self).index,
            final(self).ring_phys == old(self).ring_phys,
            final(self).ring_len == old(self).ring_len,
            ((entry.word3 & 1 == 0) != old(self).cycle_bit) ==> r is None && *final(self) == *old(
                self,
            ),
            ((entry.word3 & 1 == 0) == old(self).cycle_bit) ==> (r matches Some(e) && event_of_trb(
                entry,
                e,
            )),
            ((entry.word3 & 1 == 0) == old(self).cycle_bit) ==> (if old(self).read_ofs + 1
                == old(self).ring_len {
                final(self).read_ofs == 1 && final(self).cycle_bit == !old(self).cycle_bit
            } else {
                final(self).read_ofs == old(self).read_ofs + 1 && final(self).cycle_bit == old(
                    self,
                ).cycle_bit
            }),
    {
        if ((entry.word3 & 1) == 0) != self.cycle_bit {
            return None;
        }
        self.read_ofs = self.read_ofs + 1;
        if self.read_ofs == self.ring_len {
            self.read_ofs = 1;
            self.cycle_bit = !self.cycle_bit;
        }
        Some(Event::from_trb(entry))
    }

    /// Whether the event-handler-busy bit is set in an ERDP value (new
    /// events were signalled).
    pub fn check_int(&self, erdp: u64) -> (r: bool)
        ensures
            r == (erdp & 8 != 0),
    {
        erdp & 8 != 0
    }
}

} // verus!
