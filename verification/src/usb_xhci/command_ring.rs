//! The command ring: a page holding the device context base array (and
//! possibly the scratchpad array) and the ring of command TRBs.
use vstd::prelude::*;
use crate::usb_xhci::hw::structs::{
    Trb, TrbType, TrbLink, trb_type_of_code, word3_type_field, trb_type_word3, bool_bit, bool_word,
};

verus! {

/// Size of one TRB, in bytes.
pub const ENT_SIZE: usize = 16;
/// Size of the ring page, in bytes.
pub const PAGE_SIZE: usize = 0x1000;
/// Offset (in TRBs) of the last entry of the page: the link entry, where
/// the enqueue position wraps.
pub const MAX_OFFSET: u8 = 255;

/// Offset (in TRBs) of the first command. With an in-page scratchpad
/// array (fewer than 128 buffers) the ring starts after that array, which
/// follows the 256-entry device context base array (2048 bytes). Otherwise
/// it starts at entry 64, byte 1024: inside the space of the base array,
/// whose entries 128 to 255 share their words with the ring, so only
/// devices in slots below 128 leave the ring intact.
pub open spec fn base_offset_spec(num_scratchpad_buffers: u16) -> u8 {
    if 0 < num_scratchpad_buffers < 128 {
        (((256 + num_scratchpad_buffers) * 8 + 15) / 16) as u8
    } else {
        64
    }
}

/// Offset of the first command for a controller with the given number of
/// scratchpad buffers (see [`base_offset_spec`] for where that falls).
pub fn command_base_offset(num_scratchpad_buffers: u16) -> (r: u8)
    ensures
        r == base_offset_spec(num_scratchpad_buffers),
        64 <= r <= 192,
{
    if num_scratchpad_buffers > 0 && num_scratchpad_buffers < 128 {
        (((256 + num_scratchpad_buffers as usize) * 8 + ENT_SIZE - 1) / ENT_SIZE) as u8
    } else {
        ((256 * 8) / 32) as u8
    }
}

/// Index (in TRBs) of the link entry that loops the ring back: the last
/// entry of the ring, which runs from `base_offset` to the end of the page.
pub open spec fn link_index(base_offset: u8) -> int {
    base_offset + (PAGE_SIZE - base_offset * ENT_SIZE) / (ENT_SIZE as int) - 1
}

/// The page after queueing `t` at entry `offset` with producer cycle
/// `cycle`: the entry is written, and when it is the last before the link
/// entry, the link entry takes the producer cycle (so the controller
/// follows it and toggles its own cycle).
pub open spec fn page_after_enqueue(page: Seq<u32>, offset: int, t: Trb, cycle: bool) -> Seq<u32> {
    let p = page_with_trb(page, offset, t);
    if offset + 1 == MAX_OFFSET {
        p.update(4 * MAX_OFFSET + 3, (page[4 * MAX_OFFSET + 3] & !1u32) | bool_bit(cycle))
    } else {
        p
    }
}

/// The TRB held by words `4 * i .. 4 * i + 4` of the page.
pub open spec fn trb_at(page: Seq<u32>, i: int) -> Trb {
    Trb { word0: page[4 * i], word1: page[4 * i + 1], word2: page[4 * i + 2], word3: page[4 * i + 3] }
}

/// `page` with TRB slot `i` replaced.
pub open spec fn page_with_trb(page: Seq<u32>, i: int, t: Trb) -> Seq<u32> {
    page.update(4 * i, t.word0).update(4 * i + 1, t.word1).update(4 * i + 2, t.word2).update(
        4 * i + 3,
        t.word3,
    )
}

/// Word `k` of a new ring page holds something (every other word is zero):
/// the scratchpad array pointer (words 0 and 1, when there are scratchpad
/// buffers), the in-page scratchpad array, or the link entry at the end.
pub open spec fn ring_page_word_set(num_scratchpad_buffers: u16, k: int) -> bool {
    ||| (num_scratchpad_buffers > 0 && 0 <= k < 2)
    ||| (0 < num_scratchpad_buffers < 128 && 512 <= k < 512 + 2 * num_scratchpad_buffers)
    ||| (4 * MAX_OFFSET <= k < 4 * MAX_OFFSET + 4)
}

/// Why a command cannot be queued.
#[derive(Copy, Clone, Debug, PartialEq, Eq, Structural)]
pub enum CommandRingError {
    /// The controller's dequeue pointer is not inside the ring
    CrcrOutOfRange,
    /// The ring is full
    Full,
}

/// The command ring and its page.
pub struct CommandRing {
    /// The page, as 32-bit words
    pub page: Vec<u32>,
    /// Physical address of the page
    pub page_phys: u64,
    /// Offset of the first command
    pub base_offset: u8,
    /// Current enqueue offset
    pub offset: u8,
    /// Current enqueue cycle bit
    pub cycle_bit: bool,
}

/// The enqueue position after one more command.
pub open spec fn advance(base_offset: u8, offset: u8, cycle: bool) -> (u8, bool) {
    if offset + 1 == MAX_OFFSET {
        (base_offset, !cycle)
    } else {
        ((offset + 1) as u8, cycle)
    }
}

impl CommandRing {
    pub open spec fn wf(&self) -> bool {
        &&& self.page@.len() == 1024
        &&& 64 <= self.base_offset <= 192
        &&& self.base_offset <= self.offset < MAX_OFFSET
        &&& self.page_phys + PAGE_SIZE <= u64::MAX
    }

    /// Index of the command at physical address `addr`, if it is inside the ring.
    pub open spec fn cmd_index_spec(&self, addr: u64) -> Option<u8> {
        if addr < self.page_phys || addr - self.page_phys >= PAGE_SIZE {
            None
        } else {
            let idx = (addr - self.page_phys) / 16;
            if self.base_offset <= idx <= MAX_OFFSET {
                Some(idx as u8)
            } else {
                None
            }
        }
    }

    /// Position the controller will read next, with its cycle bit, from a
    /// CRCR value, or an error when the ring cannot take a command.
    pub open spec fn enqueue_check(&self, crcr: u64) -> Result<(), CommandRingError> {
        match self.cmd_index_spec(crcr & !15u64) {
            None => Err(CommandRingError::CrcrOutOfRange),
            Some(read_idx) => {
                let ctrlr_cycle = crcr & 1 == 1;
                let ri = read_idx - 1;
                let (read_cycle, read_pos) = if ri < self.base_offset {
                    (!ctrlr_cycle, MAX_OFFSET - 1)
                } else {
                    (ctrlr_cycle, ri)
                };
                if read_pos == self.offset && read_cycle == self.cycle_bit {
                    Err(CommandRingError::Full)
                } else {
                    Ok(())
                }
            },
        }
    }

    /// The type of the command at `addr`, if `addr` is in the ring and the
    /// type is defined.
    pub open spec fn command_type_spec(&self, addr: u64) -> Option<TrbType> {
        match self.cmd_index_spec(addr) {
            None => None,
            Some(idx) => trb_type_of_code(word3_type_field(self.page@[4 * idx + 3])),
        }
    }

    /// Lay out a new ring page at `page_phys`.
    ///
    /// With fewer than 128 scratchpad buffers their array is stored in the
    /// page after the device context base array, else it lives at
    /// `scratchpad_array_phys`; entry zero of the base array points to it.
    /// The ring ends with a link back to its first command.
    pub fn new(
        page_phys: u64,
        num_scratchpad_buffers: u16,
        scratchpad_phys: &[u64],
        scratchpad_array_phys: u64,
    ) -> (r: CommandRing)
        requires
            page_phys + PAGE_SIZE <= u64::MAX,
            num_scratchpad_buffers < 1024,
            0 < num_scratchpad_buffers < 128 ==> scratchpad_phys@.len() == num_scratchpad_buffers,
        ensures
            r.wf(),
            r.page_phys == page_phys,
            r.base_offset == base_offset_spec(num_scratchpad_buffers),
            r.offset == r.base_offset,
            r.cycle_bit,
            num_scratchpad_buffers > 0 ==> r.page@[0] == (if num_scratchpad_buffers < 128 {
                (page_phys + 2048) as u32
            } else {
                scratchpad_array_phys as u32
            }),
            num_scratchpad_buffers > 0 ==> r.page@[1] == (if num_scratchpad_buffers < 128 {
                ((page_phys + 2048) as u64 >> 32u64) as u32
            } else {
                (scratchpad_array_phys >> 32u64) as u32
            }),
            0 < num_scratchpad_buffers < 128 ==> forall|i: int|
                0 <= i < num_scratchpad_buffers ==> r.page@[512 + 2 * i] == scratchpad_phys@[i] as u32
                    && r.page@[513 + 2 * i] == (scratchpad_phys@[i] >> 32u64) as u32,
            link_index(r.base_offset) == MAX_OFFSET,
            trb_at(r.page@, link_index(r.base_offset)) == TrbLink::new_loopback_spec(
                (page_phys + 16 * r.base_offset) as u64,
            ).trb_spec(true),
            forall|k: int| 0 <= k < 1024 && !ring_page_word_set(num_scratchpad_buffers, k) ==> #[trigger] r.page@[k] == 0,
    {
        let mut page: Vec<u32> = Vec::new();
        let mut i: usize = 0;
        while i < 1024
            invariant
                i <= 1024,
                page@.len() == i,
                forall|k: int| 0 <= k < i ==> #[trigger] page@[k] == 0,
            decreases 1024 - i,
        {
            page.push(0);
            i += 1;
        }
        let base_offset = command_base_offset(num_scratchpad_buffers);
        let n = num_scratchpad_buffers as usize;
        if num_scratchpad_buffers > 0 {
            let array_phys = if num_scratchpad_buffers < 128 {
                let mut j: usize = 0;
                while j < n
                    invariant
                        n == num_scratchpad_buffers,
                        0 < n < 128,
                        j <= n,
                        page@.len() == 1024,
                        scratchpad_phys@.len() == n,
                        forall|k: int|
                            0 <= k < j ==> page@[512 + 2 * k] == scratchpad_phys@[k] as u32
                                && page@[513 + 2 * k] == (scratchpad_phys@[k] >> 32u64) as u32,
                        forall|k: int| 0 <= k < 1024 && !(512 <= k < 512 + 2 * j) ==> #[trigger] page@[k] == 0,
                    decreases n - j,
                {
                    let v = scratchpad_phys[j];
                    page.set(512 + 2 * j, v as u32);
                    page.set(513 + 2 * j, (v >> 32) as u32);
                    j += 1;
                }
                page_phys + 2048
            } else {
                scratchpad_array_phys
            };
            page.set(0, array_phys as u32);
            page.set(1, (array_phys >> 32) as u32);
        }
        let start_addr = page_phys + base_offset as u64 * 16;
        let link_idx = base_offset as usize + (PAGE_SIZE - base_offset as usize * ENT_SIZE) / ENT_SIZE
            - 1;
        let link = TrbLink::new_loopback(start_addr).into_trb(true);
        page.set(4 * link_idx, link.word0);
        page.set(4 * link_idx + 1, link.word1);
        page.set(4 * link_idx + 2, link.word2);
        page.set(4 * link_idx + 3, link.word3);
        CommandRing { page, page_phys, base_offset, offset: base_offset, cycle_bit: true }
    }

    /// Value to program into DCBAAP: the page itself.
    pub fn dcbaap(&self) -> (r: u64)
        ensures
            r == self.page_phys,
    {
        self.page_phys
    }

    /// Value to program into CRCR: the first command, with the cycle bit set.
    pub fn crcr_init(&self) -> (r: u64)
        requires
            self.wf(),
        ensures
            r == ((self.page_phys + 16 * self.base_offset) as u64 | 1u64),
    {
        (self.page_phys + self.base_offset as u64 * 16) | 1
    }

    /// Store a device context pointer in entry `index` of the base array.
    pub fn set_dcba(&mut self, index: u8, handle: u64)
        requires
            old(self).wf(),
            index > 0,
        ensures
            final(self).wf(),
            final(self).page@ == old(self).page@.update(2 * index, handle as u32).update(
                2 * index + 1,
                (handle >> 32u64) as u32,
            ),
            final(self).page_phys == old(self).page_phys,
            final(self).base_offset == old(self).base_offset,
            final(self).offset == old(self).offset,
            final(self).cycle_bit == old(self).cycle_bit,
    {
        self.page.set(2 * index as usize, handle as u32);
        self.page.set(2 * index as usize + 1, (handle >> 32) as u32);
    }

    fn get_cmd_index(&self, addr: u64) -> (r: Option<u8>)
        requires
            self.wf(),
        ensures
            r == self.cmd_index_spec(addr),
    {
        let ofs = match addr.checked_sub(self.page_phys) {
            Some(v) => {
                if v < PAGE_SIZE as u64 {
                    v
                } else {
                    return None;
                }
            },
            None => {
                return None;
            },
        };
        assert(ofs / 16 < 256);
        let idx = (ofs / 16) as u8;
        if self.base_offset <= idx && idx <= MAX_OFFSET {
            Some(idx)
        } else {
            None
        }
    }

    /// Whether a command can be queued, given the controller's CRCR value.
    pub fn check_enqueue(&self, crcr: u64) -> (r: Result<(), CommandRingError>)
        requires
            self.wf(),
        ensures
            r == self.enqueue_check(crcr),
    {
        let ctrlr_addr = crcr & !15u64;
        let ctrlr_cycle_bit = (crcr & 1) == 1;
        let read_idx = match self.get_cmd_index(ctrlr_addr) {
            Some(v) => v,
            None => {
                return Err(CommandRingError::CrcrOutOfRange);
            },
        };
        let ri = read_idx - 1;
        let (read_cycle, read_pos) = if ri < self.base_offset {
            (!ctrlr_cycle_bit, MAX_OFFSET - 1)
        } else {
            (ctrlr_cycle_bit, ri)
        };
        if read_pos == self.offset && read_cycle == self.cycle_bit {
            Err(CommandRingError::Full)
        } else {
            Ok(())
        }
    }

    /// Queue a command TRB at the enqueue position and advance it. At the
    /// entry before the link the link entry is handed to the controller
    /// (it takes the producer cycle) and the position wraps back to the
    /// first command with the cycle flipped. The caller then rings doorbell
    /// zero.
    pub fn enqueue_command(&mut self, crcr: u64, command_desc: Trb)
        requires
            old(self).wf(),
            old(self).enqueue_check(crcr) == Ok::<(), CommandRingError>(()),
        ensures
            final(self).wf(),
            final(self).page@ == page_after_enqueue(old(self).page@, old(self).offset as int, command_desc, old(self).cycle_bit),
            (final(self).offset, final(self).cycle_bit) == advance(
                old(self).base_offset,
                old(self).offset,
                old(self).cycle_bit,
            ),
            final(self).base_offset == old(self).base_offset,
            final(self).page_phys == old(self).page_phys,
    {
        let o = self.offset as usize;
        self.page.set(4 * o, command_desc.word0);
        self.page.set(4 * o + 1, command_desc.word1);
        self.page.set(4 * o + 2, command_desc.word2);
        self.page.set(4 * o + 3, command_desc.word3);
        self.offset = self.offset + 1;
        if self.offset == MAX_OFFSET {
            let li = 4 * MAX_OFFSET as usize + 3;
            let w = self.page[li];
            self.page.set(li, (w & !1u32) | bool_word(self.cycle_bit));
            self.cycle_bit = !self.cycle_bit;
            self.offset = self.base_offset;
        }
    }

    /// Read back the type of the command at physical address `addr`.
    pub fn get_command_type(&self, addr: u64) -> (r: Option<TrbType>)
        requires
            self.wf(),
        ensures
            r == self.command_type_spec(addr),
    {
        let idx = match self.get_cmd_index(addr) {
            Some(v) => v,
            None => {
                return None;
            },
        };
        match TrbType::from_trb_word3(self.page[4 * idx as usize + 3]) {
            Ok(t) => Some(t),
            Err(_) => None,
        }
    }
}

/// The type read back at the address of a command just queued is the type
/// that command was built with.
pub proof fn lemma_enqueued_command_type(
    before: CommandRing,
    after: CommandRing,
    command_desc: Trb,
    t: TrbType,
    cycle: bool,
)
    requires
        before.wf(),
        after.page@ == page_after_enqueue(before.page@, before.offset as int, command_desc, before.cycle_bit),
        after.page_phys == before.page_phys,
        after.base_offset == before.base_offset,
        command_desc.word3 & 0xFFFFu32 == trb_type_word3(t, cycle),
    ensures
        after.command_type_spec((before.page_phys + 16 * before.offset) as u64) == Some(t),
{
    let addr = (before.page_phys + 16 * before.offset) as u64;
    assert((addr - before.page_phys) / 16 == before.offset);
    assert(after.page@[4 * before.offset + 3] == command_desc.word3);
    crate::usb_xhci::hw::structs::lemma_trb_type_word3_roundtrip(t, cycle);
    let w = command_desc.word3;
    let c = trb_type_word3(t, cycle);
    assert((w >> 10u32) & 63u32 == (c >> 10u32) & 63u32) by (bit_vector)
        requires
            w & 0xFFFFu32 == c,
    ;
}

/// An address outside the ring's command entries reads back no command
/// type: one below the ring page, at or past its end, or at an entry before
/// the first command.
pub proof fn lemma_command_type_outside_ring(r: CommandRing, addr: u64)
    requires
        r.wf(),
        addr < r.page_phys || addr >= r.page_phys + PAGE_SIZE || (addr - r.page_phys) / 16 < r.base_offset,
    ensures
        r.command_type_spec(addr) is None,
{
}

} // verus!
