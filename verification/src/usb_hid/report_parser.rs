//! Parser for USB HID report descriptors.
use vstd::prelude::*;

verus! {

/// Number of bytes taken by a short item whose first byte is `op_byte`.
pub open spec fn item_len(op_byte: u8) -> nat {
    let sz = op_byte & 3;
    if sz == 0 {
        1
    } else if sz == 1 {
        2
    } else if sz == 2 {
        3
    } else {
        5
    }
}

/// Little-endian value of the data bytes of the item at the start of `s`
/// (missing high bytes are zero).
pub open spec fn item_value(s: Seq<u8>) -> u32
    recommends
        s.len() >= item_len(s[0]),
{
    let sz = s[0] & 3;
    if sz == 0 {
        0
    } else if sz == 1 {
        s[1] as u32
    } else if sz == 2 {
        (s[1] as u32) | ((s[2] as u32) << 8)
    } else {
        (s[1] as u32) | ((s[2] as u32) << 8) | ((s[3] as u32) << 16) | ((s[4] as u32) << 24)
    }
}

/// An item can be read from the start of `s` (it is present and complete).
pub open spec fn item_available(s: Seq<u8>) -> bool {
    s.len() > 0 && s.len() >= item_len(s[0])
}

/// The item at the start of `s` is a long item, which the parser does not handle.
pub open spec fn is_long_item(s: Seq<u8>) -> bool {
    item_available(s) && s[0] == 0xFE
}

/// The sequence of `(id, value)` items that iterating over `s` yields.
pub open spec fn raw_items(s: Seq<u8>) -> Seq<(u8, u32)>
    decreases s.len(),
{
    if item_available(s) {
        seq![(s[0], item_value(s))] + raw_items(s.skip(item_len(s[0]) as int))
    } else {
        Seq::empty()
    }
}

/// Iterating over `s` never meets a long item.
pub open spec fn raw_items_ok(s: Seq<u8>) -> bool
    decreases s.len(),
{
    if item_available(s) {
        !is_long_item(s) && raw_items_ok(s.skip(item_len(s[0]) as int))
    } else {
        true
    }
}

/// Iterate over raw entries in a report descriptor.
pub struct IterRaw<'a>(pub &'a [u8]);

impl<'a> IterRaw<'a> {
    /// Read the next `(id, value)` item, advancing past it.
    /// Stops (returning `None` and leaving the data unchanged) when the data is
    /// exhausted or the next item is truncated.
    pub fn next(&mut self) -> (r: Option<(u8, u32)>)
        requires
            !is_long_item(old(self).0@),
        ensures
            item_available(old(self).0@) ==> r == Some((old(self).0@[0], item_value(old(self).0@)))
                && final(self).0@ == old(self).0@.skip(item_len(old(self).0@[0]) as int),
            !item_available(old(self).0@) ==> r is None && final(self).0@ == old(self).0@,
    {
        if self.0.len() == 0 {
            return None;
        }
        let op_byte = self.0[0];
        let sz = op_byte & 3;
        let len: usize;
        let val: u32;
        if sz == 0 {
            len = 1;
            val = 0;
        } else if sz == 1 {
            len = 2;
            if self.0.len() < len {
                return None;
            }
            val = self.0[1] as u32;
        } else if sz == 2 {
            len = 3;
            if self.0.len() < len {
                return None;
            }
            val = (self.0[1] as u32) | ((self.0[2] as u32) << 8);
        } else {
            len = 5;
            if self.0.len() < len {
                return None;
            }
            val = (self.0[1] as u32) | ((self.0[2] as u32) << 8) | ((self.0[3] as u32) << 16)
                | ((self.0[4] as u32) << 24);
        }
        let rest = slice_skip(self.0, len);
        self.0 = rest;
        Some((op_byte, val))
    }
}

/// The tail of a slice after its first `n` elements.
pub fn slice_skip<'a, T>(s: &'a [T], n: usize) -> (r: &'a [T])
    requires
        n <= s@.len(),
    ensures
        r@ == s@.skip(n as int),
{
    let (_, tail) = s.split_at(n);
    proof {
        assert(tail@ =~= s@.skip(n as int));
    }
    tail
}

/// Flags of an `Input` main item.
#[derive(Copy, Clone, Debug)]
pub struct InputFlags(pub u32);

impl InputFlags {
    /// Bit 0: data is constant.
    pub fn is_constant(&self) -> (r: bool)
        ensures
            r == (self.0 & 1 != 0),
    {
        (self.0 & 1) != 0
    }

    /// Bit 1: each field is a variable (not an array index).
    pub fn is_variable(&self) -> (r: bool)
        ensures
            r == (self.0 & 2 != 0),
    {
        (self.0 & 2) != 0
    }

    /// Bit 2: values are relative.
    pub fn is_relative(&self) -> (r: bool)
        ensures
            r == (self.0 & 4 != 0),
    {
        (self.0 & 4) != 0
    }

    /// Bit 3: values wrap.
    pub fn is_wrap(&self) -> (r: bool)
        ensures
            r == (self.0 & 8 != 0),
    {
        (self.0 & 8) != 0
    }
}

/// A parsed operator in a report descriptor.
#[derive(Debug)]
pub enum Op {
    Input(InputFlags),
    Output(u32),
    Collection(u32),
    Feature(u32),
    EndCollection,
    UsagePage(u32),
    LogicalMin(i32),
    LogicalMax(i32),
    PhysicalMin(i32),
    PhysicalMax(i32),
    UnitExponent(u32),
    Unit(u32),
    ReportSize(u32),
    ReportId(u32),
    ReportCount(u32),
    Push,
    Pop,
    UsageSingle(u32, bool),
    UsageRangeStart(u32, bool),
    UsageRangeEnd(u32, bool),
    DesignatorSingle(u32),
    DesignatorRangeStart(u32),
    DesignatorRangeEnd(u32),
    _Reserved(u32),
    StringSingle(u32),
    StringRangeStart(u32),
    StringRangeEnd(u32),
    Delimiter,
    LongItem(u32),
    Unk(u8, u32),
}

/// Sign-extend a one- or two-byte value (`sz` is the item's size code).
pub open spec fn sign_extend(v: u32, sz: u8) -> i32 {
    let sign_bits: u32 = if sz == 1 {
        if v >= 0x80 { !0x7Fu32 } else { 0 }
    } else if sz == 2 {
        if v >= 0x8000 { !0x7FFFu32 } else { 0 }
    } else {
        0
    };
    (v | sign_bits) as i32
}

fn i32_se(v: u32, sz: u8) -> (r: i32)
    ensures
        r == sign_extend(v, sz),
{
    let sign_bits: u32 = if sz == 1 {
        if v >= 0x80 { !0x7Fu32 } else { 0 }
    } else if sz == 2 {
        if v >= 0x8000 { !0x7FFFu32 } else { 0 }
    } else {
        0
    };
    (v | sign_bits) as i32
}

/// The operator that an item with tag byte `id` and value `val` denotes.
pub open spec fn op_from_pair(id: u8, val: u32) -> Op {
    let tag = id & 0xFC;
    let sz = id & 3;
    if tag == 0x80 { Op::Input(InputFlags(val)) }
    else if tag == 0x90 { Op::Output(val) }
    else if tag == 0xA0 { Op::Collection(val) }
    else if tag == 0xB0 { Op::Feature(val) }
    else if tag == 0xC0 { Op::EndCollection }
    else if tag == 0x04 { Op::UsagePage(val) }
    else if tag == 0x14 { Op::LogicalMin(sign_extend(val, sz)) }
    else if tag == 0x24 { Op::LogicalMax(sign_extend(val, sz)) }
    else if tag == 0x34 { Op::PhysicalMin(sign_extend(val, sz)) }
    else if tag == 0x44 { Op::PhysicalMax(sign_extend(val, sz)) }
    else if tag == 0x54 { Op::UnitExponent(val) }
    else if tag == 0x64 { Op::Unit(val) }
    else if tag == 0x74 { Op::ReportSize(val) }
    else if tag == 0x84 { Op::ReportId(val) }
    else if tag == 0x94 { Op::ReportCount(val) }
    else if tag == 0xA4 { Op::Push }
    else if tag == 0xB4 { Op::Pop }
    else if tag == 0x08 { Op::UsageSingle(val, sz == 3) }
    else if tag == 0x18 { Op::UsageRangeStart(val, sz == 3) }
    else if tag == 0x28 { Op::UsageRangeEnd(val, sz == 3) }
    else if tag == 0x38 { Op::DesignatorSingle(val) }
    else if tag == 0x48 { Op::DesignatorRangeStart(val) }
    else if tag == 0x58 { Op::DesignatorRangeEnd(val) }
    else if tag == 0x68 { Op::_Reserved(val) }
    else if tag == 0x78 { Op::StringSingle(val) }
    else if tag == 0x88 { Op::StringRangeStart(val) }
    else if tag == 0x98 { Op::StringRangeEnd(val) }
    else if tag == 0xA8 { Op::Delimiter }
    else if tag == 0xFC { Op::LongItem(val) }
    else { Op::Unk(id, val) }
}

impl Op {
    /// Parse a pair of ID and value into an `Op`.
    pub fn from_pair(id: u8, val: u32) -> (r: Op)
        ensures
            r == op_from_pair(id, val),
    {
        let tag = id & 0xFC;
        let sz = id & 3;
        if tag == 0x80 { Op::Input(InputFlags(val)) }
        else if tag == 0x90 { Op::Output(val) }
        else if tag == 0xA0 { Op::Collection(val) }
        else if tag == 0xB0 { Op::Feature(val) }
        else if tag == 0xC0 { Op::EndCollection }
        else if tag == 0x04 { Op::UsagePage(val) }
        else if tag == 0x14 { Op::LogicalMin(i32_se(val, sz)) }
        else if tag == 0x24 { Op::LogicalMax(i32_se(val, sz)) }
        else if tag == 0x34 { Op::PhysicalMin(i32_se(val, sz)) }
        else if tag == 0x44 { Op::PhysicalMax(i32_se(val, sz)) }
        else if tag == 0x54 { Op::UnitExponent(val) }
        else if tag == 0x64 { Op::Unit(val) }
        else if tag == 0x74 { Op::ReportSize(val) }
        else if tag == 0x84 { Op::ReportId(val) }
        else if tag == 0x94 { Op::ReportCount(val) }
        else if tag == 0xA4 { Op::Push }
        else if tag == 0xB4 { Op::Pop }
        else if tag == 0x08 { Op::UsageSingle(val, sz == 3) }
        else if tag == 0x18 { Op::UsageRangeStart(val, sz == 3) }
        else if tag == 0x28 { Op::UsageRangeEnd(val, sz == 3) }
        else if tag == 0x38 { Op::DesignatorSingle(val) }
        else if tag == 0x48 { Op::DesignatorRangeStart(val) }
        else if tag == 0x58 { Op::DesignatorRangeEnd(val) }
        else if tag == 0x68 { Op::_Reserved(val) }
        else if tag == 0x78 { Op::StringSingle(val) }
        else if tag == 0x88 { Op::StringRangeStart(val) }
        else if tag == 0x98 { Op::StringRangeEnd(val) }
        else if tag == 0xA8 { Op::Delimiter }
        else if tag == 0xFC { Op::LongItem(val) }
        else { Op::Unk(id, val) }
    }
}

/// A list of local values (usages, designators or strings).
#[derive(Copy, Clone, Debug)]
pub enum List {
    Unset,
    Single(u32),
    Double([u32; 2]),
    ProtoRange(u32),
    Range(u32, u32),
}

/// Reading from `l` does not fail (a range never ends before it starts).
pub open spec fn list_get_ok(l: List) -> bool {
    !(l matches List::Range(s, e) && e < s)
}

/// Value that `l` gives for index `idx`.
pub open spec fn list_get(l: List, idx: int) -> u32 {
    match l {
        List::Unset => 0,
        List::Single(v) => v,
        List::Double(a) => if idx < 1 { a@[idx] } else { a@[1] },
        List::ProtoRange(_) => 0,
        List::Range(s, e) => if idx <= e - s { (s + idx) as u32 } else { e },
    }
}

/// `l` after a single value `v` is added.
pub open spec fn list_set_single(l: List, v: u32) -> List {
    match l {
        List::Unset => List::Single(v),
        List::Single(p) => List::Double([p, v]),
        _ => l,
    }
}

/// `l` after a range end `v` is given.
pub open spec fn list_set_end(l: List, v: u32) -> List {
    match l {
        List::ProtoRange(s) => List::Range(s, v),
        _ => l,
    }
}

impl List {
    /// A fresh, unset list.
    pub fn new() -> (r: List)
        ensures
            r == List::Unset,
    {
        List::Unset
    }

    /// Add a single value (a third value is ignored).
    pub fn set_single(&mut self, v: u32)
        ensures
            *final(self) == list_set_single(*old(self), v),
    {
        match *self {
            List::Unset => *self = List::Single(v),
            List::Single(p) => {
                *self = List::Double([p, v]);
            },
            _ => {},
        }
    }

    /// Start a range.
    pub fn set_start(&mut self, v: u32)
        ensures
            *final(self) == List::ProtoRange(v),
    {
        *self = List::ProtoRange(v);
    }

    /// End a started range (ignored if no range was started).
    pub fn set_end(&mut self, v: u32)
        ensures
            *final(self) == list_set_end(*old(self), v),
    {
        match *self {
            List::ProtoRange(s) => {
                *self = List::Range(s, v);
            },
            _ => {},
        }
    }

    /// Get value for the specified index.
    pub fn get(&self, idx: usize) -> (r: u32)
        requires
            list_get_ok(*self),
        ensures
            r == list_get(*self, idx as int),
    {
        match *self {
            List::Unset => 0,
            List::Single(v) => v,
            List::Double(l) => {
                let i: usize = if idx < 1 { idx } else { 1 };
                l[i]
            },
            List::ProtoRange(_v) => 0,
            List::Range(s, e) => {
                if idx <= (e - s) as usize {
                    s + idx as u32
                } else {
                    e
                }
            },
        }
    }
}

/// Parser state: global items and the local items since the last main item.
#[derive(Copy, Clone, Debug)]
pub struct ParseState {
    pub usage_page: u32,
    pub logical_range: (Option<i32>, Option<i32>),
    pub physical_range: (Option<i32>, Option<i32>),
    pub unit_exponent: Option<u32>,
    pub unit: Option<u32>,
    pub report_size: u32,
    pub report_id: Option<u32>,
    pub report_count: u32,
    pub usage: List,
    pub designator: List,
    pub string: List,
}

/// The initial parser state.
pub open spec fn parse_state_init() -> ParseState {
    ParseState {
        usage_page: 0,
        logical_range: (None, None),
        physical_range: (None, None),
        unit_exponent: None,
        unit: None,
        report_size: 0,
        report_id: None,
        report_count: 0,
        usage: List::Unset,
        designator: List::Unset,
        string: List::Unset,
    }
}

/// `s` with its local items cleared.
pub open spec fn clear_locals(s: ParseState) -> ParseState {
    ParseState { usage: List::Unset, designator: List::Unset, string: List::Unset, ..s }
}

/// Updating the state with `op` does not fail (push, pop and delimiters are not handled).
pub open spec fn update_ok(op: Op) -> bool {
    !(op is Push || op is Pop || op is Delimiter)
}

/// Usage value formed from a local usage item: the current page is added
/// unless the item carried a full 32-bit usage.
pub open spec fn full_usage(page: u32, v: u32, is32: bool) -> u32 {
    (if is32 { 0 } else { page }) | v
}

/// The state after applying `op` to `s`.
pub open spec fn parse_state_update(s: ParseState, op: Op) -> ParseState {
    match op {
        Op::Input(_) => clear_locals(s),
        Op::Output(_) => clear_locals(s),
        Op::Feature(_) => clear_locals(s),
        Op::UsagePage(v) => ParseState { usage_page: v << 16, ..s },
        Op::LogicalMin(v) => ParseState { logical_range: (Some(v), s.logical_range.1), ..s },
        Op::LogicalMax(v) => ParseState { logical_range: (s.logical_range.0, Some(v)), ..s },
        Op::PhysicalMin(v) => ParseState { physical_range: (Some(v), s.physical_range.1), ..s },
        Op::PhysicalMax(v) => ParseState { physical_range: (s.physical_range.0, Some(v)), ..s },
        Op::UnitExponent(v) => ParseState { unit_exponent: Some(v), ..s },
        Op::Unit(v) => ParseState { unit: Some(v), ..s },
        Op::ReportSize(v) => ParseState { report_size: v, ..s },
        Op::ReportId(v) => ParseState { report_id: Some(v), ..s },
        Op::ReportCount(v) => ParseState { report_count: v, ..s },
        Op::UsageSingle(v, is32) => ParseState {
            usage: list_set_single(s.usage, full_usage(s.usage_page, v, is32)),
            ..s
        },
        Op::UsageRangeStart(v, is32) => ParseState {
            usage: List::ProtoRange(full_usage(s.usage_page, v, is32)),
            ..s
        },
        Op::UsageRangeEnd(v, is32) => ParseState {
            usage: list_set_end(s.usage, full_usage(s.usage_page, v, is32)),
            ..s
        },
        Op::DesignatorSingle(v) => ParseState { designator: list_set_single(s.designator, v), ..s },
        Op::DesignatorRangeStart(v) => ParseState { designator: List::ProtoRange(v), ..s },
        Op::DesignatorRangeEnd(v) => ParseState { designator: list_set_end(s.designator, v), ..s },
        Op::StringSingle(v) => ParseState { string: list_set_single(s.string, v), ..s },
        Op::StringRangeStart(v) => ParseState { string: List::ProtoRange(v), ..s },
        Op::StringRangeEnd(v) => ParseState { string: list_set_end(s.string, v), ..s },
        _ => s,
    }
}

impl ParseState {
    /// The initial (all-empty) state.
    pub fn new() -> (r: ParseState)
        ensures
            r == parse_state_init(),
    {
        ParseState {
            usage_page: 0,
            logical_range: (None, None),
            physical_range: (None, None),
            unit_exponent: None,
            unit: None,
            report_size: 0,
            report_id: None,
            report_count: 0,
            usage: List::Unset,
            designator: List::Unset,
            string: List::Unset,
        }
    }

    /// Reset the local items (done after each main item).
    pub fn clear_local(&mut self)
        ensures
            *final(self) == clear_locals(*old(self)),
    {
        self.usage = List::Unset;
        self.designator = List::Unset;
        self.string = List::Unset;
    }

    /// Update state using the provided operation.
    pub fn update(&mut self, op: Op)
        requires
            update_ok(op),
        ensures
            *final(self) == parse_state_update(*old(self), op),
    {
        match op {
            Op::Input(_) => { self.clear_local(); },
            Op::Output(_) => { self.clear_local(); },
            Op::Feature(_) => { self.clear_local(); },
            Op::Collection(_) => {},
            Op::EndCollection => {},
            Op::UsagePage(v) => self.usage_page = v << 16,
            Op::LogicalMin(v) => self.logical_range.0 = Some(v),
            Op::LogicalMax(v) => self.logical_range.1 = Some(v),
            Op::PhysicalMin(v) => self.physical_range.0 = Some(v),
            Op::PhysicalMax(v) => self.physical_range.1 = Some(v),
            Op::UnitExponent(v) => self.unit_exponent = Some(v),
            Op::Unit(v) => self.unit = Some(v),
            Op::ReportSize(v) => self.report_size = v,
            Op::ReportId(v) => self.report_id = Some(v),
            Op::ReportCount(v) => self.report_count = v,
            Op::UsageSingle(v, is32) => {
                let u = (if is32 { 0 } else { self.usage_page }) | v;
                self.usage.set_single(u)
            },
            Op::UsageRangeStart(v, is32) => {
                let u = (if is32 { 0 } else { self.usage_page }) | v;
                self.usage.set_start(u)
            },
            Op::UsageRangeEnd(v, is32) => {
                let u = (if is32 { 0 } else { self.usage_page }) | v;
                self.usage.set_end(u)
            },
            Op::DesignatorSingle(v) => self.designator.set_single(v),
            Op::DesignatorRangeStart(v) => self.designator.set_start(v),
            Op::DesignatorRangeEnd(v) => self.designator.set_end(v),
            Op::StringSingle(v) => self.string.set_single(v),
            Op::StringRangeStart(v) => self.string.set_start(v),
            Op::StringRangeEnd(v) => self.string.set_end(v),
            Op::_Reserved(..) => {},
            Op::LongItem(..) => {},
            Op::Unk(..) => {},
            _ => {},
        }
    }
}

} // verus!
