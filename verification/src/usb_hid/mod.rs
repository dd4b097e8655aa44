//! USB HID (Human Interface Device) class driver logic.
use vstd::prelude::*;
use self::report_parser::{
    IterRaw, Op, ParseState, InputFlags, item_available, is_long_item, item_len, item_value,
    op_from_pair, parse_state_init, parse_state_update, update_ok, list_get, list_get_ok,
};
use self::bitstream::{BitStream, read_bits, sign_extend_bits};
use self::sinks::Group;
use self::sinks::keyboard::{BitSet256, key_changes};
use self::sinks::mouse::{Mouse, CursorUpdate, button_changes};

pub mod report_parser;
pub mod sinks;
pub mod bitstream;

use crate::usb_core::device::MatchLevel;

verus! {

/// The first byte of a long item (0xFE) has the size field 2.
pub(crate) proof fn lemma_long_item_tag()
    by (bit_vector)
    ensures
        0xFEu8 & 3u8 == 2u8,
{
}

/// The HID class driver.
pub struct Driver;

impl Driver {
    /// Driver name.
    pub fn name(&self) -> (r: &'static str)
        ensures
            r@ == "hid"@,
    {
        proof {
            reveal_strlit("hid");
        }
        "hid"
    }

    /// HID interfaces have class code 3 (any subclass and protocol).
    pub fn matches(&self, _vendor_id: u16, _device_id: u16, class_code: u32) -> (r: MatchLevel)
        ensures
            r == (if (class_code >> 16u32) & 0xFF == 3 {
                MatchLevel::Generic
            } else {
                MatchLevel::Unmatched
            }),
    {
        if (class_code >> 16) & 0xFF == 3 {
            MatchLevel::Generic
        } else {
            MatchLevel::Unmatched
        }
    }
}

/// Decoding model: the parser state, the unread report bits, the keys set in
/// the keyboard sink's current report and the mouse sink.
pub struct Decode {
    pub state: ParseState,
    pub bits: Seq<bool>,
    pub keys: Option<Set<int>>,
    pub mouse: Option<Mouse>,
}

/// Usage ranges handled by the decoder.
pub open spec fn is_key_usage(u: u32) -> bool {
    0x7_0000 <= u <= 0x7_00FF
}

pub open spec fn is_xy_usage(u: u32) -> bool {
    0x1_0030 <= u <= 0x1_0031
}

pub open spec fn is_button_usage(u: u32) -> bool {
    0x9_0001 <= u <= 0x9_0005
}

/// Normalised absolute position of `val` in the logical range `lmin..lmax`,
/// or `None` where the computation fails (overflow or an empty range).
pub open spec fn normalise(val: i32, lmin: i32, lmax_opt: Option<i32>) -> Option<u16> {
    if lmin == i32::MAX {
        None
    } else {
        let lmax: i32 = match lmax_opt {
            Some(v) => v,
            None => (lmin + 1) as i32,
        };
        let d = val - lmin;
        let den = lmax - lmin;
        if d < 0 || d > i32::MAX || den < i32::MIN || den > i32::MAX || den == 0 {
            None
        } else {
            let den_u = (den as i32) as u64;
            Some(((d * 0xFFFF) / (den_u as int)) as u16)
        }
    }
}

/// Effect of one report field with value `val` and usage `usage` on the sinks.
pub open spec fn field_effect(d: Decode, flags: InputFlags, usage: u32, val: i32) -> Option<Decode> {
    if is_key_usage(usage) {
        if val != 0 {
            match d.keys {
                Some(k) => Some(Decode { keys: Some(k.insert((usage & 0xFF) as int)), ..d }),
                None => None,
            }
        } else {
            Some(d)
        }
    } else if is_xy_usage(usage) {
        match d.mouse {
            Some(m) => {
                let is_x = usage & 1 == 0;
                if flags.0 & 4 != 0 {
                    let m2 = if is_x {
                        Mouse { x_value: (val as i16) as u16, is_relative: true, ..m }
                    } else {
                        Mouse { y_value: (val as i16) as u16, is_relative: true, ..m }
                    };
                    Some(Decode { mouse: Some(m2), ..d })
                } else {
                    match normalise(val, d.state.logical_range.0.unwrap_or(0), d.state.logical_range.1) {
                        Some(n) => {
                            let m2 = if is_x {
                                Mouse { x_value: n, is_relative: false, ..m }
                            } else {
                                Mouse { y_value: n, is_relative: false, ..m }
                            };
                            Some(Decode { mouse: Some(m2), ..d })
                        },
                        None => None,
                    }
                }
            },
            None => None,
        }
    } else if is_button_usage(usage) {
        let num = usage - 0x9_0001;
        if num < 1 {
            None
        } else {
            match d.mouse {
                Some(m) => {
                    let idx = num - 1;
                    let m2 = if val != 0 && idx < 16 {
                        Mouse { cur_buttons: m.cur_buttons | (1u16 << (idx as u16)), ..m }
                    } else {
                        m
                    };
                    Some(Decode { mouse: Some(m2), ..d })
                },
                None => None,
            }
        }
    } else {
        Some(d)
    }
}

/// Decoding field `i` of an input item.
pub open spec fn field_step(d: Decode, flags: InputFlags, i: int) -> Option<Decode> {
    let size = d.state.report_size;
    if size < 1 || size > 32 || !list_get_ok(d.state.usage) {
        None
    } else {
        let rd = read_bits(d.bits, size as nat);
        let val: i32 = match rd.0 {
            Some(u) => sign_extend_bits(u, size as nat),
            None => 0,
        };
        let idx: int = if flags.0 & 2 != 0 { i } else { (val as usize) as int };
        let usage = list_get(d.state.usage, idx);
        field_effect(Decode { bits: rd.1, ..d }, flags, usage, val)
    }
}

/// Decoding fields `i .. n` of an input item.
pub open spec fn fields_walk(d: Decode, flags: InputFlags, i: int, n: int) -> Option<Decode>
    decreases n - i,
{
    if i >= n {
        Some(d)
    } else {
        match field_step(d, flags, i) {
            Some(d2) => fields_walk(d2, flags, i + 1, n),
            None => None,
        }
    }
}

/// Decoding with one report-descriptor item.
pub open spec fn decode_step(d: Decode, op: Op) -> Option<Decode> {
    if !update_ok(op) {
        None
    } else {
        let d2 = match op {
            Op::Input(flags) => fields_walk(d, flags, 0, d.state.report_count as int),
            _ => Some(d),
        };
        match d2 {
            Some(d3) => Some(Decode { state: parse_state_update(d3.state, op), ..d3 }),
            None => None,
        }
    }
}

/// Decoding with the items of the report descriptor `s`.
pub open spec fn decode_walk(s: Seq<u8>, d: Decode) -> Option<Decode>
    decreases s.len(),
{
    if !item_available(s) {
        Some(d)
    } else if is_long_item(s) {
        None
    } else {
        match decode_step(d, op_from_pair(s[0], item_value(s))) {
            Some(d2) => decode_walk(s.skip(item_len(s[0]) as int), d2),
            None => None,
        }
    }
}

/// The key set of a keyboard's current report.
pub open spec fn key_set(b: BitSet256) -> Set<int> {
    Set::new(|i: int| b.has(i))
}

/// The sinks `g` agree with the decode model `d`, the keyboard's last report
/// being `last`.
pub open spec fn sinks_match(g: Group, d: Decode, last: Option<BitSet256>) -> bool {
    &&& (g.keyboard is Some) == (d.keys is Some)
    &&& (last is Some) == (d.keys is Some)
    &&& (g.keyboard matches Some(k) ==> k.last_state == last->0 && key_set(k.cur_state) == d.keys->0)
    &&& g.mouse == d.mouse
}

/// Initial decode model for report bits `data` and the sinks `g`.
pub open spec fn decode_init(data: Seq<u8>, g: Group) -> Decode {
    Decode {
        state: parse_state_init(),
        bits: Seq::new((data.len() * 8) as nat, |k: int| crate::usb_hid::bitstream::data_bit(data, k)),
        keys: match g.keyboard { Some(k) => Some(key_set(k.cur_state)), None => None },
        mouse: g.mouse,
    }
}

/// Last-report state of the keyboard sink, if there is one.
pub open spec fn last_keys(g: Group) -> Option<BitSet256> {
    match g.keyboard { Some(k) => Some(k.last_state), None => None }
}

proof fn lemma_field_fails(d_item: Decode, d: Decode, flags: InputFlags, i: int, count: int)
    requires
        0 <= i < count,
        fields_walk(d_item, flags, 0, count) == fields_walk(d, flags, i, count),
        field_step(d, flags, i) is None,
    ensures
        fields_walk(d_item, flags, 0, count) is None,
{
}

/// Over a non-empty logical range `lmin ..= lmax` (whose width fits in an
/// `i32`), a value in range is scaled linearly onto `0 ..= 0xFFFF`, measured
/// from `lmin`: its normalised value is `(val - lmin) * 0xFFFF / (lmax - lmin)`,
/// so the bottom of the range gives 0 and the top gives 0xFFFF.
pub proof fn lemma_normalise_scales(val: i32, lmin: i32, lmax: i32)
    requires
        lmin <= val <= lmax,
        lmin < lmax,
        lmax - lmin <= i32::MAX,
    ensures
        normalise(val, lmin, Some(lmax)) matches Some(n) && n as int == (val - lmin) * 0xFFFF / (lmax - lmin),
        val == lmin ==> normalise(val, lmin, Some(lmax)) == Some(0u16),
        val == lmax ==> normalise(val, lmin, Some(lmax)) == Some(0xFFFFu16),
{
    let d: int = val - lmin;
    let den: int = lmax - lmin;
    assert(0 <= d <= den);
    assert(lmin != i32::MAX);
    assert(((den as i32) as u64) as int == den);
    assert(0 <= d * 0xFFFF / den <= 0xFFFF) by (nonlinear_arith)
        requires 0 <= d <= den, den > 0;
    assert(d == den ==> d * 0xFFFF / den == 0xFFFF) by (nonlinear_arith)
        requires den > 0;
    assert(d == 0 ==> d * 0xFFFF / den == 0) by (nonlinear_arith)
        requires den > 0;
}

/// Normalisation keeps the order of positions: a larger value in the same
/// range never gives a smaller normalised coordinate.
pub proof fn lemma_normalise_monotone(v1: i32, v2: i32, lmin: i32, lmax: i32)
    requires
        lmin <= v1 <= v2 <= lmax,
        lmin < lmax,
        lmax - lmin <= i32::MAX,
    ensures
        normalise(v1, lmin, Some(lmax)) matches Some(n1) && normalise(v2, lmin, Some(lmax)) matches Some(n2)
            && n1 <= n2,
{
    lemma_normalise_scales(v1, lmin, lmax);
    lemma_normalise_scales(v2, lmin, lmax);
    let d1: int = v1 - lmin;
    let d2: int = v2 - lmin;
    let den: int = lmax - lmin;
    assert(d1 * 0xFFFF / den <= d2 * 0xFFFF / den) by (nonlinear_arith)
        requires 0 <= d1 <= d2, den > 0;
}

/// The key code a keyboard-page usage names is its low byte.
proof fn lemma_key_usage_code(usage: u32)
    by (bit_vector)
    requires
        0x7_0000u32 <= usage <= 0x7_00FFu32,
    ensures
        usage & 0xFFu32 == usage - 0x7_0000u32,
{
}

/// What one field does to the sinks. A keyboard-page field (usage 0x7_00kk)
/// with a non-zero value adds key kk to the keys held in this report, and
/// with value zero changes nothing. Usage 0x1_0030 is X and 0x1_0031 is Y:
/// a relative field (input flag bit 2) stores its value as the movement
/// along that axis alone; an absolute field over a non-empty range stores
/// the position scaled onto `0 ..= 0xFFFF` from the bottom of the range,
/// again on that axis alone.
pub proof fn lemma_field_effect(d: Decode, flags: InputFlags, usage: u32, val: i32)
    ensures
        0x7_0000 <= usage <= 0x7_00FF && val != 0 && d.keys is Some ==> field_effect(d, flags, usage, val) == Some(
            Decode { keys: Some(d.keys->0.insert(usage - 0x7_0000)), ..d },
        ),
        0x7_0000 <= usage <= 0x7_00FF && val == 0 ==> field_effect(d, flags, usage, val) == Some(d),
        usage == 0x1_0030 && d.mouse is Some && flags.0 & 4 != 0 ==> field_effect(d, flags, usage, val) == Some(
            Decode { mouse: Some(Mouse { x_value: (val as i16) as u16, is_relative: true, ..d.mouse->0 }), ..d },
        ),
        usage == 0x1_0031 && d.mouse is Some && flags.0 & 4 != 0 ==> field_effect(d, flags, usage, val) == Some(
            Decode { mouse: Some(Mouse { y_value: (val as i16) as u16, is_relative: true, ..d.mouse->0 }), ..d },
        ),
        ({
            let lmin = d.state.logical_range.0.unwrap_or(0);
            &&& usage == 0x1_0030 || usage == 0x1_0031
            &&& d.mouse is Some
            &&& flags.0 & 4 == 0
            &&& d.state.logical_range.1 matches Some(lmax)
            &&& lmin <= val <= lmax
            &&& lmin < lmax
            &&& lmax - lmin <= i32::MAX
        }) ==> (field_effect(d, flags, usage, val) matches Some(d2) && d2.mouse matches Some(m2) && ({
            let lmin = d.state.logical_range.0.unwrap_or(0);
            let lmax = d.state.logical_range.1->0;
            let pos = (if usage == 0x1_0030 { m2.x_value } else { m2.y_value }) as int;
            let other_unchanged = if usage == 0x1_0030 { m2.y_value == d.mouse->0.y_value } else {
                m2.x_value == d.mouse->0.x_value
            };
            &&& pos == (val - lmin) * 0xFFFF / (lmax - lmin)
            &&& !m2.is_relative
            &&& other_unchanged
            &&& m2.cur_buttons == d.mouse->0.cur_buttons
        })),
{
    if 0x7_0000 <= usage <= 0x7_00FF {
        lemma_key_usage_code(usage);
    }
    assert((0x1_0030u32 & 1u32) == 0u32 && (0x1_0031u32 & 1u32) == 1u32) by (bit_vector);
    let lmin = d.state.logical_range.0.unwrap_or(0);
    if let Some(lmax) = d.state.logical_range.1 {
        if lmin <= val <= lmax && lmin < lmax && lmax - lmin <= i32::MAX {
            lemma_normalise_scales(val, lmin, lmax);
        }
    }
}

/// Normalise an absolute coordinate into `0 ..= 0xFFFF`.
fn normalise_exec(val: i32, lmin: i32, lmax_opt: Option<i32>) -> (r: Option<u16>)
    ensures
        r == normalise(val, lmin, lmax_opt),
{
    if lmin == i32::MAX {
        return None;
    }
    let lmax: i32 = match lmax_opt {
        Some(v) => v,
        None => lmin + 1,
    };
    let d: i64 = val as i64 - lmin as i64;
    let den: i64 = lmax as i64 - lmin as i64;
    if d < 0 || d > i32::MAX as i64 || den < i32::MIN as i64 || den > i32::MAX as i64 || den == 0 {
        return None;
    }
    let d32: i32 = val - lmin;
    let den32: i32 = lmax - lmin;
    proof {
        assert((d32 >= 0 ==> d32 as u64 == d32) && (den32 != 0 ==> den32 as u64 != 0)) by (bit_vector);
    }
    let num: u64 = d32 as u64 * 0xFFFF;
    let den_u: u64 = den32 as u64;
    Some((num / den_u) as u16)
}

/// Decode one input report `data` using the report descriptor `report_spec`,
/// updating the sinks. `None` (with the sinks in an unspecified state) where
/// decoding fails: an item that the parser cannot handle, a field size
/// outside `1 ..= 32`, a reversed usage range, a field for a sink that the
/// device does not have, the first button usage, or an absolute coordinate
/// that cannot be normalised.
pub fn try_decode_report(report_spec: &[u8], data: &[u8], sinks: &mut Group) -> (r: Option<()>)
    ensures
        r is Some <==> decode_walk(report_spec@, decode_init(data@, *old(sinks))) is Some,
        r is Some ==> sinks_match(
            *final(sinks),
            decode_walk(report_spec@, decode_init(data@, *old(sinks)))->0,
            last_keys(*old(sinks)),
        ),
{
    let ghost d0 = decode_init(data@, *sinks);
    let ghost last = last_keys(*sinks);
    let mut bs = BitStream::new(data);
    let mut state = ParseState::new();
    let mut it = IterRaw(report_spec);
    let ghost mut d = d0;
    proof {
        if sinks.keyboard is Some {
            assert(key_set(sinks.keyboard->0.cur_state) == d.keys->0);
        }
    }
    loop
        invariant
            decode_walk(report_spec@, d0) == decode_walk(it.0@, d),
            d0 == decode_init(data@, *old(sinks)),
            last == last_keys(*old(sinks)),
            bs.wf(),
            d.bits == bs.bits(),
            d.state == state,
            sinks_match(*sinks, d, last),
        ensures
            decode_walk(report_spec@, d0) == Some(d),
            sinks_match(*sinks, d, last),
        decreases it.0@.len(),
    {
        let ghost s = it.0@;
        proof {
            lemma_long_item_tag();
        }
        if it.0.len() >= 3 && it.0[0] == 0xFE {
            return None;
        }
        let item = it.next();
        let (id, val) = match item {
            Some(p) => p,
            None => {
                break;
            },
        };
        let op = Op::from_pair(id, val);
        match op {
            Op::Push | Op::Pop | Op::Delimiter => {
                return None;
            },
            _ => {},
        }
        let ghost d_item = d;
        proof {
            assert(decode_walk(s, d_item) == match decode_step(d_item, op) {
                Some(d2) => decode_walk(it.0@, d2),
                None => None,
            });
        }
        match op {
            Op::Input(flags) => {
                let count = state.report_count;
                let mut i: u32 = 0;
                while i < count
                    invariant
                        i <= count,
                        count == d_item.state.report_count,
                        fields_walk(d_item, flags, 0, count as int) == fields_walk(d, flags, i as int, count as int),
                        bs.wf(),
                        d.bits == bs.bits(),
                        d.state == state,
                        state == d_item.state,
                        sinks_match(*sinks, d, last),
                        decode_walk(report_spec@, d0) == decode_walk(s, d_item),
                        decode_walk(s, d_item) == match decode_step(d_item, op) {
                            Some(d2) => decode_walk(it.0@, d2),
                            None => None,
                        },
                        op == Op::Input(flags),
                        d0 == decode_init(data@, *old(sinks)),
                        last == last_keys(*old(sinks)),
                    decreases count - i,
                {
                    let size = state.report_size;
                    if size < 1 || size > 32 || !state.usage_get_ok() {
                        proof { lemma_field_fails(d_item, d, flags, i as int, count as int); }
                        return None;
                    }
                    let v = match bs.get_i32(size as usize) {
                        Some(v) => v,
                        None => 0,
                    };
                    let idx: usize = if flags.is_variable() { i as usize } else { v as usize };
                    let usage = state.usage.get(idx);
                    let ghost d_mid = Decode { bits: bs.bits(), ..d };
                    if 0x7_0000 <= usage && usage <= 0x7_00FF {
                        if v != 0 {
                            match &mut sinks.keyboard {
                                Some(k) => {
                                    k.set_key((usage & 0xFF) as u8);
                                    proof {
                                        let kk = (usage & 0xFF) as int;
                                        assert(((usage & 0xFF) as u8) as int == kk) by {
                                            crate::bits::lemma_u32_and_le(usage, 0xFF);
                                        }
                                        assert(key_set(k.cur_state) =~= d.keys->0.insert(kk));
                                    }
                                },
                                None => {
                                    proof { lemma_field_fails(d_item, d, flags, i as int, count as int); }
                        return None;
                                },
                            }
                        }
                    } else if 0x1_0030 <= usage && usage <= 0x1_0031 {
                        let is_x = usage & 1 == 0;
                        match &mut sinks.mouse {
                            Some(m) => {
                                if flags.is_relative() {
                                    if is_x {
                                        m.rel_x(v as i16);
                                    } else {
                                        m.rel_y(v as i16);
                                    }
                                } else {
                                    let lmin = match state.logical_range.0 {
                                        Some(x) => x,
                                        None => 0,
                                    };
                                    match normalise_exec(v, lmin, state.logical_range.1) {
                                        Some(n) => {
                                            if is_x {
                                                m.abs_x(n);
                                            } else {
                                                m.abs_y(n);
                                            }
                                        },
                                        None => {
                                            proof { lemma_field_fails(d_item, d, flags, i as int, count as int); }
                        return None;
                                        },
                                    }
                                }
                            },
                            None => {
                                proof { lemma_field_fails(d_item, d, flags, i as int, count as int); }
                        return None;
                            },
                        }
                    } else if 0x9_0001 <= usage && usage <= 0x9_0005 {
                        let num = (usage - 0x9_0001) as usize;
                        if num < 1 {
                            proof { lemma_field_fails(d_item, d, flags, i as int, count as int); }
                        return None;
                        }
                        match &mut sinks.mouse {
                            Some(m) => {
                                m.set_button(num - 1, v != 0);
                            },
                            None => {
                                proof { lemma_field_fails(d_item, d, flags, i as int, count as int); }
                        return None;
                            },
                        }
                    }
                    proof {
                        let nd = field_effect(d_mid, flags, usage, v);
                        assert(field_step(d, flags, i as int) == nd);
                        d = nd->0;
                    }
                    i += 1;
                }
            },
            _ => {},
        }
        state.update(op);
        proof {
            let nd = decode_step(d_item, op);
            assert(nd is Some);
            assert(decode_walk(s, d_item) == decode_walk(it.0@, nd->0));
            d = nd->0;
        }
    }
    Some(())
}


/// Decode one input report (see `try_decode_report`), where decoding succeeds.
pub fn decode_report(report_spec: &[u8], data: &[u8], sinks: &mut Group)
    requires
        decode_walk(report_spec@, decode_init(data@, *old(sinks))) is Some,
    ensures
        sinks_match(
            *final(sinks),
            decode_walk(report_spec@, decode_init(data@, *old(sinks)))->0,
            last_keys(*old(sinks)),
        ),
{
    let _ = try_decode_report(report_spec, data, sinks);
}

/// The cursor update a mouse reports at the end of a report.
pub open spec fn cursor_of(m: Mouse) -> CursorUpdate {
    if m.is_relative {
        CursorUpdate::Relative(m.x_value as i16, m.y_value as i16)
    } else {
        CursorUpdate::Absolute(m.x_value, m.y_value)
    }
}

/// The events of a decoded report (`d`, decoded into the sinks `before`)
/// and the sinks once every sink has finished the report: the keyboard
/// reports the keys that changed against the previous report and keeps the
/// new keys as the previous ones; the mouse reports its cursor update and
/// the buttons that changed, and keeps its buttons as the previous ones.
pub open spec fn report_events_ok(ev: ReportEvents, d: Decode, before: Group, after: Group) -> bool {
    &&& (after.keyboard is Some) == (before.keyboard is Some)
    &&& match after.keyboard {
        Some(k) => {
            &&& ev.keys matches Some(v) && v@ == key_changes(k.last_state, last_keys(before)->0, 256)
            &&& d.keys matches Some(ks) && key_set(k.last_state) == ks
            &&& forall|i: int| !k.cur_state.has(i)
        },
        None => ev.keys is None,
    }
    &&& match d.mouse {
        Some(m) => {
            &&& ev.mouse matches Some((c, b)) && c == cursor_of(m) && b@ == button_changes(m.cur_buttons, m.prev_buttons, 16)
            &&& after.mouse == Some(Mouse { prev_buttons: m.cur_buttons, cur_buttons: 0, ..m })
        },
        None => ev.mouse is None && after.mouse is None,
    }
}

/// The events that finishing a report produces: key changes from the
/// keyboard sink, and the cursor update with button changes from the mouse sink.
pub struct ReportEvents {
    pub keys: Option<Vec<(u8, bool)>>,
    pub mouse: Option<(CursorUpdate, Vec<(u8, bool)>)>,
}

/// Decode one input report and finish it on every sink (see
/// `Keyboard::updated` and `Mouse::updated`); `None` where decoding fails.
pub fn process_report(report_spec: &[u8], data: &[u8], sinks: &mut Group) -> (r: Option<ReportEvents>)
    ensures
        r is Some <==> decode_walk(report_spec@, decode_init(data@, *old(sinks))) is Some,
        r matches Some(ev) ==> report_events_ok(
            ev,
            decode_walk(report_spec@, decode_init(data@, *old(sinks)))->0,
            *old(sinks),
            *final(sinks),
        ),
{
    match try_decode_report(report_spec, data, sinks) {
        None => None,
        Some(()) => {
            let keys = match &mut sinks.keyboard {
                Some(k) => Some(k.updated()),
                None => None,
            };
            let mouse = match &mut sinks.mouse {
                Some(m) => Some(m.updated()),
                None => None,
            };
            Some(ReportEvents { keys, mouse })
        },
    }
}

/// Scanning the descriptors in `s` for the HID descriptor's report
/// descriptor length, starting from `acc`; `None` where a descriptor is too
/// short to read (under 2 bytes, or a HID descriptor under 6 bytes).
pub open spec fn hid_scan(s: Seq<u8>, acc: u16) -> Option<u16>
    decreases s.len(),
{
    if !crate::usb_core::hw_decls::descriptor_available(s) {
        Some(acc)
    } else {
        let len = s[0] as int;
        if len < 2 {
            None
        } else if s[1] != 0x21 {
            hid_scan(s.skip(len), acc)
        } else if len < 6 {
            None
        } else if (len - 6) % 3 != 0 {
            hid_scan(s.skip(len), acc)
        } else {
            hid_scan(s.skip(len), hid_class_entries(s.subrange(6, len), acc))
        }
    }
}

/// The last report-descriptor (type 0x22) length among the 3-byte class
/// descriptor entries `e`, or `acc` if there is none.
pub open spec fn hid_class_entries(e: Seq<u8>, acc: u16) -> u16
    decreases e.len(),
{
    if e.len() < 3 {
        acc
    } else {
        let acc2 = if e[0] == 0x22 { crate::usb_core::hw_decls::le16(e, 1) } else { acc };
        hid_class_entries(e.skip(3), acc2)
    }
}

/// Locate the report descriptor length in an interface's descriptor list
/// (from the HID descriptor, type 0x21); 0 if there is none. `None` where a
/// descriptor is too short to read.
pub fn try_report_descriptor_len(descriptors: &[u8]) -> (r: Option<u16>)
    ensures
        r == hid_scan(descriptors@, 0),
{
    let mut it = crate::usb_core::hw_decls::IterDescriptors(descriptors);
    let mut report_desc_len: u16 = 0;
    loop
        invariant
            hid_scan(descriptors@, 0) == hid_scan(it.0@, report_desc_len),
        ensures
            hid_scan(descriptors@, 0) == Some(report_desc_len),
        decreases it.0@.len(),
    {
        let ghost s = it.0@;
        let d = match it.next() {
            Some(d) => d,
            None => break,
        };
        if d.len() < 2 {
            return None;
        }
        proof {
            assert(s[0] as int >= 2);
        }
        if d[1] == 0x21 {
            if d[0] < 6 {
                return None;
            }
            let len = d[0] - 6;
            if len % 3 != 0 {
                continue;
            }
            let ghost acc0 = report_desc_len;
            proof {
                assert(d@.subrange(6, d@.len() as int) =~= s.subrange(6, s[0] as int));
            }
            let mut k: usize = 6;
            while k + 3 <= d.len()
                invariant
                    6 <= k <= d@.len(),
                    d@.len() == s[0] as int,
                    (d@.len() - k) % 3 == 0,
                    hid_class_entries(s.subrange(6, s[0] as int), acc0) == hid_class_entries(
                        d@.subrange(k as int, d@.len() as int),
                        report_desc_len,
                    ),
                decreases d@.len() - k,
            {
                let ghost e = d@.subrange(k as int, d@.len() as int);
                let ty = d[k];
                let l = (d[k + 1] as u16) | ((d[k + 2] as u16) << 8);
                if ty == 0x22 {
                    report_desc_len = l;
                }
                proof {
                    assert(e.skip(3) =~= d@.subrange(k + 3, d@.len() as int));
                }
                k += 3;
            }
            proof {
                assert(d@.subrange(k as int, d@.len() as int).len() < 3);
                assert(d@.subrange(6, d@.len() as int) =~= s.subrange(6, s[0] as int));
            }
        }
    }
    Some(report_desc_len)
}

/// Locate the report descriptor length (see `try_report_descriptor_len`).
pub fn report_descriptor_len(descriptors: &[u8]) -> (r: u16)
    requires
        hid_scan(descriptors@, 0) is Some,
    ensures
        Some(r) == hid_scan(descriptors@, 0),
{
    match try_report_descriptor_len(descriptors) {
        Some(v) => v,
        None => 0,
    }
}

} // verus!
