//! USB hubs: port features, the hub descriptor and port status changes.
use vstd::prelude::*;

verus! {

/// A feature on a hub port.
#[derive(Copy, Clone, Debug, PartialEq, Eq, Structural)]
pub enum PortFeature {
    Connection,
    Enable,
    Suspend,
    OverCurrent,
    Reset,
    Power,
    LowSpeed,
    CConnection,
    CEnable,
    CSuspend,
    COverCurrent,
    CReset,
    Test,
    Indicator,
}

/// The USB feature selector of `f` (its bit in the port status word).
pub open spec fn feature_selector(f: PortFeature) -> u8 {
    match f {
        PortFeature::Connection => 0,
        PortFeature::Enable => 1,
        PortFeature::Suspend => 2,
        PortFeature::OverCurrent => 3,
        PortFeature::Reset => 4,
        PortFeature::Power => 8,
        PortFeature::LowSpeed => 9,
        PortFeature::CConnection => 16,
        PortFeature::CEnable => 17,
        PortFeature::CSuspend => 18,
        PortFeature::COverCurrent => 19,
        PortFeature::CReset => 20,
        PortFeature::Test => 21,
        PortFeature::Indicator => 22,
    }
}

impl PortFeature {
    /// Feature selector value.
    pub fn selector(&self) -> (r: u8)
        ensures
            r == feature_selector(*self),
    {
        match self {
            PortFeature::Connection => 0,
            PortFeature::Enable => 1,
            PortFeature::Suspend => 2,
            PortFeature::OverCurrent => 3,
            PortFeature::Reset => 4,
            PortFeature::Power => 8,
            PortFeature::LowSpeed => 9,
            PortFeature::CConnection => 16,
            PortFeature::CEnable => 17,
            PortFeature::CSuspend => 18,
            PortFeature::COverCurrent => 19,
            PortFeature::CReset => 20,
            PortFeature::Test => 21,
            PortFeature::Indicator => 22,
        }
    }
}

/// The feature's bit is set in a port status word.
pub open spec fn status_has(status: u32, f: PortFeature) -> bool {
    status & (1u32 << (feature_selector(f) as u32)) != 0
}

/// The status-word masks of the bits that port features name.
pub(crate) proof fn lemma_port_status_masks(s: u32)
    by (bit_vector)
    ensures
        s & (1u32 << 0u32) == s & 0x1,
        s & (1u32 << 1u32) == s & 0x2,
        s & (1u32 << 2u32) == s & 0x4,
        s & (1u32 << 3u32) == s & 0x8,
        s & (1u32 << 4u32) == s & 0x10,
        s & (1u32 << 8u32) == s & 0x100,
        s & (1u32 << 9u32) == s & 0x200,
        s & (1u32 << 16u32) == s & 0x1_0000,
        s & (1u32 << 17u32) == s & 0x2_0000,
        s & (1u32 << 18u32) == s & 0x4_0000,
        s & (1u32 << 19u32) == s & 0x8_0000,
        s & (1u32 << 20u32) == s & 0x10_0000,
{
}

/// The port features are the USB 2.0 hub port features: no two share a
/// selector (so a request for one never reaches another); each change
/// feature is its status feature's selector plus 16; and in a port status
/// word, bit 0 is the connection, bit 1 enabled, bit 2 suspended, bit 3
/// over-current, bit 4 reset, bit 8 power and bit 9 low speed, with the
/// change bits 16 to 20 for the first five.
pub proof fn lemma_port_features(status: u32)
    ensures
        forall|f: PortFeature, g: PortFeature| f != g ==> #[trigger] feature_selector(f) != #[trigger] feature_selector(g),
        feature_selector(PortFeature::CConnection) == feature_selector(PortFeature::Connection) + 16,
        feature_selector(PortFeature::CEnable) == feature_selector(PortFeature::Enable) + 16,
        feature_selector(PortFeature::CSuspend) == feature_selector(PortFeature::Suspend) + 16,
        feature_selector(PortFeature::COverCurrent) == feature_selector(PortFeature::OverCurrent) + 16,
        feature_selector(PortFeature::CReset) == feature_selector(PortFeature::Reset) + 16,
        status_has(status, PortFeature::Connection) == (status & 0x1 != 0),
        status_has(status, PortFeature::Enable) == (status & 0x2 != 0),
        status_has(status, PortFeature::Suspend) == (status & 0x4 != 0),
        status_has(status, PortFeature::OverCurrent) == (status & 0x8 != 0),
        status_has(status, PortFeature::Reset) == (status & 0x10 != 0),
        status_has(status, PortFeature::Power) == (status & 0x100 != 0),
        status_has(status, PortFeature::LowSpeed) == (status & 0x200 != 0),
        status_has(status, PortFeature::CConnection) == (status & 0x1_0000 != 0),
        status_has(status, PortFeature::CEnable) == (status & 0x2_0000 != 0),
        status_has(status, PortFeature::CSuspend) == (status & 0x4_0000 != 0),
        status_has(status, PortFeature::COverCurrent) == (status & 0x8_0000 != 0),
        status_has(status, PortFeature::CReset) == (status & 0x10_0000 != 0),
{
    lemma_port_status_masks(status);
}

/// Port status is set for feature `f`.
pub fn port_status_has(status: u32, f: PortFeature) -> (r: bool)
    ensures
        r == status_has(status, f),
{
    status & (1u32 << (f.selector() as u32)) != 0
}

/// Hub class descriptor.
#[derive(Copy, Clone, Debug)]
pub struct HubDescriptor {
    pub desc_len: u8,
    pub desc_ty: u8,
    pub num_ports: u8,
    pub hub_characteristics: u16,
    /// Time between turning on power and it stabilising, in 2ms intervals
    pub power_on_to_power_good: u8,
    pub hub_control_current: u8,
    pub device_removable: [u8; 32],
}

impl HubDescriptor {
    /// Descriptor type of a hub descriptor.
    pub open spec fn desc_type() -> u8 {
        0x29
    }

    /// Decode a hub descriptor (at least 7 bytes); up to 32 bytes of the
    /// device-removable bitmap follow the fixed fields, the rest are zero.
    pub fn from_bytes(b: &[u8]) -> (r: HubDescriptor)
        requires
            b@.len() >= 7,
        ensures
            r.desc_len == b@[0],
            r.desc_ty == b@[1],
            r.num_ports == b@[2],
            r.hub_characteristics == crate::usb_core::hw_decls::le16(b@, 3),
            r.power_on_to_power_good == b@[5],
            r.hub_control_current == b@[6],
            forall|k: int| 0 <= k < 32 ==> r.device_removable@[k] == (if 7 + k < b@.len() { b@[7 + k] } else { 0 }),
    {
        let mut removable = [0u8; 32];
        let l = if b.len() - 7 < 32 { b.len() - 7 } else { 32 };
        let mut k: usize = 0;
        while k < l
            invariant
                k <= l <= 32,
                l == (if b@.len() - 7 < 32 { b@.len() - 7 } else { 32 }),
                forall|j: int| 0 <= j < k ==> removable@[j] == b@[7 + j],
                forall|j: int| k <= j < 32 ==> removable@[j] == 0,
            decreases l - k,
        {
            removable[k] = b[7 + k];
            k += 1;
        }
        HubDescriptor {
            desc_len: b[0],
            desc_ty: b[1],
            num_ports: b[2],
            hub_characteristics: (b[3] as u16) | ((b[4] as u16) << 8),
            power_on_to_power_good: b[5],
            hub_control_current: b[6],
            device_removable: removable,
        }
    }

    /// The descriptor's length byte claims more than was read.
    pub fn length_exceeds(&self, buf_len: usize) -> (r: bool)
        ensures
            r == (self.desc_len as int > buf_len as int),
    {
        self.desc_len as usize > buf_len
    }

    /// The descriptor type is not the hub descriptor type.
    pub fn type_mismatch(&self) -> (r: bool)
        ensures
            r == (self.desc_ty != 0x29),
    {
        self.desc_ty != 0x29
    }

    /// Time between setting the `Power` feature and the power being stable.
    pub fn power_stable_time_ms(&self) -> (r: u32)
        ensures
            r == self.power_on_to_power_good as u32 * 2,
    {
        self.power_on_to_power_good as u32 * 2
    }
}

/// Port status word from the 4 bytes of a GET_STATUS reply (little endian).
pub fn status_from_bytes(b: [u8; 4]) -> (r: u32)
    ensures
        r == (b@[0] as u32) | ((b@[1] as u32) << 8) | ((b@[2] as u32) << 16) | ((b@[3] as u32) << 24),
{
    (b[0] as u32) | ((b[1] as u32) << 8) | ((b[2] as u32) << 16) | ((b[3] as u32) << 24)
}

/// Port `i` is flagged in the hub's interrupt (status change) bitmap `d`.
pub open spec fn port_flagged(d: Seq<u8>, i: int) -> bool {
    i / 8 < d.len() && d[i / 8] & (1u8 << ((i % 8) as u8)) != 0
}

/// The ports (below `num_ports`) flagged in a status-change bitmap, in increasing order.
pub fn changed_ports(d: &[u8], num_ports: u8) -> (r: Vec<usize>)
    ensures
        r@ == Seq::new(num_ports as nat, |i: int| i).filter(|i: int| port_flagged(d@, i)).map_values(
            |i: int| i as usize,
        ),
{
    let mut r: Vec<usize> = Vec::new();
    let mut i: usize = 0;
    let n = num_ports as usize;
    while i < n
        invariant
            i <= n == num_ports,
            r@ == Seq::new(i as nat, |j: int| j).filter(|j: int| port_flagged(d@, j)).map_values(
                |j: int| j as usize,
            ),
        decreases n - i,
    {
        let byte_idx = i / 8;
        let flagged = byte_idx < d.len() && d[byte_idx] & (1u8 << ((i % 8) as u8)) != 0;
        proof {
            let s0 = Seq::new(i as nat, |j: int| j);
            let s1 = Seq::new((i + 1) as nat, |j: int| j);
            assert(s1 =~= s0.push(i as int));
            reveal_with_fuel(Seq::filter, 1);
            assert(s1.drop_last() =~= s0);
        }
        if flagged {
            r.push(i);
        }
        proof {
            let s0 = Seq::new(i as nat, |j: int| j);
            let s1 = Seq::new((i + 1) as nat, |j: int| j);
            let f = |j: int| port_flagged(d@, j);
            assert(s1.filter(f) == if f(i as int) { s0.filter(f).push(i as int) } else { s0.filter(f) });
            assert(r@ =~= s1.filter(f).map_values(|j: int| j as usize));
        }
        i += 1;
    }
    r
}

/// What to do about a hub port's status changes.
pub struct PortChange {
    /// Change features to clear, in this order.
    pub clear: Vec<PortFeature>,
    /// The port has a newly connected device.
    pub connected: bool,
    /// The port's device was disconnected (not handled by the hub driver).
    pub disconnected: bool,
}

/// The change features in the order the hub driver handles them.
pub open spec fn change_features() -> Seq<PortFeature> {
    seq![
        PortFeature::CConnection,
        PortFeature::CEnable,
        PortFeature::CSuspend,
        PortFeature::COverCurrent,
        PortFeature::CReset,
    ]
}

/// Decide how to handle a port status word: every change bit that is set is
/// cleared (in the order of `change_features`); a connection change reports
/// a connection or a disconnection according to the connection bit.
pub fn port_status_change(status: u32) -> (r: PortChange)
    ensures
        r.clear@ == change_features().filter(|f: PortFeature| status_has(status, f)),
        r.connected == (status_has(status, PortFeature::CConnection) && status_has(status, PortFeature::Connection)),
        r.disconnected == (status_has(status, PortFeature::CConnection) && !status_has(status, PortFeature::Connection)),
{
    let mut clear: Vec<PortFeature> = Vec::new();
    let feats = [
        PortFeature::CConnection,
        PortFeature::CEnable,
        PortFeature::CSuspend,
        PortFeature::COverCurrent,
        PortFeature::CReset,
    ];
    let mut i: usize = 0;
    while i < 5
        invariant
            i <= 5,
            feats@ == change_features(),
            clear@ == change_features().take(i as int).filter(|f: PortFeature| status_has(status, f)),
        decreases 5 - i,
    {
        let f = feats[i];
        proof {
            reveal_with_fuel(Seq::filter, 1);
            assert(change_features().take(i + 1).drop_last() =~= change_features().take(i as int));
        }
        if port_status_has(status, f) {
            clear.push(f);
        }
        i += 1;
    }
    proof {
        assert(change_features().take(5) =~= change_features());
    }
    let cc = port_status_has(status, PortFeature::CConnection);
    let c = port_status_has(status, PortFeature::Connection);
    PortChange { clear, connected: cc && c, disconnected: cc && !c }
}

} // verus!
