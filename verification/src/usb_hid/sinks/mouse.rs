//! Mouse input sink: position and button state between reports.
use vstd::prelude::*;

verus! {

/// How the cursor is to be updated at the end of a report.
#[derive(Copy, Clone, Debug, PartialEq, Eq, Structural)]
pub enum CursorUpdate {
    /// Move by a relative amount.
    Relative(i16, i16),
    /// Set to an absolute (normalised `0 ..= 0xFFFF`) position.
    Absolute(u16, u16),
}

/// Button `i` is set in the mask `m`.
pub open spec fn button_bit(m: u16, i: int) -> bool {
    m & (1u16 << (i as u16)) != 0
}

/// Button changes between `prev` and `cur` over the buttons below `n`, in
/// increasing order: each changed button with its new state.
pub open spec fn button_changes(cur: u16, prev: u16, n: nat) -> Seq<(u8, bool)>
    decreases n,
{
    if n == 0 {
        Seq::empty()
    } else {
        let i = (n - 1) as int;
        let rest = button_changes(cur, prev, (n - 1) as nat);
        if button_bit(cur, i) != button_bit(prev, i) {
            rest.push((i as u8, button_bit(cur, i)))
        } else {
            rest
        }
    }
}

/// Mouse sink state.
pub struct Mouse {
    pub is_relative: bool,
    pub x_value: u16,
    pub y_value: u16,
    pub cur_buttons: u16,
    pub prev_buttons: u16,
}

impl Mouse {
    /// A mouse at the origin with no buttons held.
    pub fn new() -> (r: Mouse)
        ensures
            r == (Mouse { is_relative: false, x_value: 0, y_value: 0, cur_buttons: 0, prev_buttons: 0 }),
    {
        Mouse { is_relative: false, x_value: 0, y_value: 0, cur_buttons: 0, prev_buttons: 0 }
    }

    /// Absolute X position.
    pub fn abs_x(&mut self, v: u16)
        ensures
            *final(self) == (Mouse { x_value: v, is_relative: false, ..*old(self) }),
    {
        self.x_value = v;
        self.is_relative = false;
    }

    /// Absolute Y position.
    pub fn abs_y(&mut self, v: u16)
        ensures
            *final(self) == (Mouse { y_value: v, is_relative: false, ..*old(self) }),
    {
        self.y_value = v;
        self.is_relative = false;
    }

    /// Relative X movement.
    pub fn rel_x(&mut self, d: i16)
        ensures
            *final(self) == (Mouse { x_value: d as u16, is_relative: true, ..*old(self) }),
    {
        self.x_value = d as u16;
        self.is_relative = true;
    }

    /// Relative Y movement.
    pub fn rel_y(&mut self, d: i16)
        ensures
            *final(self) == (Mouse { y_value: d as u16, is_relative: true, ..*old(self) }),
    {
        self.y_value = d as u16;
        self.is_relative = true;
    }

    /// Record a button as pressed in this report (buttons past 15 are ignored,
    /// as are releases).
    pub fn set_button(&mut self, idx: usize, is_pressed: bool)
        ensures
            *final(self) == (if is_pressed && idx < 16 {
                Mouse { cur_buttons: old(self).cur_buttons | (1u16 << (idx as u16)), ..*old(self) }
            } else {
                *old(self)
            }),
    {
        if is_pressed && idx < 16 {
            self.cur_buttons = self.cur_buttons | (1u16 << (idx as u16));
        }
    }

    /// Finish a report: the cursor update and the button events (button,
    /// pressed) for every button that changed, in increasing order. The
    /// current buttons become the previous ones and are then cleared.
    pub fn updated(&mut self) -> (r: (CursorUpdate, Vec<(u8, bool)>))
        ensures
            r.0 == (if old(self).is_relative {
                CursorUpdate::Relative(old(self).x_value as i16, old(self).y_value as i16)
            } else {
                CursorUpdate::Absolute(old(self).x_value, old(self).y_value)
            }),
            r.1@ == button_changes(old(self).cur_buttons, old(self).prev_buttons, 16),
            *final(self) == (Mouse { prev_buttons: old(self).cur_buttons, cur_buttons: 0, ..*old(self) }),
    {
        let cursor = if self.is_relative {
            CursorUpdate::Relative(self.x_value as i16, self.y_value as i16)
        } else {
            CursorUpdate::Absolute(self.x_value, self.y_value)
        };
        let mut events: Vec<(u8, bool)> = Vec::new();
        let mut i: u16 = 0;
        while i < 16
            invariant
                i <= 16,
                events@ == button_changes(self.cur_buttons, self.prev_buttons, i as nat),
            decreases 16 - i,
        {
            let cur = (self.cur_buttons & (1u16 << i)) != 0;
            let prev = (self.prev_buttons & (1u16 << i)) != 0;
            if cur != prev {
                events.push((i as u8, cur));
            }
            i += 1;
        }
        self.prev_buttons = self.cur_buttons;
        self.cur_buttons = 0;
        (cursor, events)
    }
}

} // verus!
