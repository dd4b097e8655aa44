//! Input sinks: destinations for the inputs from a HID device.
use vstd::prelude::*;
use crate::usb_hid::report_parser::{
    IterRaw, Op, ParseState, InputFlags, item_available, is_long_item, item_len, item_value,
    op_from_pair, parse_state_init, parse_state_update, update_ok, list_get, list_get_ok,
};
use self::keyboard::Keyboard;
use self::mouse::Mouse;

pub mod keyboard;
pub mod mouse;

verus! {

/// A collection of sinks for a single device.
pub struct Group {
    pub keyboard: Option<Keyboard>,
    pub mouse: Option<Mouse>,
}

/// Handler for the collection that the report descriptor parser is in.
#[derive(Copy, Clone, Debug, PartialEq, Eq, Structural)]
pub enum Handler {
    /// Top level.
    Root,
    /// "Generic Desktop / Mouse" application collection.
    Mouse,
    /// The physical collection inside a mouse collection.
    MouseInner,
    /// "Generic Desktop / Keyboard" application collection.
    Keyboard,
}

/// The handler at the top of a report descriptor.
pub fn root() -> (r: Handler)
    ensures
        r == Handler::Root,
{
    Handler::Root
}

/// The enclosing handler of `h`.
pub open spec fn handler_parent(h: Handler) -> Handler {
    match h {
        Handler::MouseInner => Handler::Mouse,
        _ => Handler::Root,
    }
}

/// The handler for a collection of type `num` opened inside `h`, where
/// `usage0` is the first usage of the collection.
pub open spec fn handler_child(h: Handler, usage0: u32, num: u32) -> Option<Handler> {
    match h {
        Handler::Root => if num == 1 && usage0 == 0x0001_0002 {
            Some(Handler::Mouse)
        } else if num == 1 && usage0 == 0x0001_0006 {
            Some(Handler::Keyboard)
        } else {
            None
        },
        Handler::Mouse => Some(Handler::MouseInner),
        _ => None,
    }
}

/// Looking up the child of `h` can read the usage list (only the root does,
/// for application collections).
pub open spec fn child_reads_usage(h: Handler, num: u32) -> bool {
    h == Handler::Root && num == 1
}

/// Sinks and handlers are fresh: a keyboard sink holds no keys.
pub open spec fn fresh_keyboard(k: Keyboard) -> bool {
    forall|i: int| !k.cur_state.has(i) && !k.last_state.has(i)
}

/// A fresh mouse sink.
pub open spec fn fresh_mouse(m: Mouse) -> bool {
    m == (Mouse { is_relative: false, x_value: 0, y_value: 0, cur_buttons: 0, prev_buttons: 0 })
}

impl Handler {
    /// The enclosing collection's handler.
    pub fn parent(&self) -> (r: Handler)
        ensures
            r == handler_parent(*self),
    {
        match self {
            Handler::MouseInner => Handler::Mouse,
            _ => Handler::Root,
        }
    }

    /// The handler for a nested collection, if this one knows it.
    pub fn child(&self, state: &ParseState, num: u32) -> (r: Option<Handler>)
        requires
            child_reads_usage(*self, num) ==> list_get_ok(state.usage),
        ensures
            r == handler_child(*self, list_get(state.usage, 0), num),
    {
        match self {
            Handler::Root => {
                if num == 1 {
                    let u = state.usage.get(0);
                    if u == 0x0001_0002 {
                        Some(Handler::Mouse)
                    } else if u == 0x0001_0006 {
                        Some(Handler::Keyboard)
                    } else {
                        None
                    }
                } else {
                    None
                }
            },
            Handler::Mouse => Some(Handler::MouseInner),
            _ => None,
        }
    }

    /// An input item in this collection: creates the matching sink if absent.
    pub fn input(&self, sinks: &mut Group, _state: &ParseState, _bits: InputFlags)
        ensures
            *self == Handler::MouseInner && old(sinks).mouse is None ==> (final(sinks).mouse
                matches Some(m) && fresh_mouse(m)),
            !(*self == Handler::MouseInner && old(sinks).mouse is None) ==> final(sinks).mouse
                == old(sinks).mouse,
            *self == Handler::Keyboard && old(sinks).keyboard is None ==> (final(sinks).keyboard
                matches Some(k) && fresh_keyboard(k)),
            !(*self == Handler::Keyboard && old(sinks).keyboard is None) ==> final(sinks).keyboard
                == old(sinks).keyboard,
    {
        match self {
            Handler::MouseInner => {
                if sinks.mouse.is_none() {
                    sinks.mouse = Some(Mouse::new());
                }
            },
            Handler::Keyboard => {
                if sinks.keyboard.is_none() {
                    sinks.keyboard = Some(Keyboard::new());
                }
            },
            _ => {},
        }
    }
}

/// State of the walk over a report descriptor.
pub struct Walk {
    pub handler: Handler,
    pub depth: nat,
    pub state: ParseState,
    pub keyboard: bool,
    pub mouse: bool,
}

/// Initial walk state.
pub open spec fn walk_init() -> Walk {
    Walk { handler: Handler::Root, depth: 0, state: parse_state_init(), keyboard: false, mouse: false }
}

/// One item of the walk, or `None` where the parser cannot handle it.
pub open spec fn walk_step(w: Walk, op: Op) -> Option<Walk> {
    if !update_ok(op) {
        None
    } else {
        let w2 = match op {
            Op::Collection(num) => if child_reads_usage(w.handler, num) && !list_get_ok(w.state.usage) {
                None
            } else {
                match handler_child(w.handler, list_get(w.state.usage, 0), num) {
                    Some(h) => Some(Walk { handler: h, ..w }),
                    None => Some(Walk { depth: w.depth + 1, ..w }),
                }
            },
            Op::EndCollection => if w.depth > 0 {
                Some(Walk { depth: (w.depth - 1) as nat, ..w })
            } else {
                Some(Walk { handler: handler_parent(w.handler), ..w })
            },
            Op::Input(_) => if w.depth == 0 {
                Some(Walk {
                    mouse: w.mouse || w.handler == Handler::MouseInner,
                    keyboard: w.keyboard || w.handler == Handler::Keyboard,
                    ..w
                })
            } else {
                Some(w)
            },
            _ => Some(w),
        };
        match w2 {
            Some(w3) => Some(Walk { state: parse_state_update(w3.state, op), ..w3 }),
            None => None,
        }
    }
}

/// The walk over the items in `s` starting from `w` (`None` if the parser
/// cannot handle one of them).
pub open spec fn report_walk(s: Seq<u8>, w: Walk) -> Option<Walk>
    decreases s.len(),
{
    if !item_available(s) {
        Some(w)
    } else if is_long_item(s) {
        None
    } else {
        match walk_step(w, op_from_pair(s[0], item_value(s))) {
            Some(w2) => report_walk(s.skip(item_len(s[0]) as int), w2),
            None => None,
        }
    }
}

/// The group `g` holds exactly the sinks that the walk `w` created, fresh.
pub open spec fn group_matches(g: Group, w: Walk) -> bool {
    &&& (g.keyboard is Some) == w.keyboard
    &&& (g.mouse is Some) == w.mouse
    &&& (g.keyboard matches Some(k) ==> fresh_keyboard(k))
    &&& (g.mouse matches Some(m) ==> fresh_mouse(m))
}

impl Group {
    /// A group with no sinks.
    pub fn new() -> (r: Group)
        ensures
            r.keyboard is None,
            r.mouse is None,
    {
        Group { keyboard: None, mouse: None }
    }

    /// Populate the sink group by parsing a report specification, or `None`
    /// where the specification holds an item that the parser cannot handle
    /// (a long item, push/pop/delimiter, or a reversed usage range read for
    /// an application collection).
    pub fn try_from_report_spec(buf: &[u8]) -> (r: Option<Group>)
        ensures
            r is Some <==> report_walk(buf@, walk_init()) is Some,
            r matches Some(g) ==> group_matches(g, report_walk(buf@, walk_init())->0),
    {
        let mut sinks = Group::new();
        let mut collection = root();
        let mut collection_depth: usize = 0;
        let mut state = ParseState::new();
        let buf_len = buf.len();
        let mut it = IterRaw(buf);
        let ghost mut w = walk_init();
        loop
            invariant
                report_walk(buf@, walk_init()) == report_walk(it.0@, w),
                w.handler == collection,
                w.depth == collection_depth,
                collection_depth <= buf@.len() - it.0@.len(),
                it.0@.len() <= buf@.len(),
                buf_len == buf@.len(),
                w.state == state,
                group_matches(sinks, w),
            ensures
                report_walk(buf@, walk_init()) == Some(w),
                group_matches(sinks, w),
            decreases it.0@.len(),
        {
            let ghost s = it.0@;
            proof {
                crate::usb_hid::lemma_long_item_tag();
            }
            if it.0.len() >= 3 && it.0[0] == 0xFE {
                proof {
                    crate::usb_hid::lemma_long_item_tag();
                    assert(is_long_item(s));
                }
                return None;
            }
            let item = it.next();
            let (id, val) = match item {
                Some(p) => p,
                None => {
                    break;
                },
            };
            proof {
                assert(item_len(s[0]) >= 1);
                assert(it.0@.len() < s.len());
                assert(collection_depth < buf@.len());
                assert(buf@.len() <= usize::MAX);
            }
            let op = Op::from_pair(id, val);
            match op {
                Op::Push | Op::Pop | Op::Delimiter => {
                    return None;
                },
                _ => {},
            }
            let ghost w_old = w;
            match op {
                Op::Collection(num) => {
                    if collection == Handler::Root && num == 1 && !state.usage_get_ok() {
                        return None;
                    }
                    match collection.child(&state, num) {
                        Some(v) => collection = v,
                        None => collection_depth += 1,
                    }
                },
                Op::EndCollection => {
                    if collection_depth > 0 {
                        collection_depth -= 1;
                    } else {
                        collection = collection.parent();
                    }
                },
                Op::Input(v) => {
                    if collection_depth == 0 {
                        collection.input(&mut sinks, &state, v);
                    }
                },
                _ => {},
            }
            state.update(op);
            proof {
                assert(walk_step(w_old, op) is Some);
                assert(report_walk(s, w_old) == report_walk(it.0@, walk_step(w_old, op)->0));
                w = walk_step(w_old, op)->0;
            }
        }
        Some(sinks)
    }

    /// Populate the sink group by parsing a report specification.
    pub fn from_report_spec(buf: &[u8]) -> (r: Group)
        requires
            report_walk(buf@, walk_init()) is Some,
        ensures
            group_matches(r, report_walk(buf@, walk_init())->0),
    {
        match Group::try_from_report_spec(buf) {
            Some(g) => g,
            None => Group::new(),
        }
    }
}

impl ParseState {
    /// The usage list can be read without failing.
    pub fn usage_get_ok(&self) -> (r: bool)
        ensures
            r == list_get_ok(self.usage),
    {
        match self.usage {
            crate::usb_hid::report_parser::List::Range(s, e) => !(e < s),
            _ => true,
        }
    }
}

} // verus!
