//! Plain values that messages carry: resource ids, times, points and masks.

use vstd::prelude::*;

verus! {

/// A window's resource id.
#[derive(Debug, Clone, Copy, PartialEq, Eq, Hash, Structural)]
pub struct Window(pub u32);

/// A drawable's resource id: a window or a pixmap.
#[derive(Debug, Clone, Copy, PartialEq, Eq, Hash, Structural)]
pub struct Drawable(pub u32);

/// An atom: an interned name.
#[derive(Debug, Clone, Copy, PartialEq, Eq, Hash, Structural)]
pub struct Atom(pub u32);

/// A server time in milliseconds.
#[derive(Debug, Clone, Copy, PartialEq, Eq, Hash, Structural)]
pub struct Timestamp(pub u32);

/// A colormap's resource id.
#[derive(Debug, Clone, Copy, PartialEq, Eq, Hash, Structural)]
pub struct Colormap(pub u32);

/// A time, or the server's current time, which is carried as zero.
#[derive(Debug, Clone, Copy, PartialEq, Eq, Hash, Structural)]
pub enum CurrentableTime {
    /// The server's time when it handles the message.
    CurrentTime,
    /// A given time.
    Other(Timestamp),
}

/// A key's code.
#[derive(Debug, Clone, Copy, PartialEq, Eq, Hash, Structural)]
pub struct Keycode(pub u8);

/// A pointer button's number.
#[derive(Debug, Clone, Copy, PartialEq, Eq, Hash, Structural)]
pub struct Button(pub u8);

/// A position in a window's coordinates.
#[derive(Debug, Clone, Copy, PartialEq, Eq, Hash, Structural)]
pub struct Point {
    pub x: i16,
    pub y: i16,
}

/// The id that stands for "no window" in a window field.
pub const NO_WINDOW: u32 = 0;

/// The id carried for an optional window: zero for none.
pub open spec fn window_id(w: Option<Window>) -> u32 {
    match w {
        Some(w) => w.0,
        None => 0,
    }
}

/// The optional window that an id stands for.
pub open spec fn window_of_id(id: u32) -> Option<Window> {
    if id == 0 {
        None
    } else {
        Some(Window(id))
    }
}

/// Whether an optional window reads back as itself: a present window with
/// id zero is written as zero, which reads back as none.
pub open spec fn window_carried(w: Option<Window>) -> bool {
    w != Some(Window(0))
}

pub fn to_window_id(w: Option<Window>) -> (r: u32)
    ensures
        r == window_id(w),
{
    match w {
        Some(w) => w.0,
        None => NO_WINDOW,
    }
}

pub fn from_window_id(id: u32) -> (r: Option<Window>)
    ensures
        r == window_of_id(id),
{
    if id == NO_WINDOW {
        None
    } else {
        Some(Window(id))
    }
}

/// The integer carried for an optional atom: zero for none.
pub open spec fn atom_id(a: Option<Atom>) -> u32 {
    match a {
        Some(a) => a.0,
        None => 0,
    }
}

/// The optional atom that an integer stands for.
pub open spec fn atom_of_id(id: u32) -> Option<Atom> {
    if id == 0 {
        None
    } else {
        Some(Atom(id))
    }
}

pub fn to_atom_id(a: Option<Atom>) -> (r: u32)
    ensures
        r == atom_id(a),
{
    match a {
        Some(a) => a.0,
        None => 0,
    }
}

pub fn from_atom_id(id: u32) -> (r: Option<Atom>)
    ensures
        r == atom_of_id(id),
{
    if id == 0 {
        None
    } else {
        Some(Atom(id))
    }
}

/// The integer carried for an optional colormap: zero for none.
pub open spec fn colormap_id(c: Option<Colormap>) -> u32 {
    match c {
        Some(c) => c.0,
        None => 0,
    }
}

/// The optional colormap that an integer stands for.
pub open spec fn colormap_of_id(id: u32) -> Option<Colormap> {
    if id == 0 {
        None
    } else {
        Some(Colormap(id))
    }
}

pub fn to_colormap_id(c: Option<Colormap>) -> (r: u32)
    ensures
        r == colormap_id(c),
{
    match c {
        Some(c) => c.0,
        None => 0,
    }
}

pub fn from_colormap_id(id: u32) -> (r: Option<Colormap>)
    ensures
        r == colormap_of_id(id),
{
    if id == 0 {
        None
    } else {
        Some(Colormap(id))
    }
}

/// The integer carried for a time: zero for the current time.
pub open spec fn time_id(t: CurrentableTime) -> u32 {
    match t {
        CurrentableTime::CurrentTime => 0,
        CurrentableTime::Other(t) => t.0,
    }
}

/// The time that an integer stands for.
pub open spec fn time_of_id(id: u32) -> CurrentableTime {
    if id == 0 {
        CurrentableTime::CurrentTime
    } else {
        CurrentableTime::Other(Timestamp(id))
    }
}

pub fn to_time_id(t: CurrentableTime) -> (r: u32)
    ensures
        r == time_id(t),
{
    match t {
        CurrentableTime::CurrentTime => 0,
        CurrentableTime::Other(t) => t.0,
    }
}

pub fn from_time_id(id: u32) -> (r: CurrentableTime)
    ensures
        r == time_of_id(id),
{
    if id == 0 {
        CurrentableTime::CurrentTime
    } else {
        CurrentableTime::Other(Timestamp(id))
    }
}

/// Which of a window's attributes a configure request changes.
#[derive(Debug, Clone, Copy, PartialEq, Eq, Hash, Structural)]
pub struct ConfigureWindowMask {
    pub bits: u16,
}

/// The bits of a [`ConfigureWindowMask`] that carry a meaning.
pub const CONFIGURE_BITS: u16 = 0x007F;

impl ConfigureWindowMask {
    pub const X: u16 = 0x0001;
    pub const Y: u16 = 0x0002;
    pub const WIDTH: u16 = 0x0004;
    pub const HEIGHT: u16 = 0x0008;
    pub const BORDER_WIDTH: u16 = 0x0010;
    pub const SIBLING: u16 = 0x0020;
    pub const STACK_MODE: u16 = 0x0040;

    /// Whether no bit without a meaning is set. Such bits are written as
    /// zero and ignored when read.
    pub open spec fn wf(self) -> bool {
        self.bits & !CONFIGURE_BITS == 0
    }

    /// The mask of the meaningful bits of `bits`; the others are dropped.
    pub fn from_bits_truncate(bits: u16) -> (r: ConfigureWindowMask)
        ensures
            r.bits == bits & CONFIGURE_BITS,
            r.wf(),
    {
        let r = ConfigureWindowMask { bits: bits & CONFIGURE_BITS };
        assert(bits & 0x007F & !0x007Fu16 == 0) by (bit_vector);
        r
    }
}

/// A well-formed configure mask keeps its bits under truncation.
pub proof fn lemma_configure_truncate(m: ConfigureWindowMask)
    requires
        m.wf(),
    ensures
        m.bits & CONFIGURE_BITS == m.bits,
{
    let b = m.bits;
    assert(b & !0x007Fu16 == 0 ==> b & 0x007F == b) by (bit_vector);
}

/// The state of the modifier keys and pointer buttons: eight modifier bits
/// followed by five button bits.
#[derive(Debug, Clone, Copy, PartialEq, Eq, Hash, Structural)]
pub struct ModifierMask {
    pub bits: u16,
}

/// The bits of a [`ModifierMask`] that carry a meaning.
pub const MODIFIER_BITS: u16 = 0x1FFF;

impl ModifierMask {
    pub const SHIFT: u16 = 0x0001;
    pub const LOCK: u16 = 0x0002;
    pub const CONTROL: u16 = 0x0004;
    pub const MOD_1: u16 = 0x0008;
    pub const MOD_2: u16 = 0x0010;
    pub const MOD_3: u16 = 0x0020;
    pub const MOD_4: u16 = 0x0040;
    pub const MOD_5: u16 = 0x0080;
    pub const BUTTON_1: u16 = 0x0100;
    pub const BUTTON_2: u16 = 0x0200;
    pub const BUTTON_3: u16 = 0x0400;
    pub const BUTTON_4: u16 = 0x0800;
    pub const BUTTON_5: u16 = 0x1000;

    /// Whether no bit without a meaning is set. Such bits are written as
    /// zero and ignored when read.
    pub open spec fn wf(self) -> bool {
        self.bits & !MODIFIER_BITS == 0
    }

    /// The mask of the meaningful bits of `bits`; the others are dropped.
    pub fn from_bits_truncate(bits: u16) -> (r: ModifierMask)
        ensures
            r.bits == bits & MODIFIER_BITS,
            r.wf(),
    {
        let r = ModifierMask { bits: bits & MODIFIER_BITS };
        assert(bits & 0x1FFF & !0x1FFFu16 == 0) by (bit_vector);
        r
    }
}

/// Whether a pointer crossing involved the focus window and the same screen.
#[derive(Debug, Clone, Copy, PartialEq, Eq, Hash, Structural)]
pub struct EnterLeaveMask {
    pub bits: u8,
}

/// The bits of an [`EnterLeaveMask`] that carry a meaning.
pub const ENTER_LEAVE_BITS: u8 = 0x03;

impl EnterLeaveMask {
    /// The event window is the focus window or an inferior of it.
    pub const FOCUS: u8 = 0x01;
    /// The event window is on the same screen as the pointer.
    pub const SAME_SCREEN: u8 = 0x02;

    /// Whether no bit without a meaning is set. Such bits are written as
    /// zero and ignored when read.
    pub open spec fn wf(self) -> bool {
        self.bits & !ENTER_LEAVE_BITS == 0
    }

    /// The mask of the meaningful bits of `bits`; the others are dropped.
    pub fn from_bits_truncate(bits: u8) -> (r: EnterLeaveMask)
        ensures
            r.bits == bits & ENTER_LEAVE_BITS,
            r.wf(),
    {
        let r = EnterLeaveMask { bits: bits & ENTER_LEAVE_BITS };
        assert(bits & 0x03 & !0x03u8 == 0) by (bit_vector);
        r
    }
}

/// A well-formed modifier mask keeps its bits under truncation.
pub proof fn lemma_modifier_truncate(m: ModifierMask)
    requires
        m.wf(),
    ensures
        m.bits & MODIFIER_BITS == m.bits,
{
    let b = m.bits;
    assert(b & !0x1FFFu16 == 0 ==> b & 0x1FFF == b) by (bit_vector);
}

/// A well-formed crossing mask keeps its bits under truncation.
pub proof fn lemma_enter_leave_truncate(m: EnterLeaveMask)
    requires
        m.wf(),
    ensures
        m.bits & ENTER_LEAVE_BITS == m.bits,
{
    let b = m.bits;
    assert(b & !0x03u8 == 0 ==> b & 0x03 == b) by (bit_vector);
}

} // verus!
