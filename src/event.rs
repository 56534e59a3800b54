//! Events: 32-byte frames that the server sends, each led by its code.
//!
//! Every event below is written as the 31 bytes that follow the code byte;
//! [`Event`] adds the code and picks the decoder from it.

use crate::kinds::{
    EnterLeaveDetail, FocusDetail, FocusGrabMode, GrabMode, MappingNotifyRequest,
    MotionNotificationType, Placement, PropertyChange, StackMode, Visibility,
};
use crate::types::{
    Atom, Button, Colormap, ConfigureWindowMask, CurrentableTime, Drawable, EnterLeaveMask,
    Keycode, ModifierMask, Point, Timestamp, Window, CONFIGURE_BITS, ENTER_LEAVE_BITS,
    MODIFIER_BITS, atom_id, atom_of_id, colormap_id, colormap_of_id, from_atom_id,
    from_colormap_id, from_time_id, from_window_id, lemma_configure_truncate,
    lemma_enter_leave_truncate, lemma_modifier_truncate, time_id, time_of_id, to_atom_id,
    to_colormap_id, to_time_id, to_window_id, window_carried, window_id, window_of_id,
};
use crate::wire::{DecodeError, Reserved, Wire};
use vstd::prelude::*;

verus! {

/// A key was pressed.
#[derive(Debug, Clone, Copy, PartialEq, Eq, Hash, Structural)]
pub struct KeyPress {
    /// The key that was pressed.
    pub keycode: Keycode,
    /// The sequence number of the last request that the server handled before it generated this
    /// event.
    pub sequence: u16,
    /// When the event was generated.
    pub time: Timestamp,
    /// The root window of the window that held the pointer.
    pub root: Window,
    /// The window that the event is reported relative to.
    pub event_window: Window,
    /// The child of the event window that is an ancestor of, or is, the window that held the
    /// pointer, if there is one.
    pub child_window: Option<Window>,
    /// The pointer's position relative to the root window.
    pub root_coords: Point,
    /// The pointer's position relative to the event window.
    pub event_coords: Point,
    /// The modifier keys and pointer buttons held just before the event.
    pub modifiers: ModifierMask,
    /// Whether the pointer is on the event window's screen.
    pub same_screen: bool,
}

/// The fields of [`KeyPress`] in wire order, after the code byte.
pub type KeyPressLayout = (
    u8, (
    u16, (
    u32, (
    u32, (
    u32, (
    u32, (
    (i16, i16), (
    (i16, i16), (
    u16, (
    bool,
    Reserved<1>,
))))))))));

impl KeyPress {
    /// The event code.
    pub const CODE: u8 = 2;

    /// The fields in wire order, as the values that are written.
    pub open spec fn spec_layout(self) -> KeyPressLayout {
        (
            self.keycode.0, (
            self.sequence, (
            self.time.0, (
            self.root.0, (
            self.event_window.0, (
            window_id(self.child_window), (
            (self.root_coords.x, self.root_coords.y), (
            (self.event_coords.x, self.event_coords.y), (
            self.modifiers.bits & MODIFIER_BITS, (
            self.same_screen,
            Reserved,
        ))))))))))
    }

    /// The event that a layout read back stands for.
    pub open spec fn spec_of_layout(t: KeyPressLayout) -> KeyPress {
        KeyPress {
            keycode: Keycode(t.0),
            sequence: t.1.0,
            time: Timestamp(t.1.1.0),
            root: Window(t.1.1.1.0),
            event_window: Window(t.1.1.1.1.0),
            child_window: window_of_id(t.1.1.1.1.1.0),
            root_coords: Point { x: t.1.1.1.1.1.1.0.0, y: t.1.1.1.1.1.1.0.1 },
            event_coords: Point { x: t.1.1.1.1.1.1.1.0.0, y: t.1.1.1.1.1.1.1.0.1 },
            modifiers: ModifierMask { bits: t.1.1.1.1.1.1.1.1.0 & MODIFIER_BITS },
            same_screen: t.1.1.1.1.1.1.1.1.1.0,
        }
    }
}

impl Wire for KeyPress {
    open spec fn wf(&self) -> bool {
        true
    }

    open spec fn canonical(&self) -> bool {
        window_carried(self.child_window) && self.modifiers.wf()
    }

    open spec fn spec_encode(&self) -> Seq<u8> {
        self.spec_layout().spec_encode()
    }

    open spec fn spec_size(&self) -> nat {
        31
    }

    open spec fn spec_decode(bytes: Seq<u8>) -> Result<(KeyPress, nat), DecodeError> {
        match <KeyPressLayout as Wire>::spec_decode(bytes) {
            Ok((t, n)) => Ok((KeyPress::spec_of_layout(t), n)),
            Err(e) => Err(e),
        }
    }

    fn x11_size(&self) -> (r: usize) {
        proof {
            self.spec_layout().lemma_size();
        }
        31
    }

    fn write_to(&self, buf: &mut Vec<u8>) {
        let t: KeyPressLayout = (
            self.keycode.0, (
            self.sequence, (
            self.time.0, (
            self.root.0, (
            self.event_window.0, (
            to_window_id(self.child_window), (
            (self.root_coords.x, self.root_coords.y), (
            (self.event_coords.x, self.event_coords.y), (
            self.modifiers.bits & MODIFIER_BITS, (
            self.same_screen,
            Reserved,
        ))))))))));
        t.write_to(buf);
    }

    fn read_from(bytes: &[u8], pos: usize) -> (r: Result<(KeyPress, usize), DecodeError>) {
        match <KeyPressLayout as Wire>::read_from(bytes, pos) {
            Ok(((
                keycode, (
                sequence, (
                time, (
                root, (
                event_window, (
                child_window, (
                root_coords, (
                event_coords, (
                modifiers, (
                same_screen,
                _,
            )))))))))), p)) => Ok((
                KeyPress {
                    keycode: Keycode(keycode),
                    sequence,
                    time: Timestamp(time),
                    root: Window(root),
                    event_window: Window(event_window),
                    child_window: from_window_id(child_window),
                    root_coords: Point { x: root_coords.0, y: root_coords.1 },
                    event_coords: Point { x: event_coords.0, y: event_coords.1 },
                    modifiers: ModifierMask::from_bits_truncate(modifiers),
                    same_screen,
                },
                p,
            )),
            Err(e) => Err(e),
        }
    }

    proof fn lemma_round_trip(&self, rest: Seq<u8>) {
        lemma_modifier_truncate(self.modifiers);
        self.spec_layout().lemma_round_trip(rest);
    }

    proof fn lemma_truncated(&self, k: nat) {
        self.spec_layout().lemma_truncated(k);
    }

    proof fn lemma_size(&self) {
        self.spec_layout().lemma_size();
    }

    proof fn lemma_decode_len(bytes: Seq<u8>) {
        <KeyPressLayout as Wire>::lemma_decode_len(bytes);
    }
}

/// A key was released.
#[derive(Debug, Clone, Copy, PartialEq, Eq, Hash, Structural)]
pub struct KeyRelease {
    /// The key that was released.
    pub keycode: Keycode,
    /// The sequence number of the last request that the server handled before it generated this
    /// event.
    pub sequence: u16,
    /// When the event was generated.
    pub time: Timestamp,
    /// The root window of the window that held the pointer.
    pub root: Window,
    /// The window that the event is reported relative to.
    pub event_window: Window,
    /// The child of the event window that is an ancestor of, or is, the window that held the
    /// pointer, if there is one.
    pub child_window: Option<Window>,
    /// The pointer's position relative to the root window.
    pub root_coords: Point,
    /// The pointer's position relative to the event window.
    pub event_coords: Point,
    /// The modifier keys and pointer buttons held just before the event.
    pub modifiers: ModifierMask,
    /// Whether the pointer is on the event window's screen.
    pub same_screen: bool,
}

/// The fields of [`KeyRelease`] in wire order, after the code byte.
pub type KeyReleaseLayout = (
    u8, (
    u16, (
    u32, (
    u32, (
    u32, (
    u32, (
    (i16, i16), (
    (i16, i16), (
    u16, (
    bool,
    Reserved<1>,
))))))))));

impl KeyRelease {
    /// The event code.
    pub const CODE: u8 = 3;

    /// The fields in wire order, as the values that are written.
    pub open spec fn spec_layout(self) -> KeyReleaseLayout {
        (
            self.keycode.0, (
            self.sequence, (
            self.time.0, (
            self.root.0, (
            self.event_window.0, (
            window_id(self.child_window), (
            (self.root_coords.x, self.root_coords.y), (
            (self.event_coords.x, self.event_coords.y), (
            self.modifiers.bits & MODIFIER_BITS, (
            self.same_screen,
            Reserved,
        ))))))))))
    }

    /// The event that a layout read back stands for.
    pub open spec fn spec_of_layout(t: KeyReleaseLayout) -> KeyRelease {
        KeyRelease {
            keycode: Keycode(t.0),
            sequence: t.1.0,
            time: Timestamp(t.1.1.0),
            root: Window(t.1.1.1.0),
            event_window: Window(t.1.1.1.1.0),
            child_window: window_of_id(t.1.1.1.1.1.0),
            root_coords: Point { x: t.1.1.1.1.1.1.0.0, y: t.1.1.1.1.1.1.0.1 },
            event_coords: Point { x: t.1.1.1.1.1.1.1.0.0, y: t.1.1.1.1.1.1.1.0.1 },
            modifiers: ModifierMask { bits: t.1.1.1.1.1.1.1.1.0 & MODIFIER_BITS },
            same_screen: t.1.1.1.1.1.1.1.1.1.0,
        }
    }
}

impl Wire for KeyRelease {
    open spec fn wf(&self) -> bool {
        true
    }

    open spec fn canonical(&self) -> bool {
        window_carried(self.child_window) && self.modifiers.wf()
    }

    open spec fn spec_encode(&self) -> Seq<u8> {
        self.spec_layout().spec_encode()
    }

    open spec fn spec_size(&self) -> nat {
        31
    }

    open spec fn spec_decode(bytes: Seq<u8>) -> Result<(KeyRelease, nat), DecodeError> {
        match <KeyReleaseLayout as Wire>::spec_decode(bytes) {
            Ok((t, n)) => Ok((KeyRelease::spec_of_layout(t), n)),
            Err(e) => Err(e),
        }
    }

    fn x11_size(&self) -> (r: usize) {
        proof {
            self.spec_layout().lemma_size();
        }
        31
    }

    fn write_to(&self, buf: &mut Vec<u8>) {
        let t: KeyReleaseLayout = (
            self.keycode.0, (
            self.sequence, (
            self.time.0, (
            self.root.0, (
            self.event_window.0, (
            to_window_id(self.child_window), (
            (self.root_coords.x, self.root_coords.y), (
            (self.event_coords.x, self.event_coords.y), (
            self.modifiers.bits & MODIFIER_BITS, (
            self.same_screen,
            Reserved,
        ))))))))));
        t.write_to(buf);
    }

    fn read_from(bytes: &[u8], pos: usize) -> (r: Result<(KeyRelease, usize), DecodeError>) {
        match <KeyReleaseLayout as Wire>::read_from(bytes, pos) {
            Ok(((
                keycode, (
                sequence, (
                time, (
                root, (
                event_window, (
                child_window, (
                root_coords, (
                event_coords, (
                modifiers, (
                same_screen,
                _,
            )))))))))), p)) => Ok((
                KeyRelease {
                    keycode: Keycode(keycode),
                    sequence,
                    time: Timestamp(time),
                    root: Window(root),
                    event_window: Window(event_window),
                    child_window: from_window_id(child_window),
                    root_coords: Point { x: root_coords.0, y: root_coords.1 },
                    event_coords: Point { x: event_coords.0, y: event_coords.1 },
                    modifiers: ModifierMask::from_bits_truncate(modifiers),
                    same_screen,
                },
                p,
            )),
            Err(e) => Err(e),
        }
    }

    proof fn lemma_round_trip(&self, rest: Seq<u8>) {
        lemma_modifier_truncate(self.modifiers);
        self.spec_layout().lemma_round_trip(rest);
    }

    proof fn lemma_truncated(&self, k: nat) {
        self.spec_layout().lemma_truncated(k);
    }

    proof fn lemma_size(&self) {
        self.spec_layout().lemma_size();
    }

    proof fn lemma_decode_len(bytes: Seq<u8>) {
        <KeyReleaseLayout as Wire>::lemma_decode_len(bytes);
    }
}

/// A pointer button was pressed.
#[derive(Debug, Clone, Copy, PartialEq, Eq, Hash, Structural)]
pub struct ButtonPress {
    /// The button that was pressed.
    pub button: Button,
    /// The sequence number of the last request that the server handled before it generated this
    /// event.
    pub sequence: u16,
    /// When the event was generated.
    pub time: Timestamp,
    /// The root window of the window that held the pointer.
    pub root: Window,
    /// The window that the event is reported relative to.
    pub event_window: Window,
    /// The child of the event window that is an ancestor of, or is, the window that held the
    /// pointer, if there is one.
    pub child_window: Option<Window>,
    /// The pointer's position relative to the root window.
    pub root_coords: Point,
    /// The pointer's position relative to the event window.
    pub event_coords: Point,
    /// The modifier keys and pointer buttons held just before the event.
    pub modifiers: ModifierMask,
    /// Whether the pointer is on the event window's screen.
    pub same_screen: bool,
}

/// The fields of [`ButtonPress`] in wire order, after the code byte.
pub type ButtonPressLayout = (
    u8, (
    u16, (
    u32, (
    u32, (
    u32, (
    u32, (
    (i16, i16), (
    (i16, i16), (
    u16, (
    bool,
    Reserved<1>,
))))))))));

impl ButtonPress {
    /// The event code.
    pub const CODE: u8 = 4;

    /// The fields in wire order, as the values that are written.
    pub open spec fn spec_layout(self) -> ButtonPressLayout {
        (
            self.button.0, (
            self.sequence, (
            self.time.0, (
            self.root.0, (
            self.event_window.0, (
            window_id(self.child_window), (
            (self.root_coords.x, self.root_coords.y), (
            (self.event_coords.x, self.event_coords.y), (
            self.modifiers.bits & MODIFIER_BITS, (
            self.same_screen,
            Reserved,
        ))))))))))
    }

    /// The event that a layout read back stands for.
    pub open spec fn spec_of_layout(t: ButtonPressLayout) -> ButtonPress {
        ButtonPress {
            button: Button(t.0),
            sequence: t.1.0,
            time: Timestamp(t.1.1.0),
            root: Window(t.1.1.1.0),
            event_window: Window(t.1.1.1.1.0),
            child_window: window_of_id(t.1.1.1.1.1.0),
            root_coords: Point { x: t.1.1.1.1.1.1.0.0, y: t.1.1.1.1.1.1.0.1 },
            event_coords: Point { x: t.1.1.1.1.1.1.1.0.0, y: t.1.1.1.1.1.1.1.0.1 },
            modifiers: ModifierMask { bits: t.1.1.1.1.1.1.1.1.0 & MODIFIER_BITS },
            same_screen: t.1.1.1.1.1.1.1.1.1.0,
        }
    }
}

impl Wire for ButtonPress {
    open spec fn wf(&self) -> bool {
        true
    }

    open spec fn canonical(&self) -> bool {
        window_carried(self.child_window) && self.modifiers.wf()
    }

    open spec fn spec_encode(&self) -> Seq<u8> {
        self.spec_layout().spec_encode()
    }

    open spec fn spec_size(&self) -> nat {
        31
    }

    open spec fn spec_decode(bytes: Seq<u8>) -> Result<(ButtonPress, nat), DecodeError> {
        match <ButtonPressLayout as Wire>::spec_decode(bytes) {
            Ok((t, n)) => Ok((ButtonPress::spec_of_layout(t), n)),
            Err(e) => Err(e),
        }
    }

    fn x11_size(&self) -> (r: usize) {
        proof {
            self.spec_layout().lemma_size();
        }
        31
    }

    fn write_to(&self, buf: &mut Vec<u8>) {
        let t: ButtonPressLayout = (
            self.button.0, (
            self.sequence, (
            self.time.0, (
            self.root.0, (
            self.event_window.0, (
            to_window_id(self.child_window), (
            (self.root_coords.x, self.root_coords.y), (
            (self.event_coords.x, self.event_coords.y), (
            self.modifiers.bits & MODIFIER_BITS, (
            self.same_screen,
            Reserved,
        ))))))))));
        t.write_to(buf);
    }

    fn read_from(bytes: &[u8], pos: usize) -> (r: Result<(ButtonPress, usize), DecodeError>) {
        match <ButtonPressLayout as Wire>::read_from(bytes, pos) {
            Ok(((
                button, (
                sequence, (
                time, (
                root, (
                event_window, (
                child_window, (
                root_coords, (
                event_coords, (
                modifiers, (
                same_screen,
                _,
            )))))))))), p)) => Ok((
                ButtonPress {
                    button: Button(button),
                    sequence,
                    time: Timestamp(time),
                    root: Window(root),
                    event_window: Window(event_window),
                    child_window: from_window_id(child_window),
                    root_coords: Point { x: root_coords.0, y: root_coords.1 },
                    event_coords: Point { x: event_coords.0, y: event_coords.1 },
                    modifiers: ModifierMask::from_bits_truncate(modifiers),
                    same_screen,
                },
                p,
            )),
            Err(e) => Err(e),
        }
    }

    proof fn lemma_round_trip(&self, rest: Seq<u8>) {
        lemma_modifier_truncate(self.modifiers);
        self.spec_layout().lemma_round_trip(rest);
    }

    proof fn lemma_truncated(&self, k: nat) {
        self.spec_layout().lemma_truncated(k);
    }

    proof fn lemma_size(&self) {
        self.spec_layout().lemma_size();
    }

    proof fn lemma_decode_len(bytes: Seq<u8>) {
        <ButtonPressLayout as Wire>::lemma_decode_len(bytes);
    }
}

/// A pointer button was released.
#[derive(Debug, Clone, Copy, PartialEq, Eq, Hash, Structural)]
pub struct ButtonRelease {
    /// The button that was released.
    pub button: Button,
    /// The sequence number of the last request that the server handled before it generated this
    /// event.
    pub sequence: u16,
    /// When the event was generated.
    pub time: Timestamp,
    /// The root window of the window that held the pointer.
    pub root: Window,
    /// The window that the event is reported relative to.
    pub event_window: Window,
    /// The child of the event window that is an ancestor of, or is, the window that held the
    /// pointer, if there is one.
    pub child_window: Option<Window>,
    /// The pointer's position relative to the root window.
    pub root_coords: Point,
    /// The pointer's position relative to the event window.
    pub event_coords: Point,
    /// The modifier keys and pointer buttons held just before the event.
    pub modifiers: ModifierMask,
    /// Whether the pointer is on the event window's screen.
    pub same_screen: bool,
}

/// The fields of [`ButtonRelease`] in wire order, after the code byte.
pub type ButtonReleaseLayout = (
    u8, (
    u16, (
    u32, (
    u32, (
    u32, (
    u32, (
    (i16, i16), (
    (i16, i16), (
    u16, (
    bool,
    Reserved<1>,
))))))))));

impl ButtonRelease {
    /// The event code.
    pub const CODE: u8 = 5;

    /// The fields in wire order, as the values that are written.
    pub open spec fn spec_layout(self) -> ButtonReleaseLayout {
        (
            self.button.0, (
            self.sequence, (
            self.time.0, (
            self.root.0, (
            self.event_window.0, (
            window_id(self.child_window), (
            (self.root_coords.x, self.root_coords.y), (
            (self.event_coords.x, self.event_coords.y), (
            self.modifiers.bits & MODIFIER_BITS, (
            self.same_screen,
            Reserved,
        ))))))))))
    }

    /// The event that a layout read back stands for.
    pub open spec fn spec_of_layout(t: ButtonReleaseLayout) -> ButtonRelease {
        ButtonRelease {
            button: Button(t.0),
            sequence: t.1.0,
            time: Timestamp(t.1.1.0),
            root: Window(t.1.1.1.0),
            event_window: Window(t.1.1.1.1.0),
            child_window: window_of_id(t.1.1.1.1.1.0),
            root_coords: Point { x: t.1.1.1.1.1.1.0.0, y: t.1.1.1.1.1.1.0.1 },
            event_coords: Point { x: t.1.1.1.1.1.1.1.0.0, y: t.1.1.1.1.1.1.1.0.1 },
            modifiers: ModifierMask { bits: t.1.1.1.1.1.1.1.1.0 & MODIFIER_BITS },
            same_screen: t.1.1.1.1.1.1.1.1.1.0,
        }
    }
}

impl Wire for ButtonRelease {
    open spec fn wf(&self) -> bool {
        true
    }

    open spec fn canonical(&self) -> bool {
        window_carried(self.child_window) && self.modifiers.wf()
    }

    open spec fn spec_encode(&self) -> Seq<u8> {
        self.spec_layout().spec_encode()
    }

    open spec fn spec_size(&self) -> nat {
        31
    }

    open spec fn spec_decode(bytes: Seq<u8>) -> Result<(ButtonRelease, nat), DecodeError> {
        match <ButtonReleaseLayout as Wire>::spec_decode(bytes) {
            Ok((t, n)) => Ok((ButtonRelease::spec_of_layout(t), n)),
            Err(e) => Err(e),
        }
    }

    fn x11_size(&self) -> (r: usize) {
        proof {
            self.spec_layout().lemma_size();
        }
        31
    }

    fn write_to(&self, buf: &mut Vec<u8>) {
        let t: ButtonReleaseLayout = (
            self.button.0, (
            self.sequence, (
            self.time.0, (
            self.root.0, (
            self.event_window.0, (
            to_window_id(self.child_window), (
            (self.root_coords.x, self.root_coords.y), (
            (self.event_coords.x, self.event_coords.y), (
            self.modifiers.bits & MODIFIER_BITS, (
            self.same_screen,
            Reserved,
        ))))))))));
        t.write_to(buf);
    }

    fn read_from(bytes: &[u8], pos: usize) -> (r: Result<(ButtonRelease, usize), DecodeError>) {
        match <ButtonReleaseLayout as Wire>::read_from(bytes, pos) {
            Ok(((
                button, (
                sequence, (
                time, (
                root, (
                event_window, (
                child_window, (
                root_coords, (
                event_coords, (
                modifiers, (
                same_screen,
                _,
            )))))))))), p)) => Ok((
                ButtonRelease {
                    button: Button(button),
                    sequence,
                    time: Timestamp(time),
                    root: Window(root),
                    event_window: Window(event_window),
                    child_window: from_window_id(child_window),
                    root_coords: Point { x: root_coords.0, y: root_coords.1 },
                    event_coords: Point { x: event_coords.0, y: event_coords.1 },
                    modifiers: ModifierMask::from_bits_truncate(modifiers),
                    same_screen,
                },
                p,
            )),
            Err(e) => Err(e),
        }
    }

    proof fn lemma_round_trip(&self, rest: Seq<u8>) {
        lemma_modifier_truncate(self.modifiers);
        self.spec_layout().lemma_round_trip(rest);
    }

    proof fn lemma_truncated(&self, k: nat) {
        self.spec_layout().lemma_truncated(k);
    }

    proof fn lemma_size(&self) {
        self.spec_layout().lemma_size();
    }

    proof fn lemma_decode_len(bytes: Seq<u8>) {
        <ButtonReleaseLayout as Wire>::lemma_decode_len(bytes);
    }
}

/// The pointer moved within a window.
#[derive(Debug, Clone, Copy, PartialEq, Eq, Hash, Structural)]
pub struct Motion {
    /// Whether this is an ordinary motion event or a hint.
    pub notification_type: MotionNotificationType,
    /// The sequence number of the last request that the server handled before it generated this
    /// event.
    pub sequence: u16,
    /// When the event was generated.
    pub time: Timestamp,
    /// The root window of the window that held the pointer.
    pub root: Window,
    /// The window that the event is reported relative to.
    pub event_window: Window,
    /// The child of the event window that is an ancestor of, or is, the window that held the
    /// pointer, if there is one.
    pub child_window: Option<Window>,
    /// The pointer's position relative to the root window.
    pub root_coords: Point,
    /// The pointer's position relative to the event window.
    pub event_coords: Point,
    /// The modifier keys and pointer buttons held just before the event.
    pub modifiers: ModifierMask,
    /// Whether the pointer is on the event window's screen.
    pub same_screen: bool,
}

/// The fields of [`Motion`] in wire order, after the code byte.
pub type MotionLayout = (
    MotionNotificationType, (
    u16, (
    u32, (
    u32, (
    u32, (
    u32, (
    (i16, i16), (
    (i16, i16), (
    u16, (
    bool,
    Reserved<1>,
))))))))));

impl Motion {
    /// The event code.
    pub const CODE: u8 = 6;

    /// The fields in wire order, as the values that are written.
    pub open spec fn spec_layout(self) -> MotionLayout {
        (
            self.notification_type, (
            self.sequence, (
            self.time.0, (
            self.root.0, (
            self.event_window.0, (
            window_id(self.child_window), (
            (self.root_coords.x, self.root_coords.y), (
            (self.event_coords.x, self.event_coords.y), (
            self.modifiers.bits & MODIFIER_BITS, (
            self.same_screen,
            Reserved,
        ))))))))))
    }

    /// The event that a layout read back stands for.
    pub open spec fn spec_of_layout(t: MotionLayout) -> Motion {
        Motion {
            notification_type: t.0,
            sequence: t.1.0,
            time: Timestamp(t.1.1.0),
            root: Window(t.1.1.1.0),
            event_window: Window(t.1.1.1.1.0),
            child_window: window_of_id(t.1.1.1.1.1.0),
            root_coords: Point { x: t.1.1.1.1.1.1.0.0, y: t.1.1.1.1.1.1.0.1 },
            event_coords: Point { x: t.1.1.1.1.1.1.1.0.0, y: t.1.1.1.1.1.1.1.0.1 },
            modifiers: ModifierMask { bits: t.1.1.1.1.1.1.1.1.0 & MODIFIER_BITS },
            same_screen: t.1.1.1.1.1.1.1.1.1.0,
        }
    }
}

impl Wire for Motion {
    open spec fn wf(&self) -> bool {
        true
    }

    open spec fn canonical(&self) -> bool {
        window_carried(self.child_window) && self.modifiers.wf()
    }

    open spec fn spec_encode(&self) -> Seq<u8> {
        self.spec_layout().spec_encode()
    }

    open spec fn spec_size(&self) -> nat {
        31
    }

    open spec fn spec_decode(bytes: Seq<u8>) -> Result<(Motion, nat), DecodeError> {
        match <MotionLayout as Wire>::spec_decode(bytes) {
            Ok((t, n)) => Ok((Motion::spec_of_layout(t), n)),
            Err(e) => Err(e),
        }
    }

    fn x11_size(&self) -> (r: usize) {
        proof {
            self.spec_layout().lemma_size();
        }
        31
    }

    fn write_to(&self, buf: &mut Vec<u8>) {
        let t: MotionLayout = (
            self.notification_type, (
            self.sequence, (
            self.time.0, (
            self.root.0, (
            self.event_window.0, (
            to_window_id(self.child_window), (
            (self.root_coords.x, self.root_coords.y), (
            (self.event_coords.x, self.event_coords.y), (
            self.modifiers.bits & MODIFIER_BITS, (
            self.same_screen,
            Reserved,
        ))))))))));
        t.write_to(buf);
    }

    fn read_from(bytes: &[u8], pos: usize) -> (r: Result<(Motion, usize), DecodeError>) {
        match <MotionLayout as Wire>::read_from(bytes, pos) {
            Ok(((
                notification_type, (
                sequence, (
                time, (
                root, (
                event_window, (
                child_window, (
                root_coords, (
                event_coords, (
                modifiers, (
                same_screen,
                _,
            )))))))))), p)) => Ok((
                Motion {
                    notification_type,
                    sequence,
                    time: Timestamp(time),
                    root: Window(root),
                    event_window: Window(event_window),
                    child_window: from_window_id(child_window),
                    root_coords: Point { x: root_coords.0, y: root_coords.1 },
                    event_coords: Point { x: event_coords.0, y: event_coords.1 },
                    modifiers: ModifierMask::from_bits_truncate(modifiers),
                    same_screen,
                },
                p,
            )),
            Err(e) => Err(e),
        }
    }

    proof fn lemma_round_trip(&self, rest: Seq<u8>) {
        lemma_modifier_truncate(self.modifiers);
        self.spec_layout().lemma_round_trip(rest);
    }

    proof fn lemma_truncated(&self, k: nat) {
        self.spec_layout().lemma_truncated(k);
    }

    proof fn lemma_size(&self) {
        self.spec_layout().lemma_size();
    }

    proof fn lemma_decode_len(bytes: Seq<u8>) {
        <MotionLayout as Wire>::lemma_decode_len(bytes);
    }
}

/// The pointer entered a window.
#[derive(Debug, Clone, Copy, PartialEq, Eq, Hash, Structural)]
pub struct EnterWindow {
    /// How the window relates to the crossing.
    pub detail: EnterLeaveDetail,
    /// The sequence number of the last request that the server handled before it generated this
    /// event.
    pub sequence: u16,
    /// When the event was generated.
    pub time: Timestamp,
    /// The root window of the window that held the pointer.
    pub root: Window,
    /// The window that the event is reported relative to.
    pub event_window: Window,
    /// The child of the event window that is an ancestor of, or is, the window that held the
    /// pointer, if there is one.
    pub child_window: Option<Window>,
    /// The pointer's position relative to the root window.
    pub root_coords: Point,
    /// The pointer's position relative to the event window.
    pub event_coords: Point,
    /// The modifier keys and pointer buttons held just before the event.
    pub modifiers: ModifierMask,
    /// How a grab stood at the crossing.
    pub grab_mode: GrabMode,
    /// Whether the window has the focus and shares the pointer's screen.
    pub mask: EnterLeaveMask,
}

/// The fields of [`EnterWindow`] in wire order, after the code byte.
pub type EnterWindowLayout = (
    EnterLeaveDetail, (
    u16, (
    u32, (
    u32, (
    u32, (
    u32, (
    (i16, i16), (
    (i16, i16), (
    u16, (
    GrabMode,
    u8,
))))))))));

impl EnterWindow {
    /// The event code.
    pub const CODE: u8 = 7;

    /// The fields in wire order, as the values that are written.
    pub open spec fn spec_layout(self) -> EnterWindowLayout {
        (
            self.detail, (
            self.sequence, (
            self.time.0, (
            self.root.0, (
            self.event_window.0, (
            window_id(self.child_window), (
            (self.root_coords.x, self.root_coords.y), (
            (self.event_coords.x, self.event_coords.y), (
            self.modifiers.bits & MODIFIER_BITS, (
            self.grab_mode,
            self.mask.bits & ENTER_LEAVE_BITS,
        ))))))))))
    }

    /// The event that a layout read back stands for.
    pub open spec fn spec_of_layout(t: EnterWindowLayout) -> EnterWindow {
        EnterWindow {
            detail: t.0,
            sequence: t.1.0,
            time: Timestamp(t.1.1.0),
            root: Window(t.1.1.1.0),
            event_window: Window(t.1.1.1.1.0),
            child_window: window_of_id(t.1.1.1.1.1.0),
            root_coords: Point { x: t.1.1.1.1.1.1.0.0, y: t.1.1.1.1.1.1.0.1 },
            event_coords: Point { x: t.1.1.1.1.1.1.1.0.0, y: t.1.1.1.1.1.1.1.0.1 },
            modifiers: ModifierMask { bits: t.1.1.1.1.1.1.1.1.0 & MODIFIER_BITS },
            grab_mode: t.1.1.1.1.1.1.1.1.1.0,
            mask: EnterLeaveMask { bits: t.1.1.1.1.1.1.1.1.1.1 & ENTER_LEAVE_BITS },
        }
    }
}

impl Wire for EnterWindow {
    open spec fn wf(&self) -> bool {
        true
    }

    open spec fn canonical(&self) -> bool {
        window_carried(self.child_window) && self.modifiers.wf() && self.mask.wf()
    }

    open spec fn spec_encode(&self) -> Seq<u8> {
        self.spec_layout().spec_encode()
    }

    open spec fn spec_size(&self) -> nat {
        31
    }

    open spec fn spec_decode(bytes: Seq<u8>) -> Result<(EnterWindow, nat), DecodeError> {
        match <EnterWindowLayout as Wire>::spec_decode(bytes) {
            Ok((t, n)) => Ok((EnterWindow::spec_of_layout(t), n)),
            Err(e) => Err(e),
        }
    }

    fn x11_size(&self) -> (r: usize) {
        proof {
            self.spec_layout().lemma_size();
        }
        31
    }

    fn write_to(&self, buf: &mut Vec<u8>) {
        let t: EnterWindowLayout = (
            self.detail, (
            self.sequence, (
            self.time.0, (
            self.root.0, (
            self.event_window.0, (
            to_window_id(self.child_window), (
            (self.root_coords.x, self.root_coords.y), (
            (self.event_coords.x, self.event_coords.y), (
            self.modifiers.bits & MODIFIER_BITS, (
            self.grab_mode,
            self.mask.bits & ENTER_LEAVE_BITS,
        ))))))))));
        t.write_to(buf);
    }

    fn read_from(bytes: &[u8], pos: usize) -> (r: Result<(EnterWindow, usize), DecodeError>) {
        match <EnterWindowLayout as Wire>::read_from(bytes, pos) {
            Ok(((
                detail, (
                sequence, (
                time, (
                root, (
                event_window, (
                child_window, (
                root_coords, (
                event_coords, (
                modifiers, (
                grab_mode,
                mask,
            )))))))))), p)) => Ok((
                EnterWindow {
                    detail,
                    sequence,
                    time: Timestamp(time),
                    root: Window(root),
                    event_window: Window(event_window),
                    child_window: from_window_id(child_window),
                    root_coords: Point { x: root_coords.0, y: root_coords.1 },
                    event_coords: Point { x: event_coords.0, y: event_coords.1 },
                    modifiers: ModifierMask::from_bits_truncate(modifiers),
                    grab_mode,
                    mask: EnterLeaveMask::from_bits_truncate(mask),
                },
                p,
            )),
            Err(e) => Err(e),
        }
    }

    proof fn lemma_round_trip(&self, rest: Seq<u8>) {
        lemma_modifier_truncate(self.modifiers);
        lemma_enter_leave_truncate(self.mask);
        self.spec_layout().lemma_round_trip(rest);
    }

    proof fn lemma_truncated(&self, k: nat) {
        self.spec_layout().lemma_truncated(k);
    }

    proof fn lemma_size(&self) {
        self.spec_layout().lemma_size();
    }

    proof fn lemma_decode_len(bytes: Seq<u8>) {
        <EnterWindowLayout as Wire>::lemma_decode_len(bytes);
    }
}

/// The pointer left a window.
#[derive(Debug, Clone, Copy, PartialEq, Eq, Hash, Structural)]
pub struct LeaveWindow {
    /// How the window relates to the crossing.
    pub detail: EnterLeaveDetail,
    /// The sequence number of the last request that the server handled before it generated this
    /// event.
    pub sequence: u16,
    /// When the event was generated.
    pub time: Timestamp,
    /// The root window of the window that held the pointer.
    pub root: Window,
    /// The window that the event is reported relative to.
    pub event_window: Window,
    /// The child of the event window that is an ancestor of, or is, the window that held the
    /// pointer, if there is one.
    pub child_window: Option<Window>,
    /// The pointer's position relative to the root window.
    pub root_coords: Point,
    /// The pointer's position relative to the event window.
    pub event_coords: Point,
    /// The modifier keys and pointer buttons held just before the event.
    pub modifiers: ModifierMask,
    /// How a grab stood at the crossing.
    pub grab_mode: GrabMode,
    /// Whether the window has the focus and shares the pointer's screen.
    pub mask: EnterLeaveMask,
}

/// The fields of [`LeaveWindow`] in wire order, after the code byte.
pub type LeaveWindowLayout = (
    EnterLeaveDetail, (
    u16, (
    u32, (
    u32, (
    u32, (
    u32, (
    (i16, i16), (
    (i16, i16), (
    u16, (
    GrabMode,
    u8,
))))))))));

impl LeaveWindow {
    /// The event code.
    pub const CODE: u8 = 8;

    /// The fields in wire order, as the values that are written.
    pub open spec fn spec_layout(self) -> LeaveWindowLayout {
        (
            self.detail, (
            self.sequence, (
            self.time.0, (
            self.root.0, (
            self.event_window.0, (
            window_id(self.child_window), (
            (self.root_coords.x, self.root_coords.y), (
            (self.event_coords.x, self.event_coords.y), (
            self.modifiers.bits & MODIFIER_BITS, (
            self.grab_mode,
            self.mask.bits & ENTER_LEAVE_BITS,
        ))))))))))
    }

    /// The event that a layout read back stands for.
    pub open spec fn spec_of_layout(t: LeaveWindowLayout) -> LeaveWindow {
        LeaveWindow {
            detail: t.0,
            sequence: t.1.0,
            time: Timestamp(t.1.1.0),
            root: Window(t.1.1.1.0),
            event_window: Window(t.1.1.1.1.0),
            child_window: window_of_id(t.1.1.1.1.1.0),
            root_coords: Point { x: t.1.1.1.1.1.1.0.0, y: t.1.1.1.1.1.1.0.1 },
            event_coords: Point { x: t.1.1.1.1.1.1.1.0.0, y: t.1.1.1.1.1.1.1.0.1 },
            modifiers: ModifierMask { bits: t.1.1.1.1.1.1.1.1.0 & MODIFIER_BITS },
            grab_mode: t.1.1.1.1.1.1.1.1.1.0,
            mask: EnterLeaveMask { bits: t.1.1.1.1.1.1.1.1.1.1 & ENTER_LEAVE_BITS },
        }
    }
}

impl Wire for LeaveWindow {
    open spec fn wf(&self) -> bool {
        true
    }

    open spec fn canonical(&self) -> bool {
        window_carried(self.child_window) && self.modifiers.wf() && self.mask.wf()
    }

    open spec fn spec_encode(&self) -> Seq<u8> {
        self.spec_layout().spec_encode()
    }

    open spec fn spec_size(&self) -> nat {
        31
    }

    open spec fn spec_decode(bytes: Seq<u8>) -> Result<(LeaveWindow, nat), DecodeError> {
        match <LeaveWindowLayout as Wire>::spec_decode(bytes) {
            Ok((t, n)) => Ok((LeaveWindow::spec_of_layout(t), n)),
            Err(e) => Err(e),
        }
    }

    fn x11_size(&self) -> (r: usize) {
        proof {
            self.spec_layout().lemma_size();
        }
        31
    }

    fn write_to(&self, buf: &mut Vec<u8>) {
        let t: LeaveWindowLayout = (
            self.detail, (
            self.sequence, (
            self.time.0, (
            self.root.0, (
            self.event_window.0, (
            to_window_id(self.child_window), (
            (self.root_coords.x, self.root_coords.y), (
            (self.event_coords.x, self.event_coords.y), (
            self.modifiers.bits & MODIFIER_BITS, (
            self.grab_mode,
            self.mask.bits & ENTER_LEAVE_BITS,
        ))))))))));
        t.write_to(buf);
    }

    fn read_from(bytes: &[u8], pos: usize) -> (r: Result<(LeaveWindow, usize), DecodeError>) {
        match <LeaveWindowLayout as Wire>::read_from(bytes, pos) {
            Ok(((
                detail, (
                sequence, (
                time, (
                root, (
                event_window, (
                child_window, (
                root_coords, (
                event_coords, (
                modifiers, (
                grab_mode,
                mask,
            )))))))))), p)) => Ok((
                LeaveWindow {
                    detail,
                    sequence,
                    time: Timestamp(time),
                    root: Window(root),
                    event_window: Window(event_window),
                    child_window: from_window_id(child_window),
                    root_coords: Point { x: root_coords.0, y: root_coords.1 },
                    event_coords: Point { x: event_coords.0, y: event_coords.1 },
                    modifiers: ModifierMask::from_bits_truncate(modifiers),
                    grab_mode,
                    mask: EnterLeaveMask::from_bits_truncate(mask),
                },
                p,
            )),
            Err(e) => Err(e),
        }
    }

    proof fn lemma_round_trip(&self, rest: Seq<u8>) {
        lemma_modifier_truncate(self.modifiers);
        lemma_enter_leave_truncate(self.mask);
        self.spec_layout().lemma_round_trip(rest);
    }

    proof fn lemma_truncated(&self, k: nat) {
        self.spec_layout().lemma_truncated(k);
    }

    proof fn lemma_size(&self) {
        self.spec_layout().lemma_size();
    }

    proof fn lemma_decode_len(bytes: Seq<u8>) {
        <LeaveWindowLayout as Wire>::lemma_decode_len(bytes);
    }
}

/// A window gained the keyboard focus.
#[derive(Debug, Clone, Copy, PartialEq, Eq, Hash, Structural)]
pub struct WindowFocused {
    /// How the window relates to the focus change.
    pub detail: FocusDetail,
    /// The sequence number of the last request that the server handled before it generated this
    /// event.
    pub sequence: u16,
    /// The window that gained the focus.
    pub window: Window,
    /// How a keyboard grab stood at the change.
    pub grab_mode: FocusGrabMode,
}

/// The fields of [`WindowFocused`] in wire order, after the code byte.
pub type WindowFocusedLayout = (FocusDetail, (u16, (u32, (FocusGrabMode, Reserved<23>))));

impl WindowFocused {
    /// The event code.
    pub const CODE: u8 = 9;

    /// The fields in wire order, as the values that are written.
    pub open spec fn spec_layout(self) -> WindowFocusedLayout {
        (self.detail, (self.sequence, (self.window.0, (self.grab_mode, Reserved))))
    }

    /// The event that a layout read back stands for.
    pub open spec fn spec_of_layout(t: WindowFocusedLayout) -> WindowFocused {
        WindowFocused {
            detail: t.0,
            sequence: t.1.0,
            window: Window(t.1.1.0),
            grab_mode: t.1.1.1.0,
        }
    }
}

impl Wire for WindowFocused {
    open spec fn wf(&self) -> bool {
        true
    }

    open spec fn canonical(&self) -> bool {
        true
    }

    open spec fn spec_encode(&self) -> Seq<u8> {
        self.spec_layout().spec_encode()
    }

    open spec fn spec_size(&self) -> nat {
        31
    }

    open spec fn spec_decode(bytes: Seq<u8>) -> Result<(WindowFocused, nat), DecodeError> {
        match <WindowFocusedLayout as Wire>::spec_decode(bytes) {
            Ok((t, n)) => Ok((WindowFocused::spec_of_layout(t), n)),
            Err(e) => Err(e),
        }
    }

    fn x11_size(&self) -> (r: usize) {
        proof {
            self.spec_layout().lemma_size();
        }
        31
    }

    fn write_to(&self, buf: &mut Vec<u8>) {
        let t: WindowFocusedLayout = (self.detail, (self.sequence, (self.window.0, (self.grab_mode, Reserved))));
        t.write_to(buf);
    }

    fn read_from(bytes: &[u8], pos: usize) -> (r: Result<(WindowFocused, usize), DecodeError>) {
        match <WindowFocusedLayout as Wire>::read_from(bytes, pos) {
            Ok(((detail, (sequence, (window, (grab_mode, _)))), p)) => Ok((
                WindowFocused {
                    detail,
                    sequence,
                    window: Window(window),
                    grab_mode,
                },
                p,
            )),
            Err(e) => Err(e),
        }
    }

    proof fn lemma_round_trip(&self, rest: Seq<u8>) {
        self.spec_layout().lemma_round_trip(rest);
    }

    proof fn lemma_truncated(&self, k: nat) {
        self.spec_layout().lemma_truncated(k);
    }

    proof fn lemma_size(&self) {
        self.spec_layout().lemma_size();
    }

    proof fn lemma_decode_len(bytes: Seq<u8>) {
        <WindowFocusedLayout as Wire>::lemma_decode_len(bytes);
    }
}

/// A window lost the keyboard focus.
#[derive(Debug, Clone, Copy, PartialEq, Eq, Hash, Structural)]
pub struct WindowUnfocused {
    /// How the window relates to the focus change.
    pub detail: FocusDetail,
    /// The sequence number of the last request that the server handled before it generated this
    /// event.
    pub sequence: u16,
    /// The window that lost the focus.
    pub window: Window,
    /// How a keyboard grab stood at the change.
    pub grab_mode: FocusGrabMode,
}

/// The fields of [`WindowUnfocused`] in wire order, after the code byte.
pub type WindowUnfocusedLayout = (FocusDetail, (u16, (u32, (FocusGrabMode, Reserved<23>))));

impl WindowUnfocused {
    /// The event code.
    pub const CODE: u8 = 10;

    /// The fields in wire order, as the values that are written.
    pub open spec fn spec_layout(self) -> WindowUnfocusedLayout {
        (self.detail, (self.sequence, (self.window.0, (self.grab_mode, Reserved))))
    }

    /// The event that a layout read back stands for.
    pub open spec fn spec_of_layout(t: WindowUnfocusedLayout) -> WindowUnfocused {
        WindowUnfocused {
            detail: t.0,
            sequence: t.1.0,
            window: Window(t.1.1.0),
            grab_mode: t.1.1.1.0,
        }
    }
}

impl Wire for WindowUnfocused {
    open spec fn wf(&self) -> bool {
        true
    }

    open spec fn canonical(&self) -> bool {
        true
    }

    open spec fn spec_encode(&self) -> Seq<u8> {
        self.spec_layout().spec_encode()
    }

    open spec fn spec_size(&self) -> nat {
        31
    }

    open spec fn spec_decode(bytes: Seq<u8>) -> Result<(WindowUnfocused, nat), DecodeError> {
        match <WindowUnfocusedLayout as Wire>::spec_decode(bytes) {
            Ok((t, n)) => Ok((WindowUnfocused::spec_of_layout(t), n)),
            Err(e) => Err(e),
        }
    }

    fn x11_size(&self) -> (r: usize) {
        proof {
            self.spec_layout().lemma_size();
        }
        31
    }

    fn write_to(&self, buf: &mut Vec<u8>) {
        let t: WindowUnfocusedLayout = (self.detail, (self.sequence, (self.window.0, (self.grab_mode, Reserved))));
        t.write_to(buf);
    }

    fn read_from(bytes: &[u8], pos: usize) -> (r: Result<(WindowUnfocused, usize), DecodeError>) {
        match <WindowUnfocusedLayout as Wire>::read_from(bytes, pos) {
            Ok(((detail, (sequence, (window, (grab_mode, _)))), p)) => Ok((
                WindowUnfocused {
                    detail,
                    sequence,
                    window: Window(window),
                    grab_mode,
                },
                p,
            )),
            Err(e) => Err(e),
        }
    }

    proof fn lemma_round_trip(&self, rest: Seq<u8>) {
        self.spec_layout().lemma_round_trip(rest);
    }

    proof fn lemma_truncated(&self, k: nat) {
        self.spec_layout().lemma_truncated(k);
    }

    proof fn lemma_size(&self) {
        self.spec_layout().lemma_size();
    }

    proof fn lemma_decode_len(bytes: Seq<u8>) {
        <WindowUnfocusedLayout as Wire>::lemma_decode_len(bytes);
    }
}

/// The state of the whole keyboard, sent after a focus or pointer-crossing
/// event to clients that asked for it. It has no sequence number: its 31
/// bytes after the code byte are all data.
#[derive(Debug, Clone, Copy, PartialEq, Eq, Hash)]
pub struct Keymap {
    /// One bit for each key from keycode 8 to 255, eight keys to a byte,
    /// starting at the least significant bit; set when the key is held.
    pub keys: [u8; 31],
}

impl Keymap {
    /// The event code.
    pub const CODE: u8 = 11;
}

impl Wire for Keymap {
    open spec fn wf(&self) -> bool {
        true
    }

    open spec fn canonical(&self) -> bool {
        true
    }

    open spec fn spec_encode(&self) -> Seq<u8> {
        self.keys.spec_encode()
    }

    open spec fn spec_size(&self) -> nat {
        31
    }

    open spec fn spec_decode(bytes: Seq<u8>) -> Result<(Keymap, nat), DecodeError> {
        match <[u8; 31] as Wire>::spec_decode(bytes) {
            Ok((keys, n)) => Ok((Keymap { keys }, n)),
            Err(e) => Err(e),
        }
    }

    fn x11_size(&self) -> (r: usize) {
        31
    }

    fn write_to(&self, buf: &mut Vec<u8>) {
        self.keys.write_to(buf);
    }

    fn read_from(bytes: &[u8], pos: usize) -> (r: Result<(Keymap, usize), DecodeError>) {
        match <[u8; 31] as Wire>::read_from(bytes, pos) {
            Ok((keys, p)) => Ok((Keymap { keys }, p)),
            Err(e) => Err(e),
        }
    }

    proof fn lemma_round_trip(&self, rest: Seq<u8>) {
        self.keys.lemma_round_trip(rest);
    }

    proof fn lemma_truncated(&self, k: nat) {
        self.keys.lemma_truncated(k);
    }

    proof fn lemma_size(&self) {
    }

    proof fn lemma_decode_len(bytes: Seq<u8>) {
        <[u8; 31] as Wire>::lemma_decode_len(bytes);
    }
}

/// A region of a window has to be redrawn.
#[derive(Debug, Clone, Copy, PartialEq, Eq, Hash, Structural)]
pub struct Expose {
    /// The sequence number of the last request that the server handled before it generated this
    /// event.
    pub sequence: u16,
    /// The window to redraw.
    pub window: Window,
    /// The left edge of the region.
    pub x: u16,
    /// The top edge of the region.
    pub y: u16,
    /// The region's width.
    pub width: u16,
    /// The region's height.
    pub height: u16,
    /// How many more such events follow for the same window.
    pub count: u16,
}

/// The fields of [`Expose`] in wire order, after the code byte.
pub type ExposeLayout = (Reserved<1>, (u16, (u32, (u16, (u16, (u16, (u16, (u16, Reserved<14>))))))));

impl Expose {
    /// The event code.
    pub const CODE: u8 = 12;

    /// The fields in wire order, as the values that are written.
    pub open spec fn spec_layout(self) -> ExposeLayout {
        (
            Reserved, (
            self.sequence, (
            self.window.0, (
            self.x, (
            self.y, (
            self.width, (
            self.height, (
            self.count,
            Reserved,
        ))))))))
    }

    /// The event that a layout read back stands for.
    pub open spec fn spec_of_layout(t: ExposeLayout) -> Expose {
        Expose {
            sequence: t.1.0,
            window: Window(t.1.1.0),
            x: t.1.1.1.0,
            y: t.1.1.1.1.0,
            width: t.1.1.1.1.1.0,
            height: t.1.1.1.1.1.1.0,
            count: t.1.1.1.1.1.1.1.0,
        }
    }
}

impl Wire for Expose {
    open spec fn wf(&self) -> bool {
        true
    }

    open spec fn canonical(&self) -> bool {
        true
    }

    open spec fn spec_encode(&self) -> Seq<u8> {
        self.spec_layout().spec_encode()
    }

    open spec fn spec_size(&self) -> nat {
        31
    }

    open spec fn spec_decode(bytes: Seq<u8>) -> Result<(Expose, nat), DecodeError> {
        match <ExposeLayout as Wire>::spec_decode(bytes) {
            Ok((t, n)) => Ok((Expose::spec_of_layout(t), n)),
            Err(e) => Err(e),
        }
    }

    fn x11_size(&self) -> (r: usize) {
        proof {
            self.spec_layout().lemma_size();
        }
        31
    }

    fn write_to(&self, buf: &mut Vec<u8>) {
        let t: ExposeLayout = (
            Reserved, (
            self.sequence, (
            self.window.0, (
            self.x, (
            self.y, (
            self.width, (
            self.height, (
            self.count,
            Reserved,
        ))))))));
        t.write_to(buf);
    }

    fn read_from(bytes: &[u8], pos: usize) -> (r: Result<(Expose, usize), DecodeError>) {
        match <ExposeLayout as Wire>::read_from(bytes, pos) {
            Ok(((_, (sequence, (window, (x, (y, (width, (height, (count, _)))))))), p)) => Ok((
                Expose {
                    sequence,
                    window: Window(window),
                    x,
                    y,
                    width,
                    height,
                    count,
                },
                p,
            )),
            Err(e) => Err(e),
        }
    }

    proof fn lemma_round_trip(&self, rest: Seq<u8>) {
        self.spec_layout().lemma_round_trip(rest);
    }

    proof fn lemma_truncated(&self, k: nat) {
        self.spec_layout().lemma_truncated(k);
    }

    proof fn lemma_size(&self) {
        self.spec_layout().lemma_size();
    }

    proof fn lemma_decode_len(bytes: Seq<u8>) {
        <ExposeLayout as Wire>::lemma_decode_len(bytes);
    }
}

/// A region of a drawable could not be copied because its source was obscured.
#[derive(Debug, Clone, Copy, PartialEq, Eq, Hash, Structural)]
pub struct GraphicsExposure {
    /// The sequence number of the last request that the server handled before it generated this
    /// event.
    pub sequence: u16,
    /// The destination of the copy.
    pub drawable: Drawable,
    /// The left edge of the region.
    pub x: u16,
    /// The top edge of the region.
    pub y: u16,
    /// The region's width.
    pub width: u16,
    /// The region's height.
    pub height: u16,
    /// The minor opcode of the request that copied.
    pub minor_opcode: u16,
    /// How many more such events follow for the same request.
    pub count: u16,
    /// The major opcode of the request that copied.
    pub major_opcode: u8,
}

/// The fields of [`GraphicsExposure`] in wire order, after the code byte.
pub type GraphicsExposureLayout = (
    Reserved<1>, (
    u16, (
    u32, (
    u16, (
    u16, (
    u16, (
    u16, (
    u16, (
    u16, (
    u8,
    Reserved<11>,
))))))))));

impl GraphicsExposure {
    /// The event code.
    pub const CODE: u8 = 13;

    /// The fields in wire order, as the values that are written.
    pub open spec fn spec_layout(self) -> GraphicsExposureLayout {
        (
            Reserved, (
            self.sequence, (
            self.drawable.0, (
            self.x, (
            self.y, (
            self.width, (
            self.height, (
            self.minor_opcode, (
            self.count, (
            self.major_opcode,
            Reserved,
        ))))))))))
    }

    /// The event that a layout read back stands for.
    pub open spec fn spec_of_layout(t: GraphicsExposureLayout) -> GraphicsExposure {
        GraphicsExposure {
            sequence: t.1.0,
            drawable: Drawable(t.1.1.0),
            x: t.1.1.1.0,
            y: t.1.1.1.1.0,
            width: t.1.1.1.1.1.0,
            height: t.1.1.1.1.1.1.0,
            minor_opcode: t.1.1.1.1.1.1.1.0,
            count: t.1.1.1.1.1.1.1.1.0,
            major_opcode: t.1.1.1.1.1.1.1.1.1.0,
        }
    }
}

impl Wire for GraphicsExposure {
    open spec fn wf(&self) -> bool {
        true
    }

    open spec fn canonical(&self) -> bool {
        true
    }

    open spec fn spec_encode(&self) -> Seq<u8> {
        self.spec_layout().spec_encode()
    }

    open spec fn spec_size(&self) -> nat {
        31
    }

    open spec fn spec_decode(bytes: Seq<u8>) -> Result<(GraphicsExposure, nat), DecodeError> {
        match <GraphicsExposureLayout as Wire>::spec_decode(bytes) {
            Ok((t, n)) => Ok((GraphicsExposure::spec_of_layout(t), n)),
            Err(e) => Err(e),
        }
    }

    fn x11_size(&self) -> (r: usize) {
        proof {
            self.spec_layout().lemma_size();
        }
        31
    }

    fn write_to(&self, buf: &mut Vec<u8>) {
        let t: GraphicsExposureLayout = (
            Reserved, (
            self.sequence, (
            self.drawable.0, (
            self.x, (
            self.y, (
            self.width, (
            self.height, (
            self.minor_opcode, (
            self.count, (
            self.major_opcode,
            Reserved,
        ))))))))));
        t.write_to(buf);
    }

    fn read_from(bytes: &[u8], pos: usize) -> (r: Result<(GraphicsExposure, usize), DecodeError>) {
        match <GraphicsExposureLayout as Wire>::read_from(bytes, pos) {
            Ok(((
                _, (
                sequence, (
                drawable, (
                x, (
                y, (
                width, (
                height, (
                minor_opcode, (
                count, (
                major_opcode,
                _,
            )))))))))), p)) => Ok((
                GraphicsExposure {
                    sequence,
                    drawable: Drawable(drawable),
                    x,
                    y,
                    width,
                    height,
                    minor_opcode,
                    count,
                    major_opcode,
                },
                p,
            )),
            Err(e) => Err(e),
        }
    }

    proof fn lemma_round_trip(&self, rest: Seq<u8>) {
        self.spec_layout().lemma_round_trip(rest);
    }

    proof fn lemma_truncated(&self, k: nat) {
        self.spec_layout().lemma_truncated(k);
    }

    proof fn lemma_size(&self) {
        self.spec_layout().lemma_size();
    }

    proof fn lemma_decode_len(bytes: Seq<u8>) {
        <GraphicsExposureLayout as Wire>::lemma_decode_len(bytes);
    }
}

/// A copy that could have produced exposure events produced none.
#[derive(Debug, Clone, Copy, PartialEq, Eq, Hash, Structural)]
pub struct NoExposure {
    /// The sequence number of the last request that the server handled before it generated this
    /// event.
    pub sequence: u16,
    /// The destination of the copy.
    pub drawable: Drawable,
    /// The minor opcode of the request that copied.
    pub minor_opcode: u16,
    /// The major opcode of the request that copied.
    pub major_opcode: u8,
}

/// The fields of [`NoExposure`] in wire order, after the code byte.
pub type NoExposureLayout = (Reserved<1>, (u16, (u32, (u16, (u8, Reserved<21>)))));

impl NoExposure {
    /// The event code.
    pub const CODE: u8 = 14;

    /// The fields in wire order, as the values that are written.
    pub open spec fn spec_layout(self) -> NoExposureLayout {
        (
            Reserved, (
            self.sequence, (
            self.drawable.0, (
            self.minor_opcode, (
            self.major_opcode,
            Reserved,
        )))))
    }

    /// The event that a layout read back stands for.
    pub open spec fn spec_of_layout(t: NoExposureLayout) -> NoExposure {
        NoExposure {
            sequence: t.1.0,
            drawable: Drawable(t.1.1.0),
            minor_opcode: t.1.1.1.0,
            major_opcode: t.1.1.1.1.0,
        }
    }
}

impl Wire for NoExposure {
    open spec fn wf(&self) -> bool {
        true
    }

    open spec fn canonical(&self) -> bool {
        true
    }

    open spec fn spec_encode(&self) -> Seq<u8> {
        self.spec_layout().spec_encode()
    }

    open spec fn spec_size(&self) -> nat {
        31
    }

    open spec fn spec_decode(bytes: Seq<u8>) -> Result<(NoExposure, nat), DecodeError> {
        match <NoExposureLayout as Wire>::spec_decode(bytes) {
            Ok((t, n)) => Ok((NoExposure::spec_of_layout(t), n)),
            Err(e) => Err(e),
        }
    }

    fn x11_size(&self) -> (r: usize) {
        proof {
            self.spec_layout().lemma_size();
        }
        31
    }

    fn write_to(&self, buf: &mut Vec<u8>) {
        let t: NoExposureLayout = (
            Reserved, (
            self.sequence, (
            self.drawable.0, (
            self.minor_opcode, (
            self.major_opcode,
            Reserved,
        )))));
        t.write_to(buf);
    }

    fn read_from(bytes: &[u8], pos: usize) -> (r: Result<(NoExposure, usize), DecodeError>) {
        match <NoExposureLayout as Wire>::read_from(bytes, pos) {
            Ok(((_, (sequence, (drawable, (minor_opcode, (major_opcode, _))))), p)) => Ok((
                NoExposure {
                    sequence,
                    drawable: Drawable(drawable),
                    minor_opcode,
                    major_opcode,
                },
                p,
            )),
            Err(e) => Err(e),
        }
    }

    proof fn lemma_round_trip(&self, rest: Seq<u8>) {
        self.spec_layout().lemma_round_trip(rest);
    }

    proof fn lemma_truncated(&self, k: nat) {
        self.spec_layout().lemma_truncated(k);
    }

    proof fn lemma_size(&self) {
        self.spec_layout().lemma_size();
    }

    proof fn lemma_decode_len(bytes: Seq<u8>) {
        <NoExposureLayout as Wire>::lemma_decode_len(bytes);
    }
}

/// A window's visibility changed.
#[derive(Debug, Clone, Copy, PartialEq, Eq, Hash, Structural)]
pub struct VisibilityChanged {
    /// The sequence number of the last request that the server handled before it generated this
    /// event.
    pub sequence: u16,
    /// The window whose visibility changed.
    pub window: Window,
    /// How much of the window can now be seen.
    pub visibility: Visibility,
}

/// The fields of [`VisibilityChanged`] in wire order, after the code byte.
pub type VisibilityChangedLayout = (Reserved<1>, (u16, (u32, (Visibility, Reserved<23>))));

impl VisibilityChanged {
    /// The event code.
    pub const CODE: u8 = 15;

    /// The fields in wire order, as the values that are written.
    pub open spec fn spec_layout(self) -> VisibilityChangedLayout {
        (Reserved, (self.sequence, (self.window.0, (self.visibility, Reserved))))
    }

    /// The event that a layout read back stands for.
    pub open spec fn spec_of_layout(t: VisibilityChangedLayout) -> VisibilityChanged {
        VisibilityChanged {
            sequence: t.1.0,
            window: Window(t.1.1.0),
            visibility: t.1.1.1.0,
        }
    }
}

impl Wire for VisibilityChanged {
    open spec fn wf(&self) -> bool {
        true
    }

    open spec fn canonical(&self) -> bool {
        true
    }

    open spec fn spec_encode(&self) -> Seq<u8> {
        self.spec_layout().spec_encode()
    }

    open spec fn spec_size(&self) -> nat {
        31
    }

    open spec fn spec_decode(bytes: Seq<u8>) -> Result<(VisibilityChanged, nat), DecodeError> {
        match <VisibilityChangedLayout as Wire>::spec_decode(bytes) {
            Ok((t, n)) => Ok((VisibilityChanged::spec_of_layout(t), n)),
            Err(e) => Err(e),
        }
    }

    fn x11_size(&self) -> (r: usize) {
        proof {
            self.spec_layout().lemma_size();
        }
        31
    }

    fn write_to(&self, buf: &mut Vec<u8>) {
        let t: VisibilityChangedLayout = (Reserved, (self.sequence, (self.window.0, (self.visibility, Reserved))));
        t.write_to(buf);
    }

    fn read_from(bytes: &[u8], pos: usize) -> (r: Result<(VisibilityChanged, usize), DecodeError>) {
        match <VisibilityChangedLayout as Wire>::read_from(bytes, pos) {
            Ok(((_, (sequence, (window, (visibility, _)))), p)) => Ok((
                VisibilityChanged {
                    sequence,
                    window: Window(window),
                    visibility,
                },
                p,
            )),
            Err(e) => Err(e),
        }
    }

    proof fn lemma_round_trip(&self, rest: Seq<u8>) {
        self.spec_layout().lemma_round_trip(rest);
    }

    proof fn lemma_truncated(&self, k: nat) {
        self.spec_layout().lemma_truncated(k);
    }

    proof fn lemma_size(&self) {
        self.spec_layout().lemma_size();
    }

    proof fn lemma_decode_len(bytes: Seq<u8>) {
        <VisibilityChangedLayout as Wire>::lemma_decode_len(bytes);
    }
}

/// A window was created.
#[derive(Debug, Clone, Copy, PartialEq, Eq, Hash, Structural)]
pub struct WindowCreated {
    /// The sequence number of the last request that the server handled before it generated this
    /// event.
    pub sequence: u16,
    /// The new window's parent.
    pub parent: Window,
    /// The window that was created.
    pub window: Window,
    /// The window's left edge, relative to its parent.
    pub x: i16,
    /// The window's top edge, relative to its parent.
    pub y: i16,
    /// The window's width.
    pub width: u16,
    /// The window's height.
    pub height: u16,
    /// The width of the window's border.
    pub border_width: u16,
    /// Whether the window overrides redirection of its mapping and configuration.
    pub override_redirect: bool,
}

/// The fields of [`WindowCreated`] in wire order, after the code byte.
pub type WindowCreatedLayout = (
    Reserved<1>, (
    u16, (
    u32, (
    u32, (
    i16, (
    i16, (
    u16, (
    u16, (
    u16, (
    bool,
    Reserved<9>,
))))))))));

impl WindowCreated {
    /// The event code.
    pub const CODE: u8 = 16;

    /// The fields in wire order, as the values that are written.
    pub open spec fn spec_layout(self) -> WindowCreatedLayout {
        (
            Reserved, (
            self.sequence, (
            self.parent.0, (
            self.window.0, (
            self.x, (
            self.y, (
            self.width, (
            self.height, (
            self.border_width, (
            self.override_redirect,
            Reserved,
        ))))))))))
    }

    /// The event that a layout read back stands for.
    pub open spec fn spec_of_layout(t: WindowCreatedLayout) -> WindowCreated {
        WindowCreated {
            sequence: t.1.0,
            parent: Window(t.1.1.0),
            window: Window(t.1.1.1.0),
            x: t.1.1.1.1.0,
            y: t.1.1.1.1.1.0,
            width: t.1.1.1.1.1.1.0,
            height: t.1.1.1.1.1.1.1.0,
            border_width: t.1.1.1.1.1.1.1.1.0,
            override_redirect: t.1.1.1.1.1.1.1.1.1.0,
        }
    }
}

impl Wire for WindowCreated {
    open spec fn wf(&self) -> bool {
        true
    }

    open spec fn canonical(&self) -> bool {
        true
    }

    open spec fn spec_encode(&self) -> Seq<u8> {
        self.spec_layout().spec_encode()
    }

    open spec fn spec_size(&self) -> nat {
        31
    }

    open spec fn spec_decode(bytes: Seq<u8>) -> Result<(WindowCreated, nat), DecodeError> {
        match <WindowCreatedLayout as Wire>::spec_decode(bytes) {
            Ok((t, n)) => Ok((WindowCreated::spec_of_layout(t), n)),
            Err(e) => Err(e),
        }
    }

    fn x11_size(&self) -> (r: usize) {
        proof {
            self.spec_layout().lemma_size();
        }
        31
    }

    fn write_to(&self, buf: &mut Vec<u8>) {
        let t: WindowCreatedLayout = (
            Reserved, (
            self.sequence, (
            self.parent.0, (
            self.window.0, (
            self.x, (
            self.y, (
            self.width, (
            self.height, (
            self.border_width, (
            self.override_redirect,
            Reserved,
        ))))))))));
        t.write_to(buf);
    }

    fn read_from(bytes: &[u8], pos: usize) -> (r: Result<(WindowCreated, usize), DecodeError>) {
        match <WindowCreatedLayout as Wire>::read_from(bytes, pos) {
            Ok(((
                _, (
                sequence, (
                parent, (
                window, (
                x, (
                y, (
                width, (
                height, (
                border_width, (
                override_redirect,
                _,
            )))))))))), p)) => Ok((
                WindowCreated {
                    sequence,
                    parent: Window(parent),
                    window: Window(window),
                    x,
                    y,
                    width,
                    height,
                    border_width,
                    override_redirect,
                },
                p,
            )),
            Err(e) => Err(e),
        }
    }

    proof fn lemma_round_trip(&self, rest: Seq<u8>) {
        self.spec_layout().lemma_round_trip(rest);
    }

    proof fn lemma_truncated(&self, k: nat) {
        self.spec_layout().lemma_truncated(k);
    }

    proof fn lemma_size(&self) {
        self.spec_layout().lemma_size();
    }

    proof fn lemma_decode_len(bytes: Seq<u8>) {
        <WindowCreatedLayout as Wire>::lemma_decode_len(bytes);
    }
}

/// A window was destroyed.
#[derive(Debug, Clone, Copy, PartialEq, Eq, Hash, Structural)]
pub struct WindowDestroyed {
    /// The sequence number of the last request that the server handled before it generated this
    /// event.
    pub sequence: u16,
    /// The window that the event was reported on.
    pub window: Window,
    /// The window that was destroyed.
    pub destroyed_window: Window,
}

/// The fields of [`WindowDestroyed`] in wire order, after the code byte.
pub type WindowDestroyedLayout = (Reserved<1>, (u16, (u32, (u32, Reserved<20>))));

impl WindowDestroyed {
    /// The event code.
    pub const CODE: u8 = 17;

    /// The fields in wire order, as the values that are written.
    pub open spec fn spec_layout(self) -> WindowDestroyedLayout {
        (
            Reserved, (
            self.sequence, (
            self.window.0, (
            self.destroyed_window.0,
            Reserved,
        ))))
    }

    /// The event that a layout read back stands for.
    pub open spec fn spec_of_layout(t: WindowDestroyedLayout) -> WindowDestroyed {
        WindowDestroyed {
            sequence: t.1.0,
            window: Window(t.1.1.0),
            destroyed_window: Window(t.1.1.1.0),
        }
    }
}

impl Wire for WindowDestroyed {
    open spec fn wf(&self) -> bool {
        true
    }

    open spec fn canonical(&self) -> bool {
        true
    }

    open spec fn spec_encode(&self) -> Seq<u8> {
        self.spec_layout().spec_encode()
    }

    open spec fn spec_size(&self) -> nat {
        31
    }

    open spec fn spec_decode(bytes: Seq<u8>) -> Result<(WindowDestroyed, nat), DecodeError> {
        match <WindowDestroyedLayout as Wire>::spec_decode(bytes) {
            Ok((t, n)) => Ok((WindowDestroyed::spec_of_layout(t), n)),
            Err(e) => Err(e),
        }
    }

    fn x11_size(&self) -> (r: usize) {
        proof {
            self.spec_layout().lemma_size();
        }
        31
    }

    fn write_to(&self, buf: &mut Vec<u8>) {
        let t: WindowDestroyedLayout = (
            Reserved, (
            self.sequence, (
            self.window.0, (
            self.destroyed_window.0,
            Reserved,
        ))));
        t.write_to(buf);
    }

    fn read_from(bytes: &[u8], pos: usize) -> (r: Result<(WindowDestroyed, usize), DecodeError>) {
        match <WindowDestroyedLayout as Wire>::read_from(bytes, pos) {
            Ok(((_, (sequence, (window, (destroyed_window, _)))), p)) => Ok((
                WindowDestroyed {
                    sequence,
                    window: Window(window),
                    destroyed_window: Window(destroyed_window),
                },
                p,
            )),
            Err(e) => Err(e),
        }
    }

    proof fn lemma_round_trip(&self, rest: Seq<u8>) {
        self.spec_layout().lemma_round_trip(rest);
    }

    proof fn lemma_truncated(&self, k: nat) {
        self.spec_layout().lemma_truncated(k);
    }

    proof fn lemma_size(&self) {
        self.spec_layout().lemma_size();
    }

    proof fn lemma_decode_len(bytes: Seq<u8>) {
        <WindowDestroyedLayout as Wire>::lemma_decode_len(bytes);
    }
}

/// A window was unmapped.
#[derive(Debug, Clone, Copy, PartialEq, Eq, Hash, Structural)]
pub struct WindowUnmapped {
    /// The sequence number of the last request that the server handled before it generated this
    /// event.
    pub sequence: u16,
    /// The window that the event was reported on.
    pub window: Window,
    /// The window that was unmapped.
    pub unmapped_window: Window,
    /// Whether the unmapping came from a change of the parent's window gravity.
    pub from_configure: bool,
}

/// The fields of [`WindowUnmapped`] in wire order, after the code byte.
pub type WindowUnmappedLayout = (Reserved<1>, (u16, (u32, (u32, (bool, Reserved<19>)))));

impl WindowUnmapped {
    /// The event code.
    pub const CODE: u8 = 18;

    /// The fields in wire order, as the values that are written.
    pub open spec fn spec_layout(self) -> WindowUnmappedLayout {
        (
            Reserved, (
            self.sequence, (
            self.window.0, (
            self.unmapped_window.0, (
            self.from_configure,
            Reserved,
        )))))
    }

    /// The event that a layout read back stands for.
    pub open spec fn spec_of_layout(t: WindowUnmappedLayout) -> WindowUnmapped {
        WindowUnmapped {
            sequence: t.1.0,
            window: Window(t.1.1.0),
            unmapped_window: Window(t.1.1.1.0),
            from_configure: t.1.1.1.1.0,
        }
    }
}

impl Wire for WindowUnmapped {
    open spec fn wf(&self) -> bool {
        true
    }

    open spec fn canonical(&self) -> bool {
        true
    }

    open spec fn spec_encode(&self) -> Seq<u8> {
        self.spec_layout().spec_encode()
    }

    open spec fn spec_size(&self) -> nat {
        31
    }

    open spec fn spec_decode(bytes: Seq<u8>) -> Result<(WindowUnmapped, nat), DecodeError> {
        match <WindowUnmappedLayout as Wire>::spec_decode(bytes) {
            Ok((t, n)) => Ok((WindowUnmapped::spec_of_layout(t), n)),
            Err(e) => Err(e),
        }
    }

    fn x11_size(&self) -> (r: usize) {
        proof {
            self.spec_layout().lemma_size();
        }
        31
    }

    fn write_to(&self, buf: &mut Vec<u8>) {
        let t: WindowUnmappedLayout = (
            Reserved, (
            self.sequence, (
            self.window.0, (
            self.unmapped_window.0, (
            self.from_configure,
            Reserved,
        )))));
        t.write_to(buf);
    }

    fn read_from(bytes: &[u8], pos: usize) -> (r: Result<(WindowUnmapped, usize), DecodeError>) {
        match <WindowUnmappedLayout as Wire>::read_from(bytes, pos) {
            Ok(((_, (sequence, (window, (unmapped_window, (from_configure, _))))), p)) => Ok((
                WindowUnmapped {
                    sequence,
                    window: Window(window),
                    unmapped_window: Window(unmapped_window),
                    from_configure,
                },
                p,
            )),
            Err(e) => Err(e),
        }
    }

    proof fn lemma_round_trip(&self, rest: Seq<u8>) {
        self.spec_layout().lemma_round_trip(rest);
    }

    proof fn lemma_truncated(&self, k: nat) {
        self.spec_layout().lemma_truncated(k);
    }

    proof fn lemma_size(&self) {
        self.spec_layout().lemma_size();
    }

    proof fn lemma_decode_len(bytes: Seq<u8>) {
        <WindowUnmappedLayout as Wire>::lemma_decode_len(bytes);
    }
}

/// A window was mapped.
#[derive(Debug, Clone, Copy, PartialEq, Eq, Hash, Structural)]
pub struct WindowMapped {
    /// The sequence number of the last request that the server handled before it generated this
    /// event.
    pub sequence: u16,
    /// The window that the event was reported on.
    pub window: Window,
    /// The window that was mapped.
    pub mapped_window: Window,
    /// Whether the window overrides redirection of its mapping and configuration.
    pub override_redirect: bool,
}

/// The fields of [`WindowMapped`] in wire order, after the code byte.
pub type WindowMappedLayout = (Reserved<1>, (u16, (u32, (u32, (bool, Reserved<19>)))));

impl WindowMapped {
    /// The event code.
    pub const CODE: u8 = 19;

    /// The fields in wire order, as the values that are written.
    pub open spec fn spec_layout(self) -> WindowMappedLayout {
        (
            Reserved, (
            self.sequence, (
            self.window.0, (
            self.mapped_window.0, (
            self.override_redirect,
            Reserved,
        )))))
    }

    /// The event that a layout read back stands for.
    pub open spec fn spec_of_layout(t: WindowMappedLayout) -> WindowMapped {
        WindowMapped {
            sequence: t.1.0,
            window: Window(t.1.1.0),
            mapped_window: Window(t.1.1.1.0),
            override_redirect: t.1.1.1.1.0,
        }
    }
}

impl Wire for WindowMapped {
    open spec fn wf(&self) -> bool {
        true
    }

    open spec fn canonical(&self) -> bool {
        true
    }

    open spec fn spec_encode(&self) -> Seq<u8> {
        self.spec_layout().spec_encode()
    }

    open spec fn spec_size(&self) -> nat {
        31
    }

    open spec fn spec_decode(bytes: Seq<u8>) -> Result<(WindowMapped, nat), DecodeError> {
        match <WindowMappedLayout as Wire>::spec_decode(bytes) {
            Ok((t, n)) => Ok((WindowMapped::spec_of_layout(t), n)),
            Err(e) => Err(e),
        }
    }

    fn x11_size(&self) -> (r: usize) {
        proof {
            self.spec_layout().lemma_size();
        }
        31
    }

    fn write_to(&self, buf: &mut Vec<u8>) {
        let t: WindowMappedLayout = (
            Reserved, (
            self.sequence, (
            self.window.0, (
            self.mapped_window.0, (
            self.override_redirect,
            Reserved,
        )))));
        t.write_to(buf);
    }

    fn read_from(bytes: &[u8], pos: usize) -> (r: Result<(WindowMapped, usize), DecodeError>) {
        match <WindowMappedLayout as Wire>::read_from(bytes, pos) {
            Ok(((_, (sequence, (window, (mapped_window, (override_redirect, _))))), p)) => Ok((
                WindowMapped {
                    sequence,
                    window: Window(window),
                    mapped_window: Window(mapped_window),
                    override_redirect,
                },
                p,
            )),
            Err(e) => Err(e),
        }
    }

    proof fn lemma_round_trip(&self, rest: Seq<u8>) {
        self.spec_layout().lemma_round_trip(rest);
    }

    proof fn lemma_truncated(&self, k: nat) {
        self.spec_layout().lemma_truncated(k);
    }

    proof fn lemma_size(&self) {
        self.spec_layout().lemma_size();
    }

    proof fn lemma_decode_len(bytes: Seq<u8>) {
        <WindowMappedLayout as Wire>::lemma_decode_len(bytes);
    }
}

/// A client asked to map a window whose parent redirects mapping.
#[derive(Debug, Clone, Copy, PartialEq, Eq, Hash, Structural)]
pub struct MapRequest {
    /// The sequence number of the last request that the server handled before it generated this
    /// event.
    pub sequence: u16,
    /// The window's parent.
    pub parent: Window,
    /// The window to be mapped.
    pub window: Window,
}

/// The fields of [`MapRequest`] in wire order, after the code byte.
pub type MapRequestLayout = (Reserved<1>, (u16, (u32, (u32, Reserved<20>))));

impl MapRequest {
    /// The event code.
    pub const CODE: u8 = 20;

    /// The fields in wire order, as the values that are written.
    pub open spec fn spec_layout(self) -> MapRequestLayout {
        (Reserved, (self.sequence, (self.parent.0, (self.window.0, Reserved))))
    }

    /// The event that a layout read back stands for.
    pub open spec fn spec_of_layout(t: MapRequestLayout) -> MapRequest {
        MapRequest {
            sequence: t.1.0,
            parent: Window(t.1.1.0),
            window: Window(t.1.1.1.0),
        }
    }
}

impl Wire for MapRequest {
    open spec fn wf(&self) -> bool {
        true
    }

    open spec fn canonical(&self) -> bool {
        true
    }

    open spec fn spec_encode(&self) -> Seq<u8> {
        self.spec_layout().spec_encode()
    }

    open spec fn spec_size(&self) -> nat {
        31
    }

    open spec fn spec_decode(bytes: Seq<u8>) -> Result<(MapRequest, nat), DecodeError> {
        match <MapRequestLayout as Wire>::spec_decode(bytes) {
            Ok((t, n)) => Ok((MapRequest::spec_of_layout(t), n)),
            Err(e) => Err(e),
        }
    }

    fn x11_size(&self) -> (r: usize) {
        proof {
            self.spec_layout().lemma_size();
        }
        31
    }

    fn write_to(&self, buf: &mut Vec<u8>) {
        let t: MapRequestLayout = (Reserved, (self.sequence, (self.parent.0, (self.window.0, Reserved))));
        t.write_to(buf);
    }

    fn read_from(bytes: &[u8], pos: usize) -> (r: Result<(MapRequest, usize), DecodeError>) {
        match <MapRequestLayout as Wire>::read_from(bytes, pos) {
            Ok(((_, (sequence, (parent, (window, _)))), p)) => Ok((
                MapRequest {
                    sequence,
                    parent: Window(parent),
                    window: Window(window),
                },
                p,
            )),
            Err(e) => Err(e),
        }
    }

    proof fn lemma_round_trip(&self, rest: Seq<u8>) {
        self.spec_layout().lemma_round_trip(rest);
    }

    proof fn lemma_truncated(&self, k: nat) {
        self.spec_layout().lemma_truncated(k);
    }

    proof fn lemma_size(&self) {
        self.spec_layout().lemma_size();
    }

    proof fn lemma_decode_len(bytes: Seq<u8>) {
        <MapRequestLayout as Wire>::lemma_decode_len(bytes);
    }
}

/// A window was given a new parent.
#[derive(Debug, Clone, Copy, PartialEq, Eq, Hash, Structural)]
pub struct WindowReparented {
    /// The sequence number of the last request that the server handled before it generated this
    /// event.
    pub sequence: u16,
    /// The window that the event was reported on.
    pub window: Window,
    /// The window that was reparented.
    pub reparented_window: Window,
    /// The new parent.
    pub parent: Window,
    /// The window's left edge, relative to the new parent.
    pub x: i16,
    /// The window's top edge, relative to the new parent.
    pub y: i16,
    /// Whether the window overrides redirection of its mapping and configuration.
    pub override_redirect: bool,
}

/// The fields of [`WindowReparented`] in wire order, after the code byte.
pub type WindowReparentedLayout = (Reserved<1>, (u16, (u32, (u32, (u32, (i16, (i16, (bool, Reserved<11>))))))));

impl WindowReparented {
    /// The event code.
    pub const CODE: u8 = 21;

    /// The fields in wire order, as the values that are written.
    pub open spec fn spec_layout(self) -> WindowReparentedLayout {
        (
            Reserved, (
            self.sequence, (
            self.window.0, (
            self.reparented_window.0, (
            self.parent.0, (
            self.x, (
            self.y, (
            self.override_redirect,
            Reserved,
        ))))))))
    }

    /// The event that a layout read back stands for.
    pub open spec fn spec_of_layout(t: WindowReparentedLayout) -> WindowReparented {
        WindowReparented {
            sequence: t.1.0,
            window: Window(t.1.1.0),
            reparented_window: Window(t.1.1.1.0),
            parent: Window(t.1.1.1.1.0),
            x: t.1.1.1.1.1.0,
            y: t.1.1.1.1.1.1.0,
            override_redirect: t.1.1.1.1.1.1.1.0,
        }
    }
}

impl Wire for WindowReparented {
    open spec fn wf(&self) -> bool {
        true
    }

    open spec fn canonical(&self) -> bool {
        true
    }

    open spec fn spec_encode(&self) -> Seq<u8> {
        self.spec_layout().spec_encode()
    }

    open spec fn spec_size(&self) -> nat {
        31
    }

    open spec fn spec_decode(bytes: Seq<u8>) -> Result<(WindowReparented, nat), DecodeError> {
        match <WindowReparentedLayout as Wire>::spec_decode(bytes) {
            Ok((t, n)) => Ok((WindowReparented::spec_of_layout(t), n)),
            Err(e) => Err(e),
        }
    }

    fn x11_size(&self) -> (r: usize) {
        proof {
            self.spec_layout().lemma_size();
        }
        31
    }

    fn write_to(&self, buf: &mut Vec<u8>) {
        let t: WindowReparentedLayout = (
            Reserved, (
            self.sequence, (
            self.window.0, (
            self.reparented_window.0, (
            self.parent.0, (
            self.x, (
            self.y, (
            self.override_redirect,
            Reserved,
        ))))))));
        t.write_to(buf);
    }

    fn read_from(bytes: &[u8], pos: usize) -> (r: Result<(WindowReparented, usize), DecodeError>) {
        match <WindowReparentedLayout as Wire>::read_from(bytes, pos) {
            Ok(((
                _, (
                sequence, (
                window, (
                reparented_window, (
                parent, (
                x, (
                y, (
                override_redirect,
                _,
            )))))))), p)) => Ok((
                WindowReparented {
                    sequence,
                    window: Window(window),
                    reparented_window: Window(reparented_window),
                    parent: Window(parent),
                    x,
                    y,
                    override_redirect,
                },
                p,
            )),
            Err(e) => Err(e),
        }
    }

    proof fn lemma_round_trip(&self, rest: Seq<u8>) {
        self.spec_layout().lemma_round_trip(rest);
    }

    proof fn lemma_truncated(&self, k: nat) {
        self.spec_layout().lemma_truncated(k);
    }

    proof fn lemma_size(&self) {
        self.spec_layout().lemma_size();
    }

    proof fn lemma_decode_len(bytes: Seq<u8>) {
        <WindowReparentedLayout as Wire>::lemma_decode_len(bytes);
    }
}

/// A window's size, position, border or stacking changed.
#[derive(Debug, Clone, Copy, PartialEq, Eq, Hash, Structural)]
pub struct WindowConfigured {
    /// The sequence number of the last request that the server handled before it generated this
    /// event.
    pub sequence: u16,
    /// The window that the event was reported on.
    pub event: Window,
    /// The window that was configured.
    pub window: Window,
    /// The sibling that the window is now stacked just above, if any.
    pub above_sibling: Option<Window>,
    /// The window's left edge, relative to its parent.
    pub x: i16,
    /// The window's top edge, relative to its parent.
    pub y: i16,
    /// The window's width.
    pub width: u16,
    /// The window's height.
    pub height: u16,
    /// The width of the window's border.
    pub border_width: u16,
    /// Whether the window overrides redirection of its mapping and configuration.
    pub override_redirect: bool,
}

/// The fields of [`WindowConfigured`] in wire order, after the code byte.
pub type WindowConfiguredLayout = (
    Reserved<1>, (
    u16, (
    u32, (
    u32, (
    u32, (
    i16, (
    i16, (
    u16, (
    u16, (
    u16, (
    bool,
    Reserved<5>,
)))))))))));

impl WindowConfigured {
    /// The event code.
    pub const CODE: u8 = 22;

    /// The fields in wire order, as the values that are written.
    pub open spec fn spec_layout(self) -> WindowConfiguredLayout {
        (
            Reserved, (
            self.sequence, (
            self.event.0, (
            self.window.0, (
            window_id(self.above_sibling), (
            self.x, (
            self.y, (
            self.width, (
            self.height, (
            self.border_width, (
            self.override_redirect,
            Reserved,
        )))))))))))
    }

    /// The event that a layout read back stands for.
    pub open spec fn spec_of_layout(t: WindowConfiguredLayout) -> WindowConfigured {
        WindowConfigured {
            sequence: t.1.0,
            event: Window(t.1.1.0),
            window: Window(t.1.1.1.0),
            above_sibling: window_of_id(t.1.1.1.1.0),
            x: t.1.1.1.1.1.0,
            y: t.1.1.1.1.1.1.0,
            width: t.1.1.1.1.1.1.1.0,
            height: t.1.1.1.1.1.1.1.1.0,
            border_width: t.1.1.1.1.1.1.1.1.1.0,
            override_redirect: t.1.1.1.1.1.1.1.1.1.1.0,
        }
    }
}

impl Wire for WindowConfigured {
    open spec fn wf(&self) -> bool {
        true
    }

    open spec fn canonical(&self) -> bool {
        window_carried(self.above_sibling)
    }

    open spec fn spec_encode(&self) -> Seq<u8> {
        self.spec_layout().spec_encode()
    }

    open spec fn spec_size(&self) -> nat {
        31
    }

    open spec fn spec_decode(bytes: Seq<u8>) -> Result<(WindowConfigured, nat), DecodeError> {
        match <WindowConfiguredLayout as Wire>::spec_decode(bytes) {
            Ok((t, n)) => Ok((WindowConfigured::spec_of_layout(t), n)),
            Err(e) => Err(e),
        }
    }

    fn x11_size(&self) -> (r: usize) {
        proof {
            self.spec_layout().lemma_size();
        }
        31
    }

    fn write_to(&self, buf: &mut Vec<u8>) {
        let t: WindowConfiguredLayout = (
            Reserved, (
            self.sequence, (
            self.event.0, (
            self.window.0, (
            to_window_id(self.above_sibling), (
            self.x, (
            self.y, (
            self.width, (
            self.height, (
            self.border_width, (
            self.override_redirect,
            Reserved,
        )))))))))));
        t.write_to(buf);
    }

    fn read_from(bytes: &[u8], pos: usize) -> (r: Result<(WindowConfigured, usize), DecodeError>) {
        match <WindowConfiguredLayout as Wire>::read_from(bytes, pos) {
            Ok(((
                _, (
                sequence, (
                event, (
                window, (
                above_sibling, (
                x, (
                y, (
                width, (
                height, (
                border_width, (
                override_redirect,
                _,
            ))))))))))), p)) => Ok((
                WindowConfigured {
                    sequence,
                    event: Window(event),
                    window: Window(window),
                    above_sibling: from_window_id(above_sibling),
                    x,
                    y,
                    width,
                    height,
                    border_width,
                    override_redirect,
                },
                p,
            )),
            Err(e) => Err(e),
        }
    }

    proof fn lemma_round_trip(&self, rest: Seq<u8>) {
        self.spec_layout().lemma_round_trip(rest);
    }

    proof fn lemma_truncated(&self, k: nat) {
        self.spec_layout().lemma_truncated(k);
    }

    proof fn lemma_size(&self) {
        self.spec_layout().lemma_size();
    }

    proof fn lemma_decode_len(bytes: Seq<u8>) {
        <WindowConfiguredLayout as Wire>::lemma_decode_len(bytes);
    }
}

/// A client asked to configure a window whose parent redirects configuration.
#[derive(Debug, Clone, Copy, PartialEq, Eq, Hash, Structural)]
pub struct ConfigureRequest {
    /// How the window is to be restacked.
    pub stack_mode: StackMode,
    /// The sequence number of the last request that the server handled before it generated this
    /// event.
    pub sequence: u16,
    /// The window's parent.
    pub parent: Window,
    /// The window to be configured.
    pub window: Window,
    /// The sibling to restack the window relative to, if any.
    pub sibling: Option<Window>,
    /// The requested left edge, relative to the parent.
    pub x: i16,
    /// The requested top edge, relative to the parent.
    pub y: i16,
    /// The requested width.
    pub width: u16,
    /// The requested height.
    pub height: u16,
    /// The requested width of the window's border.
    pub border_width: u16,
    /// Which of the attributes the request changes.
    pub mask: ConfigureWindowMask,
}

/// The fields of [`ConfigureRequest`] in wire order, after the code byte.
pub type ConfigureRequestLayout = (
    StackMode, (
    u16, (
    u32, (
    u32, (
    u32, (
    i16, (
    i16, (
    u16, (
    u16, (
    u16, (
    u16,
    Reserved<4>,
)))))))))));

impl ConfigureRequest {
    /// The event code.
    pub const CODE: u8 = 23;

    /// The fields in wire order, as the values that are written.
    pub open spec fn spec_layout(self) -> ConfigureRequestLayout {
        (
            self.stack_mode, (
            self.sequence, (
            self.parent.0, (
            self.window.0, (
            window_id(self.sibling), (
            self.x, (
            self.y, (
            self.width, (
            self.height, (
            self.border_width, (
            self.mask.bits & CONFIGURE_BITS,
            Reserved,
        )))))))))))
    }

    /// The event that a layout read back stands for.
    pub open spec fn spec_of_layout(t: ConfigureRequestLayout) -> ConfigureRequest {
        ConfigureRequest {
            stack_mode: t.0,
            sequence: t.1.0,
            parent: Window(t.1.1.0),
            window: Window(t.1.1.1.0),
            sibling: window_of_id(t.1.1.1.1.0),
            x: t.1.1.1.1.1.0,
            y: t.1.1.1.1.1.1.0,
            width: t.1.1.1.1.1.1.1.0,
            height: t.1.1.1.1.1.1.1.1.0,
            border_width: t.1.1.1.1.1.1.1.1.1.0,
            mask: ConfigureWindowMask { bits: t.1.1.1.1.1.1.1.1.1.1.0 & CONFIGURE_BITS },
        }
    }
}

impl Wire for ConfigureRequest {
    open spec fn wf(&self) -> bool {
        true
    }

    open spec fn canonical(&self) -> bool {
        window_carried(self.sibling) && self.mask.wf()
    }

    open spec fn spec_encode(&self) -> Seq<u8> {
        self.spec_layout().spec_encode()
    }

    open spec fn spec_size(&self) -> nat {
        31
    }

    open spec fn spec_decode(bytes: Seq<u8>) -> Result<(ConfigureRequest, nat), DecodeError> {
        match <ConfigureRequestLayout as Wire>::spec_decode(bytes) {
            Ok((t, n)) => Ok((ConfigureRequest::spec_of_layout(t), n)),
            Err(e) => Err(e),
        }
    }

    fn x11_size(&self) -> (r: usize) {
        proof {
            self.spec_layout().lemma_size();
        }
        31
    }

    fn write_to(&self, buf: &mut Vec<u8>) {
        let t: ConfigureRequestLayout = (
            self.stack_mode, (
            self.sequence, (
            self.parent.0, (
            self.window.0, (
            to_window_id(self.sibling), (
            self.x, (
            self.y, (
            self.width, (
            self.height, (
            self.border_width, (
            self.mask.bits & CONFIGURE_BITS,
            Reserved,
        )))))))))));
        t.write_to(buf);
    }

    fn read_from(bytes: &[u8], pos: usize) -> (r: Result<(ConfigureRequest, usize), DecodeError>) {
        match <ConfigureRequestLayout as Wire>::read_from(bytes, pos) {
            Ok(((
                stack_mode, (
                sequence, (
                parent, (
                window, (
                sibling, (
                x, (
                y, (
                width, (
                height, (
                border_width, (
                mask,
                _,
            ))))))))))), p)) => Ok((
                ConfigureRequest {
                    stack_mode,
                    sequence,
                    parent: Window(parent),
                    window: Window(window),
                    sibling: from_window_id(sibling),
                    x,
                    y,
                    width,
                    height,
                    border_width,
                    mask: ConfigureWindowMask::from_bits_truncate(mask),
                },
                p,
            )),
            Err(e) => Err(e),
        }
    }

    proof fn lemma_round_trip(&self, rest: Seq<u8>) {
        lemma_configure_truncate(self.mask);
        self.spec_layout().lemma_round_trip(rest);
    }

    proof fn lemma_truncated(&self, k: nat) {
        self.spec_layout().lemma_truncated(k);
    }

    proof fn lemma_size(&self) {
        self.spec_layout().lemma_size();
    }

    proof fn lemma_decode_len(bytes: Seq<u8>) {
        <ConfigureRequestLayout as Wire>::lemma_decode_len(bytes);
    }
}

/// A window was moved because its parent's size changed.
#[derive(Debug, Clone, Copy, PartialEq, Eq, Hash, Structural)]
pub struct GravityChanged {
    /// The sequence number of the last request that the server handled before it generated this
    /// event.
    pub sequence: u16,
    /// The window that the event was reported on.
    pub event: Window,
    /// The window that was moved.
    pub window: Window,
    /// The window's new left edge, relative to its parent.
    pub x: i16,
    /// The window's new top edge, relative to its parent.
    pub y: i16,
}

/// The fields of [`GravityChanged`] in wire order, after the code byte.
pub type GravityChangedLayout = (Reserved<1>, (u16, (u32, (u32, (i16, (i16, Reserved<16>))))));

impl GravityChanged {
    /// The event code.
    pub const CODE: u8 = 24;

    /// The fields in wire order, as the values that are written.
    pub open spec fn spec_layout(self) -> GravityChangedLayout {
        (
            Reserved, (
            self.sequence, (
            self.event.0, (
            self.window.0, (
            self.x, (
            self.y,
            Reserved,
        ))))))
    }

    /// The event that a layout read back stands for.
    pub open spec fn spec_of_layout(t: GravityChangedLayout) -> GravityChanged {
        GravityChanged {
            sequence: t.1.0,
            event: Window(t.1.1.0),
            window: Window(t.1.1.1.0),
            x: t.1.1.1.1.0,
            y: t.1.1.1.1.1.0,
        }
    }
}

impl Wire for GravityChanged {
    open spec fn wf(&self) -> bool {
        true
    }

    open spec fn canonical(&self) -> bool {
        true
    }

    open spec fn spec_encode(&self) -> Seq<u8> {
        self.spec_layout().spec_encode()
    }

    open spec fn spec_size(&self) -> nat {
        31
    }

    open spec fn spec_decode(bytes: Seq<u8>) -> Result<(GravityChanged, nat), DecodeError> {
        match <GravityChangedLayout as Wire>::spec_decode(bytes) {
            Ok((t, n)) => Ok((GravityChanged::spec_of_layout(t), n)),
            Err(e) => Err(e),
        }
    }

    fn x11_size(&self) -> (r: usize) {
        proof {
            self.spec_layout().lemma_size();
        }
        31
    }

    fn write_to(&self, buf: &mut Vec<u8>) {
        let t: GravityChangedLayout = (
            Reserved, (
            self.sequence, (
            self.event.0, (
            self.window.0, (
            self.x, (
            self.y,
            Reserved,
        ))))));
        t.write_to(buf);
    }

    fn read_from(bytes: &[u8], pos: usize) -> (r: Result<(GravityChanged, usize), DecodeError>) {
        match <GravityChangedLayout as Wire>::read_from(bytes, pos) {
            Ok(((_, (sequence, (event, (window, (x, (y, _)))))), p)) => Ok((
                GravityChanged {
                    sequence,
                    event: Window(event),
                    window: Window(window),
                    x,
                    y,
                },
                p,
            )),
            Err(e) => Err(e),
        }
    }

    proof fn lemma_round_trip(&self, rest: Seq<u8>) {
        self.spec_layout().lemma_round_trip(rest);
    }

    proof fn lemma_truncated(&self, k: nat) {
        self.spec_layout().lemma_truncated(k);
    }

    proof fn lemma_size(&self) {
        self.spec_layout().lemma_size();
    }

    proof fn lemma_decode_len(bytes: Seq<u8>) {
        <GravityChangedLayout as Wire>::lemma_decode_len(bytes);
    }
}

/// A client asked to resize a window whose size changes are redirected.
#[derive(Debug, Clone, Copy, PartialEq, Eq, Hash, Structural)]
pub struct WindowResized {
    /// The sequence number of the last request that the server handled before it generated this
    /// event.
    pub sequence: u16,
    /// The window to be resized.
    pub window: Window,
    /// The requested width.
    pub width: u16,
    /// The requested height.
    pub height: u16,
}

/// The fields of [`WindowResized`] in wire order, after the code byte.
pub type WindowResizedLayout = (Reserved<1>, (u16, (u32, (u16, (u16, Reserved<20>)))));

impl WindowResized {
    /// The event code.
    pub const CODE: u8 = 25;

    /// The fields in wire order, as the values that are written.
    pub open spec fn spec_layout(self) -> WindowResizedLayout {
        (
            Reserved, (
            self.sequence, (
            self.window.0, (
            self.width, (
            self.height,
            Reserved,
        )))))
    }

    /// The event that a layout read back stands for.
    pub open spec fn spec_of_layout(t: WindowResizedLayout) -> WindowResized {
        WindowResized {
            sequence: t.1.0,
            window: Window(t.1.1.0),
            width: t.1.1.1.0,
            height: t.1.1.1.1.0,
        }
    }
}

impl Wire for WindowResized {
    open spec fn wf(&self) -> bool {
        true
    }

    open spec fn canonical(&self) -> bool {
        true
    }

    open spec fn spec_encode(&self) -> Seq<u8> {
        self.spec_layout().spec_encode()
    }

    open spec fn spec_size(&self) -> nat {
        31
    }

    open spec fn spec_decode(bytes: Seq<u8>) -> Result<(WindowResized, nat), DecodeError> {
        match <WindowResizedLayout as Wire>::spec_decode(bytes) {
            Ok((t, n)) => Ok((WindowResized::spec_of_layout(t), n)),
            Err(e) => Err(e),
        }
    }

    fn x11_size(&self) -> (r: usize) {
        proof {
            self.spec_layout().lemma_size();
        }
        31
    }

    fn write_to(&self, buf: &mut Vec<u8>) {
        let t: WindowResizedLayout = (
            Reserved, (
            self.sequence, (
            self.window.0, (
            self.width, (
            self.height,
            Reserved,
        )))));
        t.write_to(buf);
    }

    fn read_from(bytes: &[u8], pos: usize) -> (r: Result<(WindowResized, usize), DecodeError>) {
        match <WindowResizedLayout as Wire>::read_from(bytes, pos) {
            Ok(((_, (sequence, (window, (width, (height, _))))), p)) => Ok((
                WindowResized {
                    sequence,
                    window: Window(window),
                    width,
                    height,
                },
                p,
            )),
            Err(e) => Err(e),
        }
    }

    proof fn lemma_round_trip(&self, rest: Seq<u8>) {
        self.spec_layout().lemma_round_trip(rest);
    }

    proof fn lemma_truncated(&self, k: nat) {
        self.spec_layout().lemma_truncated(k);
    }

    proof fn lemma_size(&self) {
        self.spec_layout().lemma_size();
    }

    proof fn lemma_decode_len(bytes: Seq<u8>) {
        <WindowResizedLayout as Wire>::lemma_decode_len(bytes);
    }
}

/// A window was restacked to the top or bottom of its siblings.
#[derive(Debug, Clone, Copy, PartialEq, Eq, Hash, Structural)]
pub struct WindowCirculated {
    /// The sequence number of the last request that the server handled before it generated this
    /// event.
    pub sequence: u16,
    /// The window that the event was reported on.
    pub event: Window,
    /// The window that was restacked.
    pub window: Window,
    /// Where the window now stands among its siblings.
    pub placement: Placement,
}

/// The fields of [`WindowCirculated`] in wire order, after the code byte.
pub type WindowCirculatedLayout = (Reserved<1>, (u16, (u32, (u32, (Reserved<4>, (Placement, Reserved<15>))))));

impl WindowCirculated {
    /// The event code.
    pub const CODE: u8 = 26;

    /// The fields in wire order, as the values that are written.
    pub open spec fn spec_layout(self) -> WindowCirculatedLayout {
        (
            Reserved, (
            self.sequence, (
            self.event.0, (
            self.window.0, (
            Reserved, (
            self.placement,
            Reserved,
        ))))))
    }

    /// The event that a layout read back stands for.
    pub open spec fn spec_of_layout(t: WindowCirculatedLayout) -> WindowCirculated {
        WindowCirculated {
            sequence: t.1.0,
            event: Window(t.1.1.0),
            window: Window(t.1.1.1.0),
            placement: t.1.1.1.1.1.0,
        }
    }
}

impl Wire for WindowCirculated {
    open spec fn wf(&self) -> bool {
        true
    }

    open spec fn canonical(&self) -> bool {
        true
    }

    open spec fn spec_encode(&self) -> Seq<u8> {
        self.spec_layout().spec_encode()
    }

    open spec fn spec_size(&self) -> nat {
        31
    }

    open spec fn spec_decode(bytes: Seq<u8>) -> Result<(WindowCirculated, nat), DecodeError> {
        match <WindowCirculatedLayout as Wire>::spec_decode(bytes) {
            Ok((t, n)) => Ok((WindowCirculated::spec_of_layout(t), n)),
            Err(e) => Err(e),
        }
    }

    fn x11_size(&self) -> (r: usize) {
        proof {
            self.spec_layout().lemma_size();
        }
        31
    }

    fn write_to(&self, buf: &mut Vec<u8>) {
        let t: WindowCirculatedLayout = (
            Reserved, (
            self.sequence, (
            self.event.0, (
            self.window.0, (
            Reserved, (
            self.placement,
            Reserved,
        ))))));
        t.write_to(buf);
    }

    fn read_from(bytes: &[u8], pos: usize) -> (r: Result<(WindowCirculated, usize), DecodeError>) {
        match <WindowCirculatedLayout as Wire>::read_from(bytes, pos) {
            Ok(((_, (sequence, (event, (window, (_, (placement, _)))))), p)) => Ok((
                WindowCirculated {
                    sequence,
                    event: Window(event),
                    window: Window(window),
                    placement,
                },
                p,
            )),
            Err(e) => Err(e),
        }
    }

    proof fn lemma_round_trip(&self, rest: Seq<u8>) {
        self.spec_layout().lemma_round_trip(rest);
    }

    proof fn lemma_truncated(&self, k: nat) {
        self.spec_layout().lemma_truncated(k);
    }

    proof fn lemma_size(&self) {
        self.spec_layout().lemma_size();
    }

    proof fn lemma_decode_len(bytes: Seq<u8>) {
        <WindowCirculatedLayout as Wire>::lemma_decode_len(bytes);
    }
}

/// A client asked to restack a window to the top or bottom of its siblings.
#[derive(Debug, Clone, Copy, PartialEq, Eq, Hash, Structural)]
pub struct CirculateRequest {
    /// The sequence number of the last request that the server handled before it generated this
    /// event.
    pub sequence: u16,
    /// The parent of the window.
    pub event: Window,
    /// The window to be restacked.
    pub window: Window,
    /// Where the window is to stand among its siblings.
    pub placement: Placement,
}

/// The fields of [`CirculateRequest`] in wire order, after the code byte.
pub type CirculateRequestLayout = (Reserved<1>, (u16, (u32, (u32, (Reserved<4>, (Placement, Reserved<15>))))));

impl CirculateRequest {
    /// The event code.
    pub const CODE: u8 = 27;

    /// The fields in wire order, as the values that are written.
    pub open spec fn spec_layout(self) -> CirculateRequestLayout {
        (
            Reserved, (
            self.sequence, (
            self.event.0, (
            self.window.0, (
            Reserved, (
            self.placement,
            Reserved,
        ))))))
    }

    /// The event that a layout read back stands for.
    pub open spec fn spec_of_layout(t: CirculateRequestLayout) -> CirculateRequest {
        CirculateRequest {
            sequence: t.1.0,
            event: Window(t.1.1.0),
            window: Window(t.1.1.1.0),
            placement: t.1.1.1.1.1.0,
        }
    }
}

impl Wire for CirculateRequest {
    open spec fn wf(&self) -> bool {
        true
    }

    open spec fn canonical(&self) -> bool {
        true
    }

    open spec fn spec_encode(&self) -> Seq<u8> {
        self.spec_layout().spec_encode()
    }

    open spec fn spec_size(&self) -> nat {
        31
    }

    open spec fn spec_decode(bytes: Seq<u8>) -> Result<(CirculateRequest, nat), DecodeError> {
        match <CirculateRequestLayout as Wire>::spec_decode(bytes) {
            Ok((t, n)) => Ok((CirculateRequest::spec_of_layout(t), n)),
            Err(e) => Err(e),
        }
    }

    fn x11_size(&self) -> (r: usize) {
        proof {
            self.spec_layout().lemma_size();
        }
        31
    }

    fn write_to(&self, buf: &mut Vec<u8>) {
        let t: CirculateRequestLayout = (
            Reserved, (
            self.sequence, (
            self.event.0, (
            self.window.0, (
            Reserved, (
            self.placement,
            Reserved,
        ))))));
        t.write_to(buf);
    }

    fn read_from(bytes: &[u8], pos: usize) -> (r: Result<(CirculateRequest, usize), DecodeError>) {
        match <CirculateRequestLayout as Wire>::read_from(bytes, pos) {
            Ok(((_, (sequence, (event, (window, (_, (placement, _)))))), p)) => Ok((
                CirculateRequest {
                    sequence,
                    event: Window(event),
                    window: Window(window),
                    placement,
                },
                p,
            )),
            Err(e) => Err(e),
        }
    }

    proof fn lemma_round_trip(&self, rest: Seq<u8>) {
        self.spec_layout().lemma_round_trip(rest);
    }

    proof fn lemma_truncated(&self, k: nat) {
        self.spec_layout().lemma_truncated(k);
    }

    proof fn lemma_size(&self) {
        self.spec_layout().lemma_size();
    }

    proof fn lemma_decode_len(bytes: Seq<u8>) {
        <CirculateRequestLayout as Wire>::lemma_decode_len(bytes);
    }
}

/// A property of a window was changed or deleted.
#[derive(Debug, Clone, Copy, PartialEq, Eq, Hash, Structural)]
pub struct PropertyChanged {
    /// The sequence number of the last request that the server handled before it generated this
    /// event.
    pub sequence: u16,
    /// The window whose property changed.
    pub window: Window,
    /// The property that changed.
    pub property: Atom,
    /// When the property changed.
    pub time: Timestamp,
    /// What happened to the property.
    pub change: PropertyChange,
}

/// The fields of [`PropertyChanged`] in wire order, after the code byte.
pub type PropertyChangedLayout = (Reserved<1>, (u16, (u32, (u32, (u32, (PropertyChange, Reserved<15>))))));

impl PropertyChanged {
    /// The event code.
    pub const CODE: u8 = 28;

    /// The fields in wire order, as the values that are written.
    pub open spec fn spec_layout(self) -> PropertyChangedLayout {
        (
            Reserved, (
            self.sequence, (
            self.window.0, (
            self.property.0, (
            self.time.0, (
            self.change,
            Reserved,
        ))))))
    }

    /// The event that a layout read back stands for.
    pub open spec fn spec_of_layout(t: PropertyChangedLayout) -> PropertyChanged {
        PropertyChanged {
            sequence: t.1.0,
            window: Window(t.1.1.0),
            property: Atom(t.1.1.1.0),
            time: Timestamp(t.1.1.1.1.0),
            change: t.1.1.1.1.1.0,
        }
    }
}

impl Wire for PropertyChanged {
    open spec fn wf(&self) -> bool {
        true
    }

    open spec fn canonical(&self) -> bool {
        true
    }

    open spec fn spec_encode(&self) -> Seq<u8> {
        self.spec_layout().spec_encode()
    }

    open spec fn spec_size(&self) -> nat {
        31
    }

    open spec fn spec_decode(bytes: Seq<u8>) -> Result<(PropertyChanged, nat), DecodeError> {
        match <PropertyChangedLayout as Wire>::spec_decode(bytes) {
            Ok((t, n)) => Ok((PropertyChanged::spec_of_layout(t), n)),
            Err(e) => Err(e),
        }
    }

    fn x11_size(&self) -> (r: usize) {
        proof {
            self.spec_layout().lemma_size();
        }
        31
    }

    fn write_to(&self, buf: &mut Vec<u8>) {
        let t: PropertyChangedLayout = (
            Reserved, (
            self.sequence, (
            self.window.0, (
            self.property.0, (
            self.time.0, (
            self.change,
            Reserved,
        ))))));
        t.write_to(buf);
    }

    fn read_from(bytes: &[u8], pos: usize) -> (r: Result<(PropertyChanged, usize), DecodeError>) {
        match <PropertyChangedLayout as Wire>::read_from(bytes, pos) {
            Ok(((_, (sequence, (window, (property, (time, (change, _)))))), p)) => Ok((
                PropertyChanged {
                    sequence,
                    window: Window(window),
                    property: Atom(property),
                    time: Timestamp(time),
                    change,
                },
                p,
            )),
            Err(e) => Err(e),
        }
    }

    proof fn lemma_round_trip(&self, rest: Seq<u8>) {
        self.spec_layout().lemma_round_trip(rest);
    }

    proof fn lemma_truncated(&self, k: nat) {
        self.spec_layout().lemma_truncated(k);
    }

    proof fn lemma_size(&self) {
        self.spec_layout().lemma_size();
    }

    proof fn lemma_decode_len(bytes: Seq<u8>) {
        <PropertyChangedLayout as Wire>::lemma_decode_len(bytes);
    }
}

/// The client lost the ownership of a selection.
#[derive(Debug, Clone, Copy, PartialEq, Eq, Hash, Structural)]
pub struct SelectionClear {
    /// The sequence number of the last request that the server handled before it generated this
    /// event.
    pub sequence: u16,
    /// When the ownership last changed.
    pub time: Timestamp,
    /// The window that owned the selection.
    pub owner: Window,
    /// The selection.
    pub selection: Atom,
}

/// The fields of [`SelectionClear`] in wire order, after the code byte.
pub type SelectionClearLayout = (Reserved<1>, (u16, (u32, (u32, (u32, Reserved<16>)))));

impl SelectionClear {
    /// The event code.
    pub const CODE: u8 = 29;

    /// The fields in wire order, as the values that are written.
    pub open spec fn spec_layout(self) -> SelectionClearLayout {
        (
            Reserved, (
            self.sequence, (
            self.time.0, (
            self.owner.0, (
            self.selection.0,
            Reserved,
        )))))
    }

    /// The event that a layout read back stands for.
    pub open spec fn spec_of_layout(t: SelectionClearLayout) -> SelectionClear {
        SelectionClear {
            sequence: t.1.0,
            time: Timestamp(t.1.1.0),
            owner: Window(t.1.1.1.0),
            selection: Atom(t.1.1.1.1.0),
        }
    }
}

impl Wire for SelectionClear {
    open spec fn wf(&self) -> bool {
        true
    }

    open spec fn canonical(&self) -> bool {
        true
    }

    open spec fn spec_encode(&self) -> Seq<u8> {
        self.spec_layout().spec_encode()
    }

    open spec fn spec_size(&self) -> nat {
        31
    }

    open spec fn spec_decode(bytes: Seq<u8>) -> Result<(SelectionClear, nat), DecodeError> {
        match <SelectionClearLayout as Wire>::spec_decode(bytes) {
            Ok((t, n)) => Ok((SelectionClear::spec_of_layout(t), n)),
            Err(e) => Err(e),
        }
    }

    fn x11_size(&self) -> (r: usize) {
        proof {
            self.spec_layout().lemma_size();
        }
        31
    }

    fn write_to(&self, buf: &mut Vec<u8>) {
        let t: SelectionClearLayout = (
            Reserved, (
            self.sequence, (
            self.time.0, (
            self.owner.0, (
            self.selection.0,
            Reserved,
        )))));
        t.write_to(buf);
    }

    fn read_from(bytes: &[u8], pos: usize) -> (r: Result<(SelectionClear, usize), DecodeError>) {
        match <SelectionClearLayout as Wire>::read_from(bytes, pos) {
            Ok(((_, (sequence, (time, (owner, (selection, _))))), p)) => Ok((
                SelectionClear {
                    sequence,
                    time: Timestamp(time),
                    owner: Window(owner),
                    selection: Atom(selection),
                },
                p,
            )),
            Err(e) => Err(e),
        }
    }

    proof fn lemma_round_trip(&self, rest: Seq<u8>) {
        self.spec_layout().lemma_round_trip(rest);
    }

    proof fn lemma_truncated(&self, k: nat) {
        self.spec_layout().lemma_truncated(k);
    }

    proof fn lemma_size(&self) {
        self.spec_layout().lemma_size();
    }

    proof fn lemma_decode_len(bytes: Seq<u8>) {
        <SelectionClearLayout as Wire>::lemma_decode_len(bytes);
    }
}

/// A client asked the owner of a selection to convert it.
#[derive(Debug, Clone, Copy, PartialEq, Eq, Hash, Structural)]
pub struct SelectionRequest {
    /// The sequence number of the last request that the server handled before it generated this
    /// event.
    pub sequence: u16,
    /// The time of the request that asked for the conversion.
    pub time: CurrentableTime,
    /// The selection's owner.
    pub owner: Window,
    /// The window that asked for the conversion.
    pub requestor: Window,
    /// The selection.
    pub selection: Atom,
    /// The type to convert the selection to.
    pub target: Atom,
    /// The property to store the result in, if one was named.
    pub property: Option<Atom>,
}

/// The fields of [`SelectionRequest`] in wire order, after the code byte.
pub type SelectionRequestLayout = (Reserved<1>, (u16, (u32, (u32, (u32, (u32, (u32, (u32, Reserved<4>))))))));

impl SelectionRequest {
    /// The event code.
    pub const CODE: u8 = 30;

    /// The fields in wire order, as the values that are written.
    pub open spec fn spec_layout(self) -> SelectionRequestLayout {
        (
            Reserved, (
            self.sequence, (
            time_id(self.time), (
            self.owner.0, (
            self.requestor.0, (
            self.selection.0, (
            self.target.0, (
            atom_id(self.property),
            Reserved,
        ))))))))
    }

    /// The event that a layout read back stands for.
    pub open spec fn spec_of_layout(t: SelectionRequestLayout) -> SelectionRequest {
        SelectionRequest {
            sequence: t.1.0,
            time: time_of_id(t.1.1.0),
            owner: Window(t.1.1.1.0),
            requestor: Window(t.1.1.1.1.0),
            selection: Atom(t.1.1.1.1.1.0),
            target: Atom(t.1.1.1.1.1.1.0),
            property: atom_of_id(t.1.1.1.1.1.1.1.0),
        }
    }
}

impl Wire for SelectionRequest {
    open spec fn wf(&self) -> bool {
        true
    }

    open spec fn canonical(&self) -> bool {
        self.time != CurrentableTime::Other(Timestamp(0)) && self.property != Some(Atom(0))
    }

    open spec fn spec_encode(&self) -> Seq<u8> {
        self.spec_layout().spec_encode()
    }

    open spec fn spec_size(&self) -> nat {
        31
    }

    open spec fn spec_decode(bytes: Seq<u8>) -> Result<(SelectionRequest, nat), DecodeError> {
        match <SelectionRequestLayout as Wire>::spec_decode(bytes) {
            Ok((t, n)) => Ok((SelectionRequest::spec_of_layout(t), n)),
            Err(e) => Err(e),
        }
    }

    fn x11_size(&self) -> (r: usize) {
        proof {
            self.spec_layout().lemma_size();
        }
        31
    }

    fn write_to(&self, buf: &mut Vec<u8>) {
        let t: SelectionRequestLayout = (
            Reserved, (
            self.sequence, (
            to_time_id(self.time), (
            self.owner.0, (
            self.requestor.0, (
            self.selection.0, (
            self.target.0, (
            to_atom_id(self.property),
            Reserved,
        ))))))));
        t.write_to(buf);
    }

    fn read_from(bytes: &[u8], pos: usize) -> (r: Result<(SelectionRequest, usize), DecodeError>) {
        match <SelectionRequestLayout as Wire>::read_from(bytes, pos) {
            Ok(((
                _, (
                sequence, (
                time, (
                owner, (
                requestor, (
                selection, (
                target, (
                property,
                _,
            )))))))), p)) => Ok((
                SelectionRequest {
                    sequence,
                    time: from_time_id(time),
                    owner: Window(owner),
                    requestor: Window(requestor),
                    selection: Atom(selection),
                    target: Atom(target),
                    property: from_atom_id(property),
                },
                p,
            )),
            Err(e) => Err(e),
        }
    }

    proof fn lemma_round_trip(&self, rest: Seq<u8>) {
        self.spec_layout().lemma_round_trip(rest);
    }

    proof fn lemma_truncated(&self, k: nat) {
        self.spec_layout().lemma_truncated(k);
    }

    proof fn lemma_size(&self) {
        self.spec_layout().lemma_size();
    }

    proof fn lemma_decode_len(bytes: Seq<u8>) {
        <SelectionRequestLayout as Wire>::lemma_decode_len(bytes);
    }
}

/// The conversion of a selection finished.
#[derive(Debug, Clone, Copy, PartialEq, Eq, Hash, Structural)]
pub struct SelectionNotify {
    /// The sequence number of the last request that the server handled before it generated this
    /// event.
    pub sequence: u16,
    /// The time of the request that asked for the conversion.
    pub time: CurrentableTime,
    /// The window that asked for the conversion.
    pub requestor: Window,
    /// The selection.
    pub selection: Atom,
    /// The type that the selection was converted to.
    pub target: Atom,
    /// The property that holds the result, or none if the conversion failed.
    pub property: Option<Atom>,
}

/// The fields of [`SelectionNotify`] in wire order, after the code byte.
pub type SelectionNotifyLayout = (Reserved<1>, (u16, (u32, (u32, (u32, (u32, (u32, Reserved<8>)))))));

impl SelectionNotify {
    /// The event code.
    pub const CODE: u8 = 31;

    /// The fields in wire order, as the values that are written.
    pub open spec fn spec_layout(self) -> SelectionNotifyLayout {
        (
            Reserved, (
            self.sequence, (
            time_id(self.time), (
            self.requestor.0, (
            self.selection.0, (
            self.target.0, (
            atom_id(self.property),
            Reserved,
        )))))))
    }

    /// The event that a layout read back stands for.
    pub open spec fn spec_of_layout(t: SelectionNotifyLayout) -> SelectionNotify {
        SelectionNotify {
            sequence: t.1.0,
            time: time_of_id(t.1.1.0),
            requestor: Window(t.1.1.1.0),
            selection: Atom(t.1.1.1.1.0),
            target: Atom(t.1.1.1.1.1.0),
            property: atom_of_id(t.1.1.1.1.1.1.0),
        }
    }
}

impl Wire for SelectionNotify {
    open spec fn wf(&self) -> bool {
        true
    }

    open spec fn canonical(&self) -> bool {
        self.time != CurrentableTime::Other(Timestamp(0)) && self.property != Some(Atom(0))
    }

    open spec fn spec_encode(&self) -> Seq<u8> {
        self.spec_layout().spec_encode()
    }

    open spec fn spec_size(&self) -> nat {
        31
    }

    open spec fn spec_decode(bytes: Seq<u8>) -> Result<(SelectionNotify, nat), DecodeError> {
        match <SelectionNotifyLayout as Wire>::spec_decode(bytes) {
            Ok((t, n)) => Ok((SelectionNotify::spec_of_layout(t), n)),
            Err(e) => Err(e),
        }
    }

    fn x11_size(&self) -> (r: usize) {
        proof {
            self.spec_layout().lemma_size();
        }
        31
    }

    fn write_to(&self, buf: &mut Vec<u8>) {
        let t: SelectionNotifyLayout = (
            Reserved, (
            self.sequence, (
            to_time_id(self.time), (
            self.requestor.0, (
            self.selection.0, (
            self.target.0, (
            to_atom_id(self.property),
            Reserved,
        )))))));
        t.write_to(buf);
    }

    fn read_from(bytes: &[u8], pos: usize) -> (r: Result<(SelectionNotify, usize), DecodeError>) {
        match <SelectionNotifyLayout as Wire>::read_from(bytes, pos) {
            Ok(((_, (sequence, (time, (requestor, (selection, (target, (property, _))))))), p)) => Ok((
                SelectionNotify {
                    sequence,
                    time: from_time_id(time),
                    requestor: Window(requestor),
                    selection: Atom(selection),
                    target: Atom(target),
                    property: from_atom_id(property),
                },
                p,
            )),
            Err(e) => Err(e),
        }
    }

    proof fn lemma_round_trip(&self, rest: Seq<u8>) {
        self.spec_layout().lemma_round_trip(rest);
    }

    proof fn lemma_truncated(&self, k: nat) {
        self.spec_layout().lemma_truncated(k);
    }

    proof fn lemma_size(&self) {
        self.spec_layout().lemma_size();
    }

    proof fn lemma_decode_len(bytes: Seq<u8>) {
        <SelectionNotifyLayout as Wire>::lemma_decode_len(bytes);
    }
}

/// A window's colormap attribute changed.
#[derive(Debug, Clone, Copy, PartialEq, Eq, Hash, Structural)]
pub struct ColormapNotify {
    /// The sequence number of the last request that the server handled before it generated this
    /// event.
    pub sequence: u16,
    /// The window whose colormap attribute changed.
    pub window: Window,
    /// The window's colormap, if it has one.
    pub colormap: Option<Colormap>,
}

/// The fields of [`ColormapNotify`] in wire order, after the code byte.
pub type ColormapNotifyLayout = (Reserved<1>, (u16, (u32, (u32, Reserved<20>))));

impl ColormapNotify {
    /// The event code.
    pub const CODE: u8 = 32;

    /// The fields in wire order, as the values that are written.
    pub open spec fn spec_layout(self) -> ColormapNotifyLayout {
        (
            Reserved, (
            self.sequence, (
            self.window.0, (
            colormap_id(self.colormap),
            Reserved,
        ))))
    }

    /// The event that a layout read back stands for.
    pub open spec fn spec_of_layout(t: ColormapNotifyLayout) -> ColormapNotify {
        ColormapNotify {
            sequence: t.1.0,
            window: Window(t.1.1.0),
            colormap: colormap_of_id(t.1.1.1.0),
        }
    }
}

impl Wire for ColormapNotify {
    open spec fn wf(&self) -> bool {
        true
    }

    open spec fn canonical(&self) -> bool {
        self.colormap != Some(Colormap(0))
    }

    open spec fn spec_encode(&self) -> Seq<u8> {
        self.spec_layout().spec_encode()
    }

    open spec fn spec_size(&self) -> nat {
        31
    }

    open spec fn spec_decode(bytes: Seq<u8>) -> Result<(ColormapNotify, nat), DecodeError> {
        match <ColormapNotifyLayout as Wire>::spec_decode(bytes) {
            Ok((t, n)) => Ok((ColormapNotify::spec_of_layout(t), n)),
            Err(e) => Err(e),
        }
    }

    fn x11_size(&self) -> (r: usize) {
        proof {
            self.spec_layout().lemma_size();
        }
        31
    }

    fn write_to(&self, buf: &mut Vec<u8>) {
        let t: ColormapNotifyLayout = (
            Reserved, (
            self.sequence, (
            self.window.0, (
            to_colormap_id(self.colormap),
            Reserved,
        ))));
        t.write_to(buf);
    }

    fn read_from(bytes: &[u8], pos: usize) -> (r: Result<(ColormapNotify, usize), DecodeError>) {
        match <ColormapNotifyLayout as Wire>::read_from(bytes, pos) {
            Ok(((_, (sequence, (window, (colormap, _)))), p)) => Ok((
                ColormapNotify {
                    sequence,
                    window: Window(window),
                    colormap: from_colormap_id(colormap),
                },
                p,
            )),
            Err(e) => Err(e),
        }
    }

    proof fn lemma_round_trip(&self, rest: Seq<u8>) {
        self.spec_layout().lemma_round_trip(rest);
    }

    proof fn lemma_truncated(&self, k: nat) {
        self.spec_layout().lemma_truncated(k);
    }

    proof fn lemma_size(&self) {
        self.spec_layout().lemma_size();
    }

    proof fn lemma_decode_len(bytes: Seq<u8>) {
        <ColormapNotifyLayout as Wire>::lemma_decode_len(bytes);
    }
}

/// A message that a client sent to another through the server.
#[derive(Debug, Clone, Copy, PartialEq, Eq, Hash)]
pub struct ClientMessage {
    /// Whether the data is read as 8-, 16- or 32-bit values: 8, 16 or 32.
    pub format: u8,
    /// The sequence number of the last request that the server handled before it generated this
    /// event.
    pub sequence: u16,
    /// The window that the message is about.
    pub window: Window,
    /// What the message means, as its sender and receiver agree.
    pub message_type: Atom,
    /// The message itself.
    pub data: [u8; 20],
}

/// The fields of [`ClientMessage`] in wire order, after the code byte.
pub type ClientMessageLayout = (u8, (u16, (u32, (u32, [u8; 20]))));

impl ClientMessage {
    /// The event code.
    pub const CODE: u8 = 33;

    /// The fields in wire order, as the values that are written.
    pub open spec fn spec_layout(self) -> ClientMessageLayout {
        (
            self.format, (
            self.sequence, (
            self.window.0, (
            self.message_type.0,
            self.data,
        ))))
    }

    /// The event that a layout read back stands for.
    pub open spec fn spec_of_layout(t: ClientMessageLayout) -> ClientMessage {
        ClientMessage {
            format: t.0,
            sequence: t.1.0,
            window: Window(t.1.1.0),
            message_type: Atom(t.1.1.1.0),
            data: t.1.1.1.1,
        }
    }
}

impl Wire for ClientMessage {
    open spec fn wf(&self) -> bool {
        true
    }

    open spec fn canonical(&self) -> bool {
        true
    }

    open spec fn spec_encode(&self) -> Seq<u8> {
        self.spec_layout().spec_encode()
    }

    open spec fn spec_size(&self) -> nat {
        31
    }

    open spec fn spec_decode(bytes: Seq<u8>) -> Result<(ClientMessage, nat), DecodeError> {
        match <ClientMessageLayout as Wire>::spec_decode(bytes) {
            Ok((t, n)) => Ok((ClientMessage::spec_of_layout(t), n)),
            Err(e) => Err(e),
        }
    }

    fn x11_size(&self) -> (r: usize) {
        proof {
            self.spec_layout().lemma_size();
        }
        31
    }

    fn write_to(&self, buf: &mut Vec<u8>) {
        let t: ClientMessageLayout = (
            self.format, (
            self.sequence, (
            self.window.0, (
            self.message_type.0,
            self.data,
        ))));
        t.write_to(buf);
    }

    fn read_from(bytes: &[u8], pos: usize) -> (r: Result<(ClientMessage, usize), DecodeError>) {
        match <ClientMessageLayout as Wire>::read_from(bytes, pos) {
            Ok(((format, (sequence, (window, (message_type, data)))), p)) => Ok((
                ClientMessage {
                    format,
                    sequence,
                    window: Window(window),
                    message_type: Atom(message_type),
                    data,
                },
                p,
            )),
            Err(e) => Err(e),
        }
    }

    proof fn lemma_round_trip(&self, rest: Seq<u8>) {
        self.spec_layout().lemma_round_trip(rest);
    }

    proof fn lemma_truncated(&self, k: nat) {
        self.spec_layout().lemma_truncated(k);
    }

    proof fn lemma_size(&self) {
        self.spec_layout().lemma_size();
    }

    proof fn lemma_decode_len(bytes: Seq<u8>) {
        <ClientMessageLayout as Wire>::lemma_decode_len(bytes);
    }
}

/// A keyboard, modifier or pointer mapping was changed.
#[derive(Debug, Clone, Copy, PartialEq, Eq, Hash, Structural)]
pub struct MappingNotify {
    /// The sequence number of the last request that the server handled before it generated this
    /// event.
    pub sequence: u16,
    /// Which mapping was changed.
    pub request: MappingNotifyRequest,
    /// The first key of the changed range.
    pub first_keycode: Keycode,
    /// How many keys the changed range holds.
    pub count: u8,
}

/// The fields of [`MappingNotify`] in wire order, after the code byte.
pub type MappingNotifyLayout = (Reserved<1>, (u16, (MappingNotifyRequest, (u8, (u8, Reserved<25>)))));

impl MappingNotify {
    /// The event code.
    pub const CODE: u8 = 34;

    /// The fields in wire order, as the values that are written.
    pub open spec fn spec_layout(self) -> MappingNotifyLayout {
        (
            Reserved, (
            self.sequence, (
            self.request, (
            self.first_keycode.0, (
            self.count,
            Reserved,
        )))))
    }

    /// The event that a layout read back stands for.
    pub open spec fn spec_of_layout(t: MappingNotifyLayout) -> MappingNotify {
        MappingNotify {
            sequence: t.1.0,
            request: t.1.1.0,
            first_keycode: Keycode(t.1.1.1.0),
            count: t.1.1.1.1.0,
        }
    }
}

impl Wire for MappingNotify {
    open spec fn wf(&self) -> bool {
        true
    }

    open spec fn canonical(&self) -> bool {
        true
    }

    open spec fn spec_encode(&self) -> Seq<u8> {
        self.spec_layout().spec_encode()
    }

    open spec fn spec_size(&self) -> nat {
        31
    }

    open spec fn spec_decode(bytes: Seq<u8>) -> Result<(MappingNotify, nat), DecodeError> {
        match <MappingNotifyLayout as Wire>::spec_decode(bytes) {
            Ok((t, n)) => Ok((MappingNotify::spec_of_layout(t), n)),
            Err(e) => Err(e),
        }
    }

    fn x11_size(&self) -> (r: usize) {
        proof {
            self.spec_layout().lemma_size();
        }
        31
    }

    fn write_to(&self, buf: &mut Vec<u8>) {
        let t: MappingNotifyLayout = (
            Reserved, (
            self.sequence, (
            self.request, (
            self.first_keycode.0, (
            self.count,
            Reserved,
        )))));
        t.write_to(buf);
    }

    fn read_from(bytes: &[u8], pos: usize) -> (r: Result<(MappingNotify, usize), DecodeError>) {
        match <MappingNotifyLayout as Wire>::read_from(bytes, pos) {
            Ok(((_, (sequence, (request, (first_keycode, (count, _))))), p)) => Ok((
                MappingNotify {
                    sequence,
                    request,
                    first_keycode: Keycode(first_keycode),
                    count,
                },
                p,
            )),
            Err(e) => Err(e),
        }
    }

    proof fn lemma_round_trip(&self, rest: Seq<u8>) {
        self.spec_layout().lemma_round_trip(rest);
    }

    proof fn lemma_truncated(&self, k: nat) {
        self.spec_layout().lemma_truncated(k);
    }

    proof fn lemma_size(&self) {
        self.spec_layout().lemma_size();
    }

    proof fn lemma_decode_len(bytes: Seq<u8>) {
        <MappingNotifyLayout as Wire>::lemma_decode_len(bytes);
    }
}

/// The flag that marks, in the code byte, an event that a client sent.
pub const SENT_EVENT_FLAG: u8 = 0x80;

/// Whether `code`, without the sent flag, is the code of a known event.
pub open spec fn is_event_code(code: u8) -> bool {
    code == 2
    || code == 3
    || code == 4
    || code == 5
    || code == 6
    || code == 7
    || code == 8
    || code == 9
    || code == 10
    || code == 11
    || code == 12
    || code == 13
    || code == 14
    || code == 15
    || code == 16
    || code == 17
    || code == 18
    || code == 19
    || code == 20
    || code == 21
    || code == 22
    || code == 23
    || code == 24
    || code == 25
    || code == 26
    || code == 27
    || code == 28
    || code == 29
    || code == 30
    || code == 31
    || code == 32
    || code == 33
    || code == 34
}

/// Any event that this library knows how to encode and decode.
#[derive(Debug, Clone, Copy, PartialEq, Eq, Hash)]
pub enum Event {
    KeyPress(KeyPress),
    KeyRelease(KeyRelease),
    ButtonPress(ButtonPress),
    ButtonRelease(ButtonRelease),
    Motion(Motion),
    EnterWindow(EnterWindow),
    LeaveWindow(LeaveWindow),
    WindowFocused(WindowFocused),
    WindowUnfocused(WindowUnfocused),
    Keymap(Keymap),
    Expose(Expose),
    GraphicsExposure(GraphicsExposure),
    NoExposure(NoExposure),
    VisibilityChanged(VisibilityChanged),
    WindowCreated(WindowCreated),
    WindowDestroyed(WindowDestroyed),
    WindowUnmapped(WindowUnmapped),
    WindowMapped(WindowMapped),
    MapRequest(MapRequest),
    WindowReparented(WindowReparented),
    WindowConfigured(WindowConfigured),
    ConfigureRequest(ConfigureRequest),
    GravityChanged(GravityChanged),
    WindowResized(WindowResized),
    WindowCirculated(WindowCirculated),
    CirculateRequest(CirculateRequest),
    PropertyChanged(PropertyChanged),
    SelectionClear(SelectionClear),
    SelectionRequest(SelectionRequest),
    SelectionNotify(SelectionNotify),
    ColormapNotify(ColormapNotify),
    ClientMessage(ClientMessage),
    MappingNotify(MappingNotify),
}

impl Event {
    /// The code byte of the event, without the sent flag.
    pub open spec fn spec_code(self) -> u8 {
        match self {
            Event::KeyPress(_) => KeyPress::CODE,
            Event::KeyRelease(_) => KeyRelease::CODE,
            Event::ButtonPress(_) => ButtonPress::CODE,
            Event::ButtonRelease(_) => ButtonRelease::CODE,
            Event::Motion(_) => Motion::CODE,
            Event::EnterWindow(_) => EnterWindow::CODE,
            Event::LeaveWindow(_) => LeaveWindow::CODE,
            Event::WindowFocused(_) => WindowFocused::CODE,
            Event::WindowUnfocused(_) => WindowUnfocused::CODE,
            Event::Keymap(_) => Keymap::CODE,
            Event::Expose(_) => Expose::CODE,
            Event::GraphicsExposure(_) => GraphicsExposure::CODE,
            Event::NoExposure(_) => NoExposure::CODE,
            Event::VisibilityChanged(_) => VisibilityChanged::CODE,
            Event::WindowCreated(_) => WindowCreated::CODE,
            Event::WindowDestroyed(_) => WindowDestroyed::CODE,
            Event::WindowUnmapped(_) => WindowUnmapped::CODE,
            Event::WindowMapped(_) => WindowMapped::CODE,
            Event::MapRequest(_) => MapRequest::CODE,
            Event::WindowReparented(_) => WindowReparented::CODE,
            Event::WindowConfigured(_) => WindowConfigured::CODE,
            Event::ConfigureRequest(_) => ConfigureRequest::CODE,
            Event::GravityChanged(_) => GravityChanged::CODE,
            Event::WindowResized(_) => WindowResized::CODE,
            Event::WindowCirculated(_) => WindowCirculated::CODE,
            Event::CirculateRequest(_) => CirculateRequest::CODE,
            Event::PropertyChanged(_) => PropertyChanged::CODE,
            Event::SelectionClear(_) => SelectionClear::CODE,
            Event::SelectionRequest(_) => SelectionRequest::CODE,
            Event::SelectionNotify(_) => SelectionNotify::CODE,
            Event::ColormapNotify(_) => ColormapNotify::CODE,
            Event::ClientMessage(_) => ClientMessage::CODE,
            Event::MappingNotify(_) => MappingNotify::CODE,
        }
    }

    /// The 31 bytes that follow the code byte.
    pub open spec fn spec_body(self) -> Seq<u8> {
        match self {
            Event::KeyPress(e) => e.spec_encode(),
            Event::KeyRelease(e) => e.spec_encode(),
            Event::ButtonPress(e) => e.spec_encode(),
            Event::ButtonRelease(e) => e.spec_encode(),
            Event::Motion(e) => e.spec_encode(),
            Event::EnterWindow(e) => e.spec_encode(),
            Event::LeaveWindow(e) => e.spec_encode(),
            Event::WindowFocused(e) => e.spec_encode(),
            Event::WindowUnfocused(e) => e.spec_encode(),
            Event::Keymap(e) => e.spec_encode(),
            Event::Expose(e) => e.spec_encode(),
            Event::GraphicsExposure(e) => e.spec_encode(),
            Event::NoExposure(e) => e.spec_encode(),
            Event::VisibilityChanged(e) => e.spec_encode(),
            Event::WindowCreated(e) => e.spec_encode(),
            Event::WindowDestroyed(e) => e.spec_encode(),
            Event::WindowUnmapped(e) => e.spec_encode(),
            Event::WindowMapped(e) => e.spec_encode(),
            Event::MapRequest(e) => e.spec_encode(),
            Event::WindowReparented(e) => e.spec_encode(),
            Event::WindowConfigured(e) => e.spec_encode(),
            Event::ConfigureRequest(e) => e.spec_encode(),
            Event::GravityChanged(e) => e.spec_encode(),
            Event::WindowResized(e) => e.spec_encode(),
            Event::WindowCirculated(e) => e.spec_encode(),
            Event::CirculateRequest(e) => e.spec_encode(),
            Event::PropertyChanged(e) => e.spec_encode(),
            Event::SelectionClear(e) => e.spec_encode(),
            Event::SelectionRequest(e) => e.spec_encode(),
            Event::SelectionNotify(e) => e.spec_encode(),
            Event::ColormapNotify(e) => e.spec_encode(),
            Event::ClientMessage(e) => e.spec_encode(),
            Event::MappingNotify(e) => e.spec_encode(),
        }
    }

    pub fn code(&self) -> (r: u8)
        ensures
            r == self.spec_code(),
    {
        match self {
            Event::KeyPress(_) => KeyPress::CODE,
            Event::KeyRelease(_) => KeyRelease::CODE,
            Event::ButtonPress(_) => ButtonPress::CODE,
            Event::ButtonRelease(_) => ButtonRelease::CODE,
            Event::Motion(_) => Motion::CODE,
            Event::EnterWindow(_) => EnterWindow::CODE,
            Event::LeaveWindow(_) => LeaveWindow::CODE,
            Event::WindowFocused(_) => WindowFocused::CODE,
            Event::WindowUnfocused(_) => WindowUnfocused::CODE,
            Event::Keymap(_) => Keymap::CODE,
            Event::Expose(_) => Expose::CODE,
            Event::GraphicsExposure(_) => GraphicsExposure::CODE,
            Event::NoExposure(_) => NoExposure::CODE,
            Event::VisibilityChanged(_) => VisibilityChanged::CODE,
            Event::WindowCreated(_) => WindowCreated::CODE,
            Event::WindowDestroyed(_) => WindowDestroyed::CODE,
            Event::WindowUnmapped(_) => WindowUnmapped::CODE,
            Event::WindowMapped(_) => WindowMapped::CODE,
            Event::MapRequest(_) => MapRequest::CODE,
            Event::WindowReparented(_) => WindowReparented::CODE,
            Event::WindowConfigured(_) => WindowConfigured::CODE,
            Event::ConfigureRequest(_) => ConfigureRequest::CODE,
            Event::GravityChanged(_) => GravityChanged::CODE,
            Event::WindowResized(_) => WindowResized::CODE,
            Event::WindowCirculated(_) => WindowCirculated::CODE,
            Event::CirculateRequest(_) => CirculateRequest::CODE,
            Event::PropertyChanged(_) => PropertyChanged::CODE,
            Event::SelectionClear(_) => SelectionClear::CODE,
            Event::SelectionRequest(_) => SelectionRequest::CODE,
            Event::SelectionNotify(_) => SelectionNotify::CODE,
            Event::ColormapNotify(_) => ColormapNotify::CODE,
            Event::ClientMessage(_) => ClientMessage::CODE,
            Event::MappingNotify(_) => MappingNotify::CODE,
        }
    }
}

impl Wire for Event {
    open spec fn wf(&self) -> bool {
        true
    }

    open spec fn canonical(&self) -> bool {
        match self {
            Event::KeyPress(e) => e.canonical(),
            Event::KeyRelease(e) => e.canonical(),
            Event::ButtonPress(e) => e.canonical(),
            Event::ButtonRelease(e) => e.canonical(),
            Event::Motion(e) => e.canonical(),
            Event::EnterWindow(e) => e.canonical(),
            Event::LeaveWindow(e) => e.canonical(),
            Event::WindowFocused(e) => e.canonical(),
            Event::WindowUnfocused(e) => e.canonical(),
            Event::Keymap(e) => e.canonical(),
            Event::Expose(e) => e.canonical(),
            Event::GraphicsExposure(e) => e.canonical(),
            Event::NoExposure(e) => e.canonical(),
            Event::VisibilityChanged(e) => e.canonical(),
            Event::WindowCreated(e) => e.canonical(),
            Event::WindowDestroyed(e) => e.canonical(),
            Event::WindowUnmapped(e) => e.canonical(),
            Event::WindowMapped(e) => e.canonical(),
            Event::MapRequest(e) => e.canonical(),
            Event::WindowReparented(e) => e.canonical(),
            Event::WindowConfigured(e) => e.canonical(),
            Event::ConfigureRequest(e) => e.canonical(),
            Event::GravityChanged(e) => e.canonical(),
            Event::WindowResized(e) => e.canonical(),
            Event::WindowCirculated(e) => e.canonical(),
            Event::CirculateRequest(e) => e.canonical(),
            Event::PropertyChanged(e) => e.canonical(),
            Event::SelectionClear(e) => e.canonical(),
            Event::SelectionRequest(e) => e.canonical(),
            Event::SelectionNotify(e) => e.canonical(),
            Event::ColormapNotify(e) => e.canonical(),
            Event::ClientMessage(e) => e.canonical(),
            Event::MappingNotify(e) => e.canonical(),
        }
    }

    /// The code byte, then the event's own 31 bytes.
    open spec fn spec_encode(&self) -> Seq<u8> {
        seq![self.spec_code()] + self.spec_body()
    }

    open spec fn spec_size(&self) -> nat {
        32
    }

    /// The code byte, with the sent flag ignored, picks the decoder of the
    /// rest; an unknown code consumes nothing and is reported as such.
    open spec fn spec_decode(bytes: Seq<u8>) -> Result<(Event, nat), DecodeError> {
        if bytes.len() < 1 {
            Err(DecodeError::Truncated)
        } else {
            let body = bytes.skip(1);
            match bytes[0] % 128 {
                2 => match KeyPress::spec_decode(body) {
                    Ok((e, n)) => Ok((Event::KeyPress(e), n + 1)),
                    Err(err) => Err(err),
                },
                3 => match KeyRelease::spec_decode(body) {
                    Ok((e, n)) => Ok((Event::KeyRelease(e), n + 1)),
                    Err(err) => Err(err),
                },
                4 => match ButtonPress::spec_decode(body) {
                    Ok((e, n)) => Ok((Event::ButtonPress(e), n + 1)),
                    Err(err) => Err(err),
                },
                5 => match ButtonRelease::spec_decode(body) {
                    Ok((e, n)) => Ok((Event::ButtonRelease(e), n + 1)),
                    Err(err) => Err(err),
                },
                6 => match Motion::spec_decode(body) {
                    Ok((e, n)) => Ok((Event::Motion(e), n + 1)),
                    Err(err) => Err(err),
                },
                7 => match EnterWindow::spec_decode(body) {
                    Ok((e, n)) => Ok((Event::EnterWindow(e), n + 1)),
                    Err(err) => Err(err),
                },
                8 => match LeaveWindow::spec_decode(body) {
                    Ok((e, n)) => Ok((Event::LeaveWindow(e), n + 1)),
                    Err(err) => Err(err),
                },
                9 => match WindowFocused::spec_decode(body) {
                    Ok((e, n)) => Ok((Event::WindowFocused(e), n + 1)),
                    Err(err) => Err(err),
                },
                10 => match WindowUnfocused::spec_decode(body) {
                    Ok((e, n)) => Ok((Event::WindowUnfocused(e), n + 1)),
                    Err(err) => Err(err),
                },
                11 => match Keymap::spec_decode(body) {
                    Ok((e, n)) => Ok((Event::Keymap(e), n + 1)),
                    Err(err) => Err(err),
                },
                12 => match Expose::spec_decode(body) {
                    Ok((e, n)) => Ok((Event::Expose(e), n + 1)),
                    Err(err) => Err(err),
                },
                13 => match GraphicsExposure::spec_decode(body) {
                    Ok((e, n)) => Ok((Event::GraphicsExposure(e), n + 1)),
                    Err(err) => Err(err),
                },
                14 => match NoExposure::spec_decode(body) {
                    Ok((e, n)) => Ok((Event::NoExposure(e), n + 1)),
                    Err(err) => Err(err),
                },
                15 => match VisibilityChanged::spec_decode(body) {
                    Ok((e, n)) => Ok((Event::VisibilityChanged(e), n + 1)),
                    Err(err) => Err(err),
                },
                16 => match WindowCreated::spec_decode(body) {
                    Ok((e, n)) => Ok((Event::WindowCreated(e), n + 1)),
                    Err(err) => Err(err),
                },
                17 => match WindowDestroyed::spec_decode(body) {
                    Ok((e, n)) => Ok((Event::WindowDestroyed(e), n + 1)),
                    Err(err) => Err(err),
                },
                18 => match WindowUnmapped::spec_decode(body) {
                    Ok((e, n)) => Ok((Event::WindowUnmapped(e), n + 1)),
                    Err(err) => Err(err),
                },
                19 => match WindowMapped::spec_decode(body) {
                    Ok((e, n)) => Ok((Event::WindowMapped(e), n + 1)),
                    Err(err) => Err(err),
                },
                20 => match MapRequest::spec_decode(body) {
                    Ok((e, n)) => Ok((Event::MapRequest(e), n + 1)),
                    Err(err) => Err(err),
                },
                21 => match WindowReparented::spec_decode(body) {
                    Ok((e, n)) => Ok((Event::WindowReparented(e), n + 1)),
                    Err(err) => Err(err),
                },
                22 => match WindowConfigured::spec_decode(body) {
                    Ok((e, n)) => Ok((Event::WindowConfigured(e), n + 1)),
                    Err(err) => Err(err),
                },
                23 => match ConfigureRequest::spec_decode(body) {
                    Ok((e, n)) => Ok((Event::ConfigureRequest(e), n + 1)),
                    Err(err) => Err(err),
                },
                24 => match GravityChanged::spec_decode(body) {
                    Ok((e, n)) => Ok((Event::GravityChanged(e), n + 1)),
                    Err(err) => Err(err),
                },
                25 => match WindowResized::spec_decode(body) {
                    Ok((e, n)) => Ok((Event::WindowResized(e), n + 1)),
                    Err(err) => Err(err),
                },
                26 => match WindowCirculated::spec_decode(body) {
                    Ok((e, n)) => Ok((Event::WindowCirculated(e), n + 1)),
                    Err(err) => Err(err),
                },
                27 => match CirculateRequest::spec_decode(body) {
                    Ok((e, n)) => Ok((Event::CirculateRequest(e), n + 1)),
                    Err(err) => Err(err),
                },
                28 => match PropertyChanged::spec_decode(body) {
                    Ok((e, n)) => Ok((Event::PropertyChanged(e), n + 1)),
                    Err(err) => Err(err),
                },
                29 => match SelectionClear::spec_decode(body) {
                    Ok((e, n)) => Ok((Event::SelectionClear(e), n + 1)),
                    Err(err) => Err(err),
                },
                30 => match SelectionRequest::spec_decode(body) {
                    Ok((e, n)) => Ok((Event::SelectionRequest(e), n + 1)),
                    Err(err) => Err(err),
                },
                31 => match SelectionNotify::spec_decode(body) {
                    Ok((e, n)) => Ok((Event::SelectionNotify(e), n + 1)),
                    Err(err) => Err(err),
                },
                32 => match ColormapNotify::spec_decode(body) {
                    Ok((e, n)) => Ok((Event::ColormapNotify(e), n + 1)),
                    Err(err) => Err(err),
                },
                33 => match ClientMessage::spec_decode(body) {
                    Ok((e, n)) => Ok((Event::ClientMessage(e), n + 1)),
                    Err(err) => Err(err),
                },
                34 => match MappingNotify::spec_decode(body) {
                    Ok((e, n)) => Ok((Event::MappingNotify(e), n + 1)),
                    Err(err) => Err(err),
                },
                _ => Err(DecodeError::UnknownOpcode),
            }
        }
    }

    fn x11_size(&self) -> (r: usize) {
        proof {
            self.lemma_size();
        }
        32
    }

    fn write_to(&self, buf: &mut Vec<u8>) {
        buf.push(self.code());
        match self {
            Event::KeyPress(e) => e.write_to(buf),
            Event::KeyRelease(e) => e.write_to(buf),
            Event::ButtonPress(e) => e.write_to(buf),
            Event::ButtonRelease(e) => e.write_to(buf),
            Event::Motion(e) => e.write_to(buf),
            Event::EnterWindow(e) => e.write_to(buf),
            Event::LeaveWindow(e) => e.write_to(buf),
            Event::WindowFocused(e) => e.write_to(buf),
            Event::WindowUnfocused(e) => e.write_to(buf),
            Event::Keymap(e) => e.write_to(buf),
            Event::Expose(e) => e.write_to(buf),
            Event::GraphicsExposure(e) => e.write_to(buf),
            Event::NoExposure(e) => e.write_to(buf),
            Event::VisibilityChanged(e) => e.write_to(buf),
            Event::WindowCreated(e) => e.write_to(buf),
            Event::WindowDestroyed(e) => e.write_to(buf),
            Event::WindowUnmapped(e) => e.write_to(buf),
            Event::WindowMapped(e) => e.write_to(buf),
            Event::MapRequest(e) => e.write_to(buf),
            Event::WindowReparented(e) => e.write_to(buf),
            Event::WindowConfigured(e) => e.write_to(buf),
            Event::ConfigureRequest(e) => e.write_to(buf),
            Event::GravityChanged(e) => e.write_to(buf),
            Event::WindowResized(e) => e.write_to(buf),
            Event::WindowCirculated(e) => e.write_to(buf),
            Event::CirculateRequest(e) => e.write_to(buf),
            Event::PropertyChanged(e) => e.write_to(buf),
            Event::SelectionClear(e) => e.write_to(buf),
            Event::SelectionRequest(e) => e.write_to(buf),
            Event::SelectionNotify(e) => e.write_to(buf),
            Event::ColormapNotify(e) => e.write_to(buf),
            Event::ClientMessage(e) => e.write_to(buf),
            Event::MappingNotify(e) => e.write_to(buf),
        }
        assert(buf@ =~= old(buf)@ + self.spec_encode());
    }

    #[verifier::rlimit(40)]
    fn read_from(bytes: &[u8], pos: usize) -> (r: Result<(Event, usize), DecodeError>) {
        if bytes.len() - pos < 1 {
            return Err(DecodeError::Truncated);
        }
        assert(bytes@.skip(pos as int).skip(1) =~= bytes@.skip(pos + 1));
        let body = pos + 1;
        match bytes[pos] % 128 {
            2 => match KeyPress::read_from(bytes, body) {
                Ok((e, p)) => Ok((Event::KeyPress(e), p)),
                Err(err) => Err(err),
            },
            3 => match KeyRelease::read_from(bytes, body) {
                Ok((e, p)) => Ok((Event::KeyRelease(e), p)),
                Err(err) => Err(err),
            },
            4 => match ButtonPress::read_from(bytes, body) {
                Ok((e, p)) => Ok((Event::ButtonPress(e), p)),
                Err(err) => Err(err),
            },
            5 => match ButtonRelease::read_from(bytes, body) {
                Ok((e, p)) => Ok((Event::ButtonRelease(e), p)),
                Err(err) => Err(err),
            },
            6 => match Motion::read_from(bytes, body) {
                Ok((e, p)) => Ok((Event::Motion(e), p)),
                Err(err) => Err(err),
            },
            7 => match EnterWindow::read_from(bytes, body) {
                Ok((e, p)) => Ok((Event::EnterWindow(e), p)),
                Err(err) => Err(err),
            },
            8 => match LeaveWindow::read_from(bytes, body) {
                Ok((e, p)) => Ok((Event::LeaveWindow(e), p)),
                Err(err) => Err(err),
            },
            9 => match WindowFocused::read_from(bytes, body) {
                Ok((e, p)) => Ok((Event::WindowFocused(e), p)),
                Err(err) => Err(err),
            },
            10 => match WindowUnfocused::read_from(bytes, body) {
                Ok((e, p)) => Ok((Event::WindowUnfocused(e), p)),
                Err(err) => Err(err),
            },
            11 => match Keymap::read_from(bytes, body) {
                Ok((e, p)) => Ok((Event::Keymap(e), p)),
                Err(err) => Err(err),
            },
            12 => match Expose::read_from(bytes, body) {
                Ok((e, p)) => Ok((Event::Expose(e), p)),
                Err(err) => Err(err),
            },
            13 => match GraphicsExposure::read_from(bytes, body) {
                Ok((e, p)) => Ok((Event::GraphicsExposure(e), p)),
                Err(err) => Err(err),
            },
            14 => match NoExposure::read_from(bytes, body) {
                Ok((e, p)) => Ok((Event::NoExposure(e), p)),
                Err(err) => Err(err),
            },
            15 => match VisibilityChanged::read_from(bytes, body) {
                Ok((e, p)) => Ok((Event::VisibilityChanged(e), p)),
                Err(err) => Err(err),
            },
            16 => match WindowCreated::read_from(bytes, body) {
                Ok((e, p)) => Ok((Event::WindowCreated(e), p)),
                Err(err) => Err(err),
            },
            17 => match WindowDestroyed::read_from(bytes, body) {
                Ok((e, p)) => Ok((Event::WindowDestroyed(e), p)),
                Err(err) => Err(err),
            },
            18 => match WindowUnmapped::read_from(bytes, body) {
                Ok((e, p)) => Ok((Event::WindowUnmapped(e), p)),
                Err(err) => Err(err),
            },
            19 => match WindowMapped::read_from(bytes, body) {
                Ok((e, p)) => Ok((Event::WindowMapped(e), p)),
                Err(err) => Err(err),
            },
            20 => match MapRequest::read_from(bytes, body) {
                Ok((e, p)) => Ok((Event::MapRequest(e), p)),
                Err(err) => Err(err),
            },
            21 => match WindowReparented::read_from(bytes, body) {
                Ok((e, p)) => Ok((Event::WindowReparented(e), p)),
                Err(err) => Err(err),
            },
            22 => match WindowConfigured::read_from(bytes, body) {
                Ok((e, p)) => Ok((Event::WindowConfigured(e), p)),
                Err(err) => Err(err),
            },
            23 => match ConfigureRequest::read_from(bytes, body) {
                Ok((e, p)) => Ok((Event::ConfigureRequest(e), p)),
                Err(err) => Err(err),
            },
            24 => match GravityChanged::read_from(bytes, body) {
                Ok((e, p)) => Ok((Event::GravityChanged(e), p)),
                Err(err) => Err(err),
            },
            25 => match WindowResized::read_from(bytes, body) {
                Ok((e, p)) => Ok((Event::WindowResized(e), p)),
                Err(err) => Err(err),
            },
            26 => match WindowCirculated::read_from(bytes, body) {
                Ok((e, p)) => Ok((Event::WindowCirculated(e), p)),
                Err(err) => Err(err),
            },
            27 => match CirculateRequest::read_from(bytes, body) {
                Ok((e, p)) => Ok((Event::CirculateRequest(e), p)),
                Err(err) => Err(err),
            },
            28 => match PropertyChanged::read_from(bytes, body) {
                Ok((e, p)) => Ok((Event::PropertyChanged(e), p)),
                Err(err) => Err(err),
            },
            29 => match SelectionClear::read_from(bytes, body) {
                Ok((e, p)) => Ok((Event::SelectionClear(e), p)),
                Err(err) => Err(err),
            },
            30 => match SelectionRequest::read_from(bytes, body) {
                Ok((e, p)) => Ok((Event::SelectionRequest(e), p)),
                Err(err) => Err(err),
            },
            31 => match SelectionNotify::read_from(bytes, body) {
                Ok((e, p)) => Ok((Event::SelectionNotify(e), p)),
                Err(err) => Err(err),
            },
            32 => match ColormapNotify::read_from(bytes, body) {
                Ok((e, p)) => Ok((Event::ColormapNotify(e), p)),
                Err(err) => Err(err),
            },
            33 => match ClientMessage::read_from(bytes, body) {
                Ok((e, p)) => Ok((Event::ClientMessage(e), p)),
                Err(err) => Err(err),
            },
            34 => match MappingNotify::read_from(bytes, body) {
                Ok((e, p)) => Ok((Event::MappingNotify(e), p)),
                Err(err) => Err(err),
            },
            _ => Err(DecodeError::UnknownOpcode),
        }
    }

    #[verifier::rlimit(60)]
    proof fn lemma_round_trip(&self, rest: Seq<u8>) {
        let b = self.spec_encode() + rest;
        assert(b.skip(1) =~= self.spec_body() + rest);
        match self {
            Event::KeyPress(e) => e.lemma_round_trip(rest),
            Event::KeyRelease(e) => e.lemma_round_trip(rest),
            Event::ButtonPress(e) => e.lemma_round_trip(rest),
            Event::ButtonRelease(e) => e.lemma_round_trip(rest),
            Event::Motion(e) => e.lemma_round_trip(rest),
            Event::EnterWindow(e) => e.lemma_round_trip(rest),
            Event::LeaveWindow(e) => e.lemma_round_trip(rest),
            Event::WindowFocused(e) => e.lemma_round_trip(rest),
            Event::WindowUnfocused(e) => e.lemma_round_trip(rest),
            Event::Keymap(e) => e.lemma_round_trip(rest),
            Event::Expose(e) => e.lemma_round_trip(rest),
            Event::GraphicsExposure(e) => e.lemma_round_trip(rest),
            Event::NoExposure(e) => e.lemma_round_trip(rest),
            Event::VisibilityChanged(e) => e.lemma_round_trip(rest),
            Event::WindowCreated(e) => e.lemma_round_trip(rest),
            Event::WindowDestroyed(e) => e.lemma_round_trip(rest),
            Event::WindowUnmapped(e) => e.lemma_round_trip(rest),
            Event::WindowMapped(e) => e.lemma_round_trip(rest),
            Event::MapRequest(e) => e.lemma_round_trip(rest),
            Event::WindowReparented(e) => e.lemma_round_trip(rest),
            Event::WindowConfigured(e) => e.lemma_round_trip(rest),
            Event::ConfigureRequest(e) => e.lemma_round_trip(rest),
            Event::GravityChanged(e) => e.lemma_round_trip(rest),
            Event::WindowResized(e) => e.lemma_round_trip(rest),
            Event::WindowCirculated(e) => e.lemma_round_trip(rest),
            Event::CirculateRequest(e) => e.lemma_round_trip(rest),
            Event::PropertyChanged(e) => e.lemma_round_trip(rest),
            Event::SelectionClear(e) => e.lemma_round_trip(rest),
            Event::SelectionRequest(e) => e.lemma_round_trip(rest),
            Event::SelectionNotify(e) => e.lemma_round_trip(rest),
            Event::ColormapNotify(e) => e.lemma_round_trip(rest),
            Event::ClientMessage(e) => e.lemma_round_trip(rest),
            Event::MappingNotify(e) => e.lemma_round_trip(rest),
        }
    }

    #[verifier::rlimit(60)]
    proof fn lemma_truncated(&self, k: nat) {
        if k > 0 {
            let b = self.spec_encode().take(k as int);
            assert(b.skip(1) =~= self.spec_body().take(k - 1));
            match self {
                Event::KeyPress(e) => e.lemma_truncated((k - 1) as nat),
                Event::KeyRelease(e) => e.lemma_truncated((k - 1) as nat),
                Event::ButtonPress(e) => e.lemma_truncated((k - 1) as nat),
                Event::ButtonRelease(e) => e.lemma_truncated((k - 1) as nat),
                Event::Motion(e) => e.lemma_truncated((k - 1) as nat),
                Event::EnterWindow(e) => e.lemma_truncated((k - 1) as nat),
                Event::LeaveWindow(e) => e.lemma_truncated((k - 1) as nat),
                Event::WindowFocused(e) => e.lemma_truncated((k - 1) as nat),
                Event::WindowUnfocused(e) => e.lemma_truncated((k - 1) as nat),
                Event::Keymap(e) => e.lemma_truncated((k - 1) as nat),
                Event::Expose(e) => e.lemma_truncated((k - 1) as nat),
                Event::GraphicsExposure(e) => e.lemma_truncated((k - 1) as nat),
                Event::NoExposure(e) => e.lemma_truncated((k - 1) as nat),
                Event::VisibilityChanged(e) => e.lemma_truncated((k - 1) as nat),
                Event::WindowCreated(e) => e.lemma_truncated((k - 1) as nat),
                Event::WindowDestroyed(e) => e.lemma_truncated((k - 1) as nat),
                Event::WindowUnmapped(e) => e.lemma_truncated((k - 1) as nat),
                Event::WindowMapped(e) => e.lemma_truncated((k - 1) as nat),
                Event::MapRequest(e) => e.lemma_truncated((k - 1) as nat),
                Event::WindowReparented(e) => e.lemma_truncated((k - 1) as nat),
                Event::WindowConfigured(e) => e.lemma_truncated((k - 1) as nat),
                Event::ConfigureRequest(e) => e.lemma_truncated((k - 1) as nat),
                Event::GravityChanged(e) => e.lemma_truncated((k - 1) as nat),
                Event::WindowResized(e) => e.lemma_truncated((k - 1) as nat),
                Event::WindowCirculated(e) => e.lemma_truncated((k - 1) as nat),
                Event::CirculateRequest(e) => e.lemma_truncated((k - 1) as nat),
                Event::PropertyChanged(e) => e.lemma_truncated((k - 1) as nat),
                Event::SelectionClear(e) => e.lemma_truncated((k - 1) as nat),
                Event::SelectionRequest(e) => e.lemma_truncated((k - 1) as nat),
                Event::SelectionNotify(e) => e.lemma_truncated((k - 1) as nat),
                Event::ColormapNotify(e) => e.lemma_truncated((k - 1) as nat),
                Event::ClientMessage(e) => e.lemma_truncated((k - 1) as nat),
                Event::MappingNotify(e) => e.lemma_truncated((k - 1) as nat),
            }
        }
    }

    proof fn lemma_size(&self) {
        match self {
            Event::KeyPress(e) => e.lemma_size(),
            Event::KeyRelease(e) => e.lemma_size(),
            Event::ButtonPress(e) => e.lemma_size(),
            Event::ButtonRelease(e) => e.lemma_size(),
            Event::Motion(e) => e.lemma_size(),
            Event::EnterWindow(e) => e.lemma_size(),
            Event::LeaveWindow(e) => e.lemma_size(),
            Event::WindowFocused(e) => e.lemma_size(),
            Event::WindowUnfocused(e) => e.lemma_size(),
            Event::Keymap(e) => e.lemma_size(),
            Event::Expose(e) => e.lemma_size(),
            Event::GraphicsExposure(e) => e.lemma_size(),
            Event::NoExposure(e) => e.lemma_size(),
            Event::VisibilityChanged(e) => e.lemma_size(),
            Event::WindowCreated(e) => e.lemma_size(),
            Event::WindowDestroyed(e) => e.lemma_size(),
            Event::WindowUnmapped(e) => e.lemma_size(),
            Event::WindowMapped(e) => e.lemma_size(),
            Event::MapRequest(e) => e.lemma_size(),
            Event::WindowReparented(e) => e.lemma_size(),
            Event::WindowConfigured(e) => e.lemma_size(),
            Event::ConfigureRequest(e) => e.lemma_size(),
            Event::GravityChanged(e) => e.lemma_size(),
            Event::WindowResized(e) => e.lemma_size(),
            Event::WindowCirculated(e) => e.lemma_size(),
            Event::CirculateRequest(e) => e.lemma_size(),
            Event::PropertyChanged(e) => e.lemma_size(),
            Event::SelectionClear(e) => e.lemma_size(),
            Event::SelectionRequest(e) => e.lemma_size(),
            Event::SelectionNotify(e) => e.lemma_size(),
            Event::ColormapNotify(e) => e.lemma_size(),
            Event::ClientMessage(e) => e.lemma_size(),
            Event::MappingNotify(e) => e.lemma_size(),
        }
    }

    proof fn lemma_decode_len(bytes: Seq<u8>) {
        if bytes.len() >= 1 {
            let body = bytes.skip(1);
            KeyPress::lemma_decode_len(body);
            KeyRelease::lemma_decode_len(body);
            ButtonPress::lemma_decode_len(body);
            ButtonRelease::lemma_decode_len(body);
            Motion::lemma_decode_len(body);
            EnterWindow::lemma_decode_len(body);
            LeaveWindow::lemma_decode_len(body);
            WindowFocused::lemma_decode_len(body);
            WindowUnfocused::lemma_decode_len(body);
            Keymap::lemma_decode_len(body);
            Expose::lemma_decode_len(body);
            GraphicsExposure::lemma_decode_len(body);
            NoExposure::lemma_decode_len(body);
            VisibilityChanged::lemma_decode_len(body);
            WindowCreated::lemma_decode_len(body);
            WindowDestroyed::lemma_decode_len(body);
            WindowUnmapped::lemma_decode_len(body);
            WindowMapped::lemma_decode_len(body);
            MapRequest::lemma_decode_len(body);
            WindowReparented::lemma_decode_len(body);
            WindowConfigured::lemma_decode_len(body);
            ConfigureRequest::lemma_decode_len(body);
            GravityChanged::lemma_decode_len(body);
            WindowResized::lemma_decode_len(body);
            WindowCirculated::lemma_decode_len(body);
            CirculateRequest::lemma_decode_len(body);
            PropertyChanged::lemma_decode_len(body);
            SelectionClear::lemma_decode_len(body);
            SelectionRequest::lemma_decode_len(body);
            SelectionNotify::lemma_decode_len(body);
            ColormapNotify::lemma_decode_len(body);
            ClientMessage::lemma_decode_len(body);
            MappingNotify::lemma_decode_len(body);
        }
    }
}

/// The whole 32-byte frame of an event.
pub fn encode_event(e: &Event) -> (r: Vec<u8>)
    ensures
        r@ == e.spec_encode(),
        r@.len() == 32,
{
    let mut buf: Vec<u8> = Vec::new();
    e.write_to(&mut buf);
    proof {
        e.lemma_size();
    }
    assert(buf@ =~= e.spec_encode());
    buf
}

/// Decodes the event at the front of `bytes`, selecting the decoder by the
/// code byte; returns the event and the number of bytes it took.
pub fn decode_event(bytes: &[u8]) -> (r: Result<(Event, usize), DecodeError>)
    ensures
        match r {
            Ok((e, n)) => n <= bytes@.len() && Event::spec_decode(bytes@) == Ok::<(Event, nat), DecodeError>(
                (e, n as nat),
            ),
            Err(err) => Event::spec_decode(bytes@) == Err::<(Event, nat), DecodeError>(err),
        },
{
    assert(bytes@.skip(0) =~= bytes@);
    Event::read_from(bytes, 0)
}

/// A frame whose code byte, without the sent flag, is no known event code
/// decodes to `UnknownOpcode`, whatever follows it.
pub proof fn lemma_unknown_event(bytes: Seq<u8>)
    requires
        bytes.len() >= 1,
        !is_event_code(bytes[0] % 128),
    ensures
        Event::spec_decode(bytes) == Err::<(Event, nat), DecodeError>(DecodeError::UnknownOpcode),
{
}

/// Every event frame is exactly 32 bytes: eight whole 4-byte words.
pub proof fn lemma_event_frame(e: Event)
    ensures
        e.spec_encode().len() == 32,
        e.spec_encode().len() % 4 == 0,
{
    e.lemma_size();
}

} // verus!
