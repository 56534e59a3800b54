//! Enumerations that travel as a single byte holding the variant's index.

use crate::wire::{DecodeError, Wire};
use vstd::prelude::*;

verus! {

/// Whether something is added to a set or removed from it.
#[derive(Debug, Clone, Copy, PartialEq, Eq, Hash, Structural)]
pub enum AddOrRemove {
    /// The thing is added.
    Add,
    /// The thing is removed.
    Remove,
}

impl AddOrRemove {
    /// The byte that stands for the variant.
    pub open spec fn spec_code(&self) -> u8 {
        match self {
            AddOrRemove::Add => 0u8,
            AddOrRemove::Remove => 1u8,
        }
    }

    /// The variant that a byte stands for, if any.
    pub open spec fn spec_of_code(code: u8) -> Option<AddOrRemove> {
        match code {
            0u8 => Some(AddOrRemove::Add),
            1u8 => Some(AddOrRemove::Remove),
            _ => None,
        }
    }

    pub fn code(&self) -> (r: u8)
        ensures
            r == self.spec_code(),
    {
        match self {
            AddOrRemove::Add => 0,
            AddOrRemove::Remove => 1,
        }
    }

    pub fn of_code(code: u8) -> (r: Option<AddOrRemove>)
        ensures
            r == Self::spec_of_code(code),
    {
        match code {
            0 => Some(AddOrRemove::Add),
            1 => Some(AddOrRemove::Remove),
            _ => None,
        }
    }
}

impl Wire for AddOrRemove {
    open spec fn wf(&self) -> bool {
        true
    }

    open spec fn canonical(&self) -> bool {
        true
    }

    open spec fn spec_encode(&self) -> Seq<u8> {
        seq![self.spec_code()]
    }

    open spec fn spec_size(&self) -> nat {
        1
    }

    open spec fn spec_decode(bytes: Seq<u8>) -> Result<(AddOrRemove, nat), DecodeError> {
        if bytes.len() < 1 {
            Err(DecodeError::Truncated)
        } else {
            match Self::spec_of_code(bytes[0]) {
                Some(v) => Ok((v, 1)),
                None => Err(DecodeError::InvalidDiscriminant),
            }
        }
    }

    fn x11_size(&self) -> (r: usize) {
        1
    }

    fn write_to(&self, buf: &mut Vec<u8>) {
        buf.push(self.code());
    }

    fn read_from(bytes: &[u8], pos: usize) -> (r: Result<(AddOrRemove, usize), DecodeError>) {
        if bytes.len() - pos < 1 {
            Err(DecodeError::Truncated)
        } else {
            match Self::of_code(bytes[pos]) {
                Some(v) => Ok((v, pos + 1)),
                None => Err(DecodeError::InvalidDiscriminant),
            }
        }
    }

    proof fn lemma_round_trip(&self, rest: Seq<u8>) {
    }

    proof fn lemma_truncated(&self, k: nat) {
    }

    proof fn lemma_size(&self) {
    }

    proof fn lemma_decode_len(bytes: Seq<u8>) {
    }
}

/// A setting that is switched off, switched on, or left to the server's default.
#[derive(Debug, Clone, Copy, PartialEq, Eq, Hash, Structural)]
pub enum ToggleOrDefault {
    /// The option is switched off.
    Disabled,
    /// The option is switched on.
    Enabled,
    /// The server's default is used.
    Default,
}

impl ToggleOrDefault {
    /// The byte that stands for the variant.
    pub open spec fn spec_code(&self) -> u8 {
        match self {
            ToggleOrDefault::Disabled => 0u8,
            ToggleOrDefault::Enabled => 1u8,
            ToggleOrDefault::Default => 2u8,
        }
    }

    /// The variant that a byte stands for, if any.
    pub open spec fn spec_of_code(code: u8) -> Option<ToggleOrDefault> {
        match code {
            0u8 => Some(ToggleOrDefault::Disabled),
            1u8 => Some(ToggleOrDefault::Enabled),
            2u8 => Some(ToggleOrDefault::Default),
            _ => None,
        }
    }

    pub fn code(&self) -> (r: u8)
        ensures
            r == self.spec_code(),
    {
        match self {
            ToggleOrDefault::Disabled => 0,
            ToggleOrDefault::Enabled => 1,
            ToggleOrDefault::Default => 2,
        }
    }

    pub fn of_code(code: u8) -> (r: Option<ToggleOrDefault>)
        ensures
            r == Self::spec_of_code(code),
    {
        match code {
            0 => Some(ToggleOrDefault::Disabled),
            1 => Some(ToggleOrDefault::Enabled),
            2 => Some(ToggleOrDefault::Default),
            _ => None,
        }
    }
}

impl Wire for ToggleOrDefault {
    open spec fn wf(&self) -> bool {
        true
    }

    open spec fn canonical(&self) -> bool {
        true
    }

    open spec fn spec_encode(&self) -> Seq<u8> {
        seq![self.spec_code()]
    }

    open spec fn spec_size(&self) -> nat {
        1
    }

    open spec fn spec_decode(bytes: Seq<u8>) -> Result<(ToggleOrDefault, nat), DecodeError> {
        if bytes.len() < 1 {
            Err(DecodeError::Truncated)
        } else {
            match Self::spec_of_code(bytes[0]) {
                Some(v) => Ok((v, 1)),
                None => Err(DecodeError::InvalidDiscriminant),
            }
        }
    }

    fn x11_size(&self) -> (r: usize) {
        1
    }

    fn write_to(&self, buf: &mut Vec<u8>) {
        buf.push(self.code());
    }

    fn read_from(bytes: &[u8], pos: usize) -> (r: Result<(ToggleOrDefault, usize), DecodeError>) {
        if bytes.len() - pos < 1 {
            Err(DecodeError::Truncated)
        } else {
            match Self::of_code(bytes[pos]) {
                Some(v) => Ok((v, pos + 1)),
                None => Err(DecodeError::InvalidDiscriminant),
            }
        }
    }

    proof fn lemma_round_trip(&self, rest: Seq<u8>) {
    }

    proof fn lemma_truncated(&self, k: nat) {
    }

    proof fn lemma_size(&self) {
    }

    proof fn lemma_decode_len(bytes: Seq<u8>) {
    }
}

/// How a grab stood when a pointer crossing happened.
#[derive(Debug, Clone, Copy, PartialEq, Eq, Hash, Structural)]
pub enum GrabMode {
    /// No grab was involved.
    Normal,
    /// The crossing came from a grab being activated.
    Grab,
    /// The crossing came from a grab being released.
    Ungrab,
}

impl GrabMode {
    /// The byte that stands for the variant.
    pub open spec fn spec_code(&self) -> u8 {
        match self {
            GrabMode::Normal => 0u8,
            GrabMode::Grab => 1u8,
            GrabMode::Ungrab => 2u8,
        }
    }

    /// The variant that a byte stands for, if any.
    pub open spec fn spec_of_code(code: u8) -> Option<GrabMode> {
        match code {
            0u8 => Some(GrabMode::Normal),
            1u8 => Some(GrabMode::Grab),
            2u8 => Some(GrabMode::Ungrab),
            _ => None,
        }
    }

    pub fn code(&self) -> (r: u8)
        ensures
            r == self.spec_code(),
    {
        match self {
            GrabMode::Normal => 0,
            GrabMode::Grab => 1,
            GrabMode::Ungrab => 2,
        }
    }

    pub fn of_code(code: u8) -> (r: Option<GrabMode>)
        ensures
            r == Self::spec_of_code(code),
    {
        match code {
            0 => Some(GrabMode::Normal),
            1 => Some(GrabMode::Grab),
            2 => Some(GrabMode::Ungrab),
            _ => None,
        }
    }
}

impl Wire for GrabMode {
    open spec fn wf(&self) -> bool {
        true
    }

    open spec fn canonical(&self) -> bool {
        true
    }

    open spec fn spec_encode(&self) -> Seq<u8> {
        seq![self.spec_code()]
    }

    open spec fn spec_size(&self) -> nat {
        1
    }

    open spec fn spec_decode(bytes: Seq<u8>) -> Result<(GrabMode, nat), DecodeError> {
        if bytes.len() < 1 {
            Err(DecodeError::Truncated)
        } else {
            match Self::spec_of_code(bytes[0]) {
                Some(v) => Ok((v, 1)),
                None => Err(DecodeError::InvalidDiscriminant),
            }
        }
    }

    fn x11_size(&self) -> (r: usize) {
        1
    }

    fn write_to(&self, buf: &mut Vec<u8>) {
        buf.push(self.code());
    }

    fn read_from(bytes: &[u8], pos: usize) -> (r: Result<(GrabMode, usize), DecodeError>) {
        if bytes.len() - pos < 1 {
            Err(DecodeError::Truncated)
        } else {
            match Self::of_code(bytes[pos]) {
                Some(v) => Ok((v, pos + 1)),
                None => Err(DecodeError::InvalidDiscriminant),
            }
        }
    }

    proof fn lemma_round_trip(&self, rest: Seq<u8>) {
    }

    proof fn lemma_truncated(&self, k: nat) {
    }

    proof fn lemma_size(&self) {
    }

    proof fn lemma_decode_len(bytes: Seq<u8>) {
    }
}

/// Which kind of motion event was sent.
#[derive(Debug, Clone, Copy, PartialEq, Eq, Hash, Structural)]
pub enum MotionNotificationType {
    /// An ordinary motion event.
    Normal,
    /// A motion event sent to a client that selected motion hints: the server may send only one
    /// until the pointer leaves, a button or key changes, or the client queries the pointer.
    Hint,
}

impl MotionNotificationType {
    /// The byte that stands for the variant.
    pub open spec fn spec_code(&self) -> u8 {
        match self {
            MotionNotificationType::Normal => 0u8,
            MotionNotificationType::Hint => 1u8,
        }
    }

    /// The variant that a byte stands for, if any.
    pub open spec fn spec_of_code(code: u8) -> Option<MotionNotificationType> {
        match code {
            0u8 => Some(MotionNotificationType::Normal),
            1u8 => Some(MotionNotificationType::Hint),
            _ => None,
        }
    }

    pub fn code(&self) -> (r: u8)
        ensures
            r == self.spec_code(),
    {
        match self {
            MotionNotificationType::Normal => 0,
            MotionNotificationType::Hint => 1,
        }
    }

    pub fn of_code(code: u8) -> (r: Option<MotionNotificationType>)
        ensures
            r == Self::spec_of_code(code),
    {
        match code {
            0 => Some(MotionNotificationType::Normal),
            1 => Some(MotionNotificationType::Hint),
            _ => None,
        }
    }
}

impl Wire for MotionNotificationType {
    open spec fn wf(&self) -> bool {
        true
    }

    open spec fn canonical(&self) -> bool {
        true
    }

    open spec fn spec_encode(&self) -> Seq<u8> {
        seq![self.spec_code()]
    }

    open spec fn spec_size(&self) -> nat {
        1
    }

    open spec fn spec_decode(bytes: Seq<u8>) -> Result<(MotionNotificationType, nat), DecodeError> {
        if bytes.len() < 1 {
            Err(DecodeError::Truncated)
        } else {
            match Self::spec_of_code(bytes[0]) {
                Some(v) => Ok((v, 1)),
                None => Err(DecodeError::InvalidDiscriminant),
            }
        }
    }

    fn x11_size(&self) -> (r: usize) {
        1
    }

    fn write_to(&self, buf: &mut Vec<u8>) {
        buf.push(self.code());
    }

    fn read_from(bytes: &[u8], pos: usize) -> (r: Result<(MotionNotificationType, usize), DecodeError>) {
        if bytes.len() - pos < 1 {
            Err(DecodeError::Truncated)
        } else {
            match Self::of_code(bytes[pos]) {
                Some(v) => Ok((v, pos + 1)),
                None => Err(DecodeError::InvalidDiscriminant),
            }
        }
    }

    proof fn lemma_round_trip(&self, rest: Seq<u8>) {
    }

    proof fn lemma_truncated(&self, k: nat) {
    }

    proof fn lemma_size(&self) {
    }

    proof fn lemma_decode_len(bytes: Seq<u8>) {
    }
}

/// How the window that the pointer entered or left relates to the windows on either side of the
/// crossing.
#[derive(Debug, Clone, Copy, PartialEq, Eq, Hash, Structural)]
pub enum EnterLeaveDetail {
    /// The window is an ancestor of the other window.
    Ancestor,
    /// The window lies between the two windows of the crossing.
    Intermediate,
    /// The window is a descendant of the other window.
    Descendant,
    /// Neither window is an ancestor of the other.
    Nonlinear,
    /// The window lies between the two windows of a nonlinear crossing.
    NonlinearIntermediate,
}

impl EnterLeaveDetail {
    /// The byte that stands for the variant.
    pub open spec fn spec_code(&self) -> u8 {
        match self {
            EnterLeaveDetail::Ancestor => 0u8,
            EnterLeaveDetail::Intermediate => 1u8,
            EnterLeaveDetail::Descendant => 2u8,
            EnterLeaveDetail::Nonlinear => 3u8,
            EnterLeaveDetail::NonlinearIntermediate => 4u8,
        }
    }

    /// The variant that a byte stands for, if any.
    pub open spec fn spec_of_code(code: u8) -> Option<EnterLeaveDetail> {
        match code {
            0u8 => Some(EnterLeaveDetail::Ancestor),
            1u8 => Some(EnterLeaveDetail::Intermediate),
            2u8 => Some(EnterLeaveDetail::Descendant),
            3u8 => Some(EnterLeaveDetail::Nonlinear),
            4u8 => Some(EnterLeaveDetail::NonlinearIntermediate),
            _ => None,
        }
    }

    pub fn code(&self) -> (r: u8)
        ensures
            r == self.spec_code(),
    {
        match self {
            EnterLeaveDetail::Ancestor => 0,
            EnterLeaveDetail::Intermediate => 1,
            EnterLeaveDetail::Descendant => 2,
            EnterLeaveDetail::Nonlinear => 3,
            EnterLeaveDetail::NonlinearIntermediate => 4,
        }
    }

    pub fn of_code(code: u8) -> (r: Option<EnterLeaveDetail>)
        ensures
            r == Self::spec_of_code(code),
    {
        match code {
            0 => Some(EnterLeaveDetail::Ancestor),
            1 => Some(EnterLeaveDetail::Intermediate),
            2 => Some(EnterLeaveDetail::Descendant),
            3 => Some(EnterLeaveDetail::Nonlinear),
            4 => Some(EnterLeaveDetail::NonlinearIntermediate),
            _ => None,
        }
    }
}

impl Wire for EnterLeaveDetail {
    open spec fn wf(&self) -> bool {
        true
    }

    open spec fn canonical(&self) -> bool {
        true
    }

    open spec fn spec_encode(&self) -> Seq<u8> {
        seq![self.spec_code()]
    }

    open spec fn spec_size(&self) -> nat {
        1
    }

    open spec fn spec_decode(bytes: Seq<u8>) -> Result<(EnterLeaveDetail, nat), DecodeError> {
        if bytes.len() < 1 {
            Err(DecodeError::Truncated)
        } else {
            match Self::spec_of_code(bytes[0]) {
                Some(v) => Ok((v, 1)),
                None => Err(DecodeError::InvalidDiscriminant),
            }
        }
    }

    fn x11_size(&self) -> (r: usize) {
        1
    }

    fn write_to(&self, buf: &mut Vec<u8>) {
        buf.push(self.code());
    }

    fn read_from(bytes: &[u8], pos: usize) -> (r: Result<(EnterLeaveDetail, usize), DecodeError>) {
        if bytes.len() - pos < 1 {
            Err(DecodeError::Truncated)
        } else {
            match Self::of_code(bytes[pos]) {
                Some(v) => Ok((v, pos + 1)),
                None => Err(DecodeError::InvalidDiscriminant),
            }
        }
    }

    proof fn lemma_round_trip(&self, rest: Seq<u8>) {
    }

    proof fn lemma_truncated(&self, k: nat) {
    }

    proof fn lemma_size(&self) {
    }

    proof fn lemma_decode_len(bytes: Seq<u8>) {
    }
}

/// How the window that gained or lost the focus relates to the focus change.
#[derive(Debug, Clone, Copy, PartialEq, Eq, Hash, Structural)]
pub enum FocusDetail {
    /// The window is an ancestor of the other window.
    Ancestor,
    /// The window lies between the two windows of the change.
    Virtual,
    /// The window is an inferior of the other window.
    Inferior,
    /// Neither window is an ancestor of the other.
    Nonlinear,
    /// The window lies between the two windows of a nonlinear change.
    NonlinearVirtual,
    /// The event concerns the window that holds the pointer.
    Pointer,
    /// The focus was or becomes the root window under the pointer.
    PointerRoot,
    /// The focus was or becomes no window at all.
    NoFocus,
}

impl FocusDetail {
    /// The byte that stands for the variant.
    pub open spec fn spec_code(&self) -> u8 {
        match self {
            FocusDetail::Ancestor => 0u8,
            FocusDetail::Virtual => 1u8,
            FocusDetail::Inferior => 2u8,
            FocusDetail::Nonlinear => 3u8,
            FocusDetail::NonlinearVirtual => 4u8,
            FocusDetail::Pointer => 5u8,
            FocusDetail::PointerRoot => 6u8,
            FocusDetail::NoFocus => 7u8,
        }
    }

    /// The variant that a byte stands for, if any.
    pub open spec fn spec_of_code(code: u8) -> Option<FocusDetail> {
        match code {
            0u8 => Some(FocusDetail::Ancestor),
            1u8 => Some(FocusDetail::Virtual),
            2u8 => Some(FocusDetail::Inferior),
            3u8 => Some(FocusDetail::Nonlinear),
            4u8 => Some(FocusDetail::NonlinearVirtual),
            5u8 => Some(FocusDetail::Pointer),
            6u8 => Some(FocusDetail::PointerRoot),
            7u8 => Some(FocusDetail::NoFocus),
            _ => None,
        }
    }

    pub fn code(&self) -> (r: u8)
        ensures
            r == self.spec_code(),
    {
        match self {
            FocusDetail::Ancestor => 0,
            FocusDetail::Virtual => 1,
            FocusDetail::Inferior => 2,
            FocusDetail::Nonlinear => 3,
            FocusDetail::NonlinearVirtual => 4,
            FocusDetail::Pointer => 5,
            FocusDetail::PointerRoot => 6,
            FocusDetail::NoFocus => 7,
        }
    }

    pub fn of_code(code: u8) -> (r: Option<FocusDetail>)
        ensures
            r == Self::spec_of_code(code),
    {
        match code {
            0 => Some(FocusDetail::Ancestor),
            1 => Some(FocusDetail::Virtual),
            2 => Some(FocusDetail::Inferior),
            3 => Some(FocusDetail::Nonlinear),
            4 => Some(FocusDetail::NonlinearVirtual),
            5 => Some(FocusDetail::Pointer),
            6 => Some(FocusDetail::PointerRoot),
            7 => Some(FocusDetail::NoFocus),
            _ => None,
        }
    }
}

impl Wire for FocusDetail {
    open spec fn wf(&self) -> bool {
        true
    }

    open spec fn canonical(&self) -> bool {
        true
    }

    open spec fn spec_encode(&self) -> Seq<u8> {
        seq![self.spec_code()]
    }

    open spec fn spec_size(&self) -> nat {
        1
    }

    open spec fn spec_decode(bytes: Seq<u8>) -> Result<(FocusDetail, nat), DecodeError> {
        if bytes.len() < 1 {
            Err(DecodeError::Truncated)
        } else {
            match Self::spec_of_code(bytes[0]) {
                Some(v) => Ok((v, 1)),
                None => Err(DecodeError::InvalidDiscriminant),
            }
        }
    }

    fn x11_size(&self) -> (r: usize) {
        1
    }

    fn write_to(&self, buf: &mut Vec<u8>) {
        buf.push(self.code());
    }

    fn read_from(bytes: &[u8], pos: usize) -> (r: Result<(FocusDetail, usize), DecodeError>) {
        if bytes.len() - pos < 1 {
            Err(DecodeError::Truncated)
        } else {
            match Self::of_code(bytes[pos]) {
                Some(v) => Ok((v, pos + 1)),
                None => Err(DecodeError::InvalidDiscriminant),
            }
        }
    }

    proof fn lemma_round_trip(&self, rest: Seq<u8>) {
    }

    proof fn lemma_truncated(&self, k: nat) {
    }

    proof fn lemma_size(&self) {
    }

    proof fn lemma_decode_len(bytes: Seq<u8>) {
    }
}

/// How a keyboard grab stood when the focus changed.
#[derive(Debug, Clone, Copy, PartialEq, Eq, Hash, Structural)]
pub enum FocusGrabMode {
    /// No grab was involved.
    Normal,
    /// The change came from a grab being activated.
    Grab,
    /// The change came from a grab being released.
    Ungrab,
    /// The change happened while the keyboard was grabbed.
    WhileGrabbed,
}

impl FocusGrabMode {
    /// The byte that stands for the variant.
    pub open spec fn spec_code(&self) -> u8 {
        match self {
            FocusGrabMode::Normal => 0u8,
            FocusGrabMode::Grab => 1u8,
            FocusGrabMode::Ungrab => 2u8,
            FocusGrabMode::WhileGrabbed => 3u8,
        }
    }

    /// The variant that a byte stands for, if any.
    pub open spec fn spec_of_code(code: u8) -> Option<FocusGrabMode> {
        match code {
            0u8 => Some(FocusGrabMode::Normal),
            1u8 => Some(FocusGrabMode::Grab),
            2u8 => Some(FocusGrabMode::Ungrab),
            3u8 => Some(FocusGrabMode::WhileGrabbed),
            _ => None,
        }
    }

    pub fn code(&self) -> (r: u8)
        ensures
            r == self.spec_code(),
    {
        match self {
            FocusGrabMode::Normal => 0,
            FocusGrabMode::Grab => 1,
            FocusGrabMode::Ungrab => 2,
            FocusGrabMode::WhileGrabbed => 3,
        }
    }

    pub fn of_code(code: u8) -> (r: Option<FocusGrabMode>)
        ensures
            r == Self::spec_of_code(code),
    {
        match code {
            0 => Some(FocusGrabMode::Normal),
            1 => Some(FocusGrabMode::Grab),
            2 => Some(FocusGrabMode::Ungrab),
            3 => Some(FocusGrabMode::WhileGrabbed),
            _ => None,
        }
    }
}

impl Wire for FocusGrabMode {
    open spec fn wf(&self) -> bool {
        true
    }

    open spec fn canonical(&self) -> bool {
        true
    }

    open spec fn spec_encode(&self) -> Seq<u8> {
        seq![self.spec_code()]
    }

    open spec fn spec_size(&self) -> nat {
        1
    }

    open spec fn spec_decode(bytes: Seq<u8>) -> Result<(FocusGrabMode, nat), DecodeError> {
        if bytes.len() < 1 {
            Err(DecodeError::Truncated)
        } else {
            match Self::spec_of_code(bytes[0]) {
                Some(v) => Ok((v, 1)),
                None => Err(DecodeError::InvalidDiscriminant),
            }
        }
    }

    fn x11_size(&self) -> (r: usize) {
        1
    }

    fn write_to(&self, buf: &mut Vec<u8>) {
        buf.push(self.code());
    }

    fn read_from(bytes: &[u8], pos: usize) -> (r: Result<(FocusGrabMode, usize), DecodeError>) {
        if bytes.len() - pos < 1 {
            Err(DecodeError::Truncated)
        } else {
            match Self::of_code(bytes[pos]) {
                Some(v) => Ok((v, pos + 1)),
                None => Err(DecodeError::InvalidDiscriminant),
            }
        }
    }

    proof fn lemma_round_trip(&self, rest: Seq<u8>) {
    }

    proof fn lemma_truncated(&self, k: nat) {
    }

    proof fn lemma_size(&self) {
    }

    proof fn lemma_decode_len(bytes: Seq<u8>) {
    }
}

/// How much of a window can be seen.
#[derive(Debug, Clone, Copy, PartialEq, Eq, Hash, Structural)]
pub enum Visibility {
    /// The window is fully visible.
    Unobscured,
    /// The window is partly covered.
    PartiallyObscured,
    /// The window is fully covered.
    FullyObscured,
}

impl Visibility {
    /// The byte that stands for the variant.
    pub open spec fn spec_code(&self) -> u8 {
        match self {
            Visibility::Unobscured => 0u8,
            Visibility::PartiallyObscured => 1u8,
            Visibility::FullyObscured => 2u8,
        }
    }

    /// The variant that a byte stands for, if any.
    pub open spec fn spec_of_code(code: u8) -> Option<Visibility> {
        match code {
            0u8 => Some(Visibility::Unobscured),
            1u8 => Some(Visibility::PartiallyObscured),
            2u8 => Some(Visibility::FullyObscured),
            _ => None,
        }
    }

    pub fn code(&self) -> (r: u8)
        ensures
            r == self.spec_code(),
    {
        match self {
            Visibility::Unobscured => 0,
            Visibility::PartiallyObscured => 1,
            Visibility::FullyObscured => 2,
        }
    }

    pub fn of_code(code: u8) -> (r: Option<Visibility>)
        ensures
            r == Self::spec_of_code(code),
    {
        match code {
            0 => Some(Visibility::Unobscured),
            1 => Some(Visibility::PartiallyObscured),
            2 => Some(Visibility::FullyObscured),
            _ => None,
        }
    }
}

impl Wire for Visibility {
    open spec fn wf(&self) -> bool {
        true
    }

    open spec fn canonical(&self) -> bool {
        true
    }

    open spec fn spec_encode(&self) -> Seq<u8> {
        seq![self.spec_code()]
    }

    open spec fn spec_size(&self) -> nat {
        1
    }

    open spec fn spec_decode(bytes: Seq<u8>) -> Result<(Visibility, nat), DecodeError> {
        if bytes.len() < 1 {
            Err(DecodeError::Truncated)
        } else {
            match Self::spec_of_code(bytes[0]) {
                Some(v) => Ok((v, 1)),
                None => Err(DecodeError::InvalidDiscriminant),
            }
        }
    }

    fn x11_size(&self) -> (r: usize) {
        1
    }

    fn write_to(&self, buf: &mut Vec<u8>) {
        buf.push(self.code());
    }

    fn read_from(bytes: &[u8], pos: usize) -> (r: Result<(Visibility, usize), DecodeError>) {
        if bytes.len() - pos < 1 {
            Err(DecodeError::Truncated)
        } else {
            match Self::of_code(bytes[pos]) {
                Some(v) => Ok((v, pos + 1)),
                None => Err(DecodeError::InvalidDiscriminant),
            }
        }
    }

    proof fn lemma_round_trip(&self, rest: Seq<u8>) {
    }

    proof fn lemma_truncated(&self, k: nat) {
    }

    proof fn lemma_size(&self) {
    }

    proof fn lemma_decode_len(bytes: Seq<u8>) {
    }
}

/// Where a window was restacked among its siblings.
#[derive(Debug, Clone, Copy, PartialEq, Eq, Hash, Structural)]
pub enum Placement {
    /// The window was placed above all of its siblings.
    Top,
    /// The window was placed below all of its siblings.
    Bottom,
}

impl Placement {
    /// The byte that stands for the variant.
    pub open spec fn spec_code(&self) -> u8 {
        match self {
            Placement::Top => 0u8,
            Placement::Bottom => 1u8,
        }
    }

    /// The variant that a byte stands for, if any.
    pub open spec fn spec_of_code(code: u8) -> Option<Placement> {
        match code {
            0u8 => Some(Placement::Top),
            1u8 => Some(Placement::Bottom),
            _ => None,
        }
    }

    pub fn code(&self) -> (r: u8)
        ensures
            r == self.spec_code(),
    {
        match self {
            Placement::Top => 0,
            Placement::Bottom => 1,
        }
    }

    pub fn of_code(code: u8) -> (r: Option<Placement>)
        ensures
            r == Self::spec_of_code(code),
    {
        match code {
            0 => Some(Placement::Top),
            1 => Some(Placement::Bottom),
            _ => None,
        }
    }
}

impl Wire for Placement {
    open spec fn wf(&self) -> bool {
        true
    }

    open spec fn canonical(&self) -> bool {
        true
    }

    open spec fn spec_encode(&self) -> Seq<u8> {
        seq![self.spec_code()]
    }

    open spec fn spec_size(&self) -> nat {
        1
    }

    open spec fn spec_decode(bytes: Seq<u8>) -> Result<(Placement, nat), DecodeError> {
        if bytes.len() < 1 {
            Err(DecodeError::Truncated)
        } else {
            match Self::spec_of_code(bytes[0]) {
                Some(v) => Ok((v, 1)),
                None => Err(DecodeError::InvalidDiscriminant),
            }
        }
    }

    fn x11_size(&self) -> (r: usize) {
        1
    }

    fn write_to(&self, buf: &mut Vec<u8>) {
        buf.push(self.code());
    }

    fn read_from(bytes: &[u8], pos: usize) -> (r: Result<(Placement, usize), DecodeError>) {
        if bytes.len() - pos < 1 {
            Err(DecodeError::Truncated)
        } else {
            match Self::of_code(bytes[pos]) {
                Some(v) => Ok((v, pos + 1)),
                None => Err(DecodeError::InvalidDiscriminant),
            }
        }
    }

    proof fn lemma_round_trip(&self, rest: Seq<u8>) {
    }

    proof fn lemma_truncated(&self, k: nat) {
    }

    proof fn lemma_size(&self) {
    }

    proof fn lemma_decode_len(bytes: Seq<u8>) {
    }
}

/// What happened to a property.
#[derive(Debug, Clone, Copy, PartialEq, Eq, Hash, Structural)]
pub enum PropertyChange {
    /// The property was given a new value.
    Modified,
    /// The property was deleted.
    Deleted,
}

impl PropertyChange {
    /// The byte that stands for the variant.
    pub open spec fn spec_code(&self) -> u8 {
        match self {
            PropertyChange::Modified => 0u8,
            PropertyChange::Deleted => 1u8,
        }
    }

    /// The variant that a byte stands for, if any.
    pub open spec fn spec_of_code(code: u8) -> Option<PropertyChange> {
        match code {
            0u8 => Some(PropertyChange::Modified),
            1u8 => Some(PropertyChange::Deleted),
            _ => None,
        }
    }

    pub fn code(&self) -> (r: u8)
        ensures
            r == self.spec_code(),
    {
        match self {
            PropertyChange::Modified => 0,
            PropertyChange::Deleted => 1,
        }
    }

    pub fn of_code(code: u8) -> (r: Option<PropertyChange>)
        ensures
            r == Self::spec_of_code(code),
    {
        match code {
            0 => Some(PropertyChange::Modified),
            1 => Some(PropertyChange::Deleted),
            _ => None,
        }
    }
}

impl Wire for PropertyChange {
    open spec fn wf(&self) -> bool {
        true
    }

    open spec fn canonical(&self) -> bool {
        true
    }

    open spec fn spec_encode(&self) -> Seq<u8> {
        seq![self.spec_code()]
    }

    open spec fn spec_size(&self) -> nat {
        1
    }

    open spec fn spec_decode(bytes: Seq<u8>) -> Result<(PropertyChange, nat), DecodeError> {
        if bytes.len() < 1 {
            Err(DecodeError::Truncated)
        } else {
            match Self::spec_of_code(bytes[0]) {
                Some(v) => Ok((v, 1)),
                None => Err(DecodeError::InvalidDiscriminant),
            }
        }
    }

    fn x11_size(&self) -> (r: usize) {
        1
    }

    fn write_to(&self, buf: &mut Vec<u8>) {
        buf.push(self.code());
    }

    fn read_from(bytes: &[u8], pos: usize) -> (r: Result<(PropertyChange, usize), DecodeError>) {
        if bytes.len() - pos < 1 {
            Err(DecodeError::Truncated)
        } else {
            match Self::of_code(bytes[pos]) {
                Some(v) => Ok((v, pos + 1)),
                None => Err(DecodeError::InvalidDiscriminant),
            }
        }
    }

    proof fn lemma_round_trip(&self, rest: Seq<u8>) {
    }

    proof fn lemma_truncated(&self, k: nat) {
    }

    proof fn lemma_size(&self) {
    }

    proof fn lemma_decode_len(bytes: Seq<u8>) {
    }
}

/// Which mapping was changed.
#[derive(Debug, Clone, Copy, PartialEq, Eq, Hash, Structural)]
pub enum MappingNotifyRequest {
    /// The modifier mapping changed.
    Modifier,
    /// The keyboard mapping changed.
    Keyboard,
    /// The pointer button mapping changed.
    Pointer,
}

impl MappingNotifyRequest {
    /// The byte that stands for the variant.
    pub open spec fn spec_code(&self) -> u8 {
        match self {
            MappingNotifyRequest::Modifier => 0u8,
            MappingNotifyRequest::Keyboard => 1u8,
            MappingNotifyRequest::Pointer => 2u8,
        }
    }

    /// The variant that a byte stands for, if any.
    pub open spec fn spec_of_code(code: u8) -> Option<MappingNotifyRequest> {
        match code {
            0u8 => Some(MappingNotifyRequest::Modifier),
            1u8 => Some(MappingNotifyRequest::Keyboard),
            2u8 => Some(MappingNotifyRequest::Pointer),
            _ => None,
        }
    }

    pub fn code(&self) -> (r: u8)
        ensures
            r == self.spec_code(),
    {
        match self {
            MappingNotifyRequest::Modifier => 0,
            MappingNotifyRequest::Keyboard => 1,
            MappingNotifyRequest::Pointer => 2,
        }
    }

    pub fn of_code(code: u8) -> (r: Option<MappingNotifyRequest>)
        ensures
            r == Self::spec_of_code(code),
    {
        match code {
            0 => Some(MappingNotifyRequest::Modifier),
            1 => Some(MappingNotifyRequest::Keyboard),
            2 => Some(MappingNotifyRequest::Pointer),
            _ => None,
        }
    }
}

impl Wire for MappingNotifyRequest {
    open spec fn wf(&self) -> bool {
        true
    }

    open spec fn canonical(&self) -> bool {
        true
    }

    open spec fn spec_encode(&self) -> Seq<u8> {
        seq![self.spec_code()]
    }

    open spec fn spec_size(&self) -> nat {
        1
    }

    open spec fn spec_decode(bytes: Seq<u8>) -> Result<(MappingNotifyRequest, nat), DecodeError> {
        if bytes.len() < 1 {
            Err(DecodeError::Truncated)
        } else {
            match Self::spec_of_code(bytes[0]) {
                Some(v) => Ok((v, 1)),
                None => Err(DecodeError::InvalidDiscriminant),
            }
        }
    }

    fn x11_size(&self) -> (r: usize) {
        1
    }

    fn write_to(&self, buf: &mut Vec<u8>) {
        buf.push(self.code());
    }

    fn read_from(bytes: &[u8], pos: usize) -> (r: Result<(MappingNotifyRequest, usize), DecodeError>) {
        if bytes.len() - pos < 1 {
            Err(DecodeError::Truncated)
        } else {
            match Self::of_code(bytes[pos]) {
                Some(v) => Ok((v, pos + 1)),
                None => Err(DecodeError::InvalidDiscriminant),
            }
        }
    }

    proof fn lemma_round_trip(&self, rest: Seq<u8>) {
    }

    proof fn lemma_truncated(&self, k: nat) {
    }

    proof fn lemma_size(&self) {
    }

    proof fn lemma_decode_len(bytes: Seq<u8>) {
    }
}

/// How a window is to be restacked relative to a sibling, or to all of its
/// siblings where none is given.
#[derive(Debug, Clone, Copy, PartialEq, Eq, Hash, Structural)]
pub enum StackMode {
    /// The window is placed just above the sibling, or at the top.
    Above,
    /// The window is placed just below the sibling, or at the bottom.
    Below,
    /// The window is raised to the top if the sibling, or any window, occludes it.
    TopIf,
    /// The window is lowered to the bottom if it occludes the sibling, or any window.
    BottomIf,
    /// The window is raised if occluded, or lowered if it occludes.
    Opposite,
}

impl StackMode {
    /// The byte that stands for the variant.
    pub open spec fn spec_code(&self) -> u8 {
        match self {
            StackMode::Above => 0u8,
            StackMode::Below => 1u8,
            StackMode::TopIf => 2u8,
            StackMode::BottomIf => 3u8,
            StackMode::Opposite => 4u8,
        }
    }

    /// The variant that a byte stands for, if any.
    pub open spec fn spec_of_code(code: u8) -> Option<StackMode> {
        match code {
            0u8 => Some(StackMode::Above),
            1u8 => Some(StackMode::Below),
            2u8 => Some(StackMode::TopIf),
            3u8 => Some(StackMode::BottomIf),
            4u8 => Some(StackMode::Opposite),
            _ => None,
        }
    }

    pub fn code(&self) -> (r: u8)
        ensures
            r == self.spec_code(),
    {
        match self {
            StackMode::Above => 0,
            StackMode::Below => 1,
            StackMode::TopIf => 2,
            StackMode::BottomIf => 3,
            StackMode::Opposite => 4,
        }
    }

    pub fn of_code(code: u8) -> (r: Option<StackMode>)
        ensures
            r == Self::spec_of_code(code),
    {
        match code {
            0 => Some(StackMode::Above),
            1 => Some(StackMode::Below),
            2 => Some(StackMode::TopIf),
            3 => Some(StackMode::BottomIf),
            4 => Some(StackMode::Opposite),
            _ => None,
        }
    }
}

impl Wire for StackMode {
    open spec fn wf(&self) -> bool {
        true
    }

    open spec fn canonical(&self) -> bool {
        true
    }

    open spec fn spec_encode(&self) -> Seq<u8> {
        seq![self.spec_code()]
    }

    open spec fn spec_size(&self) -> nat {
        1
    }

    open spec fn spec_decode(bytes: Seq<u8>) -> Result<(StackMode, nat), DecodeError> {
        if bytes.len() < 1 {
            Err(DecodeError::Truncated)
        } else {
            match Self::spec_of_code(bytes[0]) {
                Some(v) => Ok((v, 1)),
                None => Err(DecodeError::InvalidDiscriminant),
            }
        }
    }

    fn x11_size(&self) -> (r: usize) {
        1
    }

    fn write_to(&self, buf: &mut Vec<u8>) {
        buf.push(self.code());
    }

    fn read_from(bytes: &[u8], pos: usize) -> (r: Result<(StackMode, usize), DecodeError>) {
        if bytes.len() - pos < 1 {
            Err(DecodeError::Truncated)
        } else {
            match Self::of_code(bytes[pos]) {
                Some(v) => Ok((v, pos + 1)),
                None => Err(DecodeError::InvalidDiscriminant),
            }
        }
    }

    proof fn lemma_round_trip(&self, rest: Seq<u8>) {
    }

    proof fn lemma_truncated(&self, k: nat) {
    }

    proof fn lemma_size(&self) {
    }

    proof fn lemma_decode_len(bytes: Seq<u8>) {
    }
}

} // verus!
