//! Requests: messages that a client sends, each led by its major opcode and
//! carrying its own length in 4-byte words.
//!
//! The fixed-size requests below are written as the bytes that follow the
//! major opcode; [`Request`] adds the opcode, picks the decoder from it, and
//! holds the one request here whose size varies, [`QueryExtension`].

use crate::kinds::{AddOrRemove, ToggleOrDefault};
use crate::sentinel::Delay;
use crate::types::Window;
use crate::wire::{
    DecodeError, EncodeError, Reserved, Wire, from_le16, le16, pad, spec_pad, write_zeros, zeros,
};
use vstd::prelude::*;
use vstd::slice::{slice_subrange, slice_to_vec};

verus! {

/// Adds a window to, or removes it from, the set of windows that the client has chosen to save:
/// when the client's resources are destroyed, saved windows that descend from its own windows
/// are reparented to the nearest ancestor that it did not create.
#[derive(Debug, Clone, Copy, PartialEq, Eq, Hash, Structural)]
pub struct ChangeSavedWindows {
    /// Whether the window is added or removed.
    pub change_mode: AddOrRemove,
    /// The window that is added or removed; it must not be one that the client created.
    pub window: Window,
}

/// The fields of [`ChangeSavedWindows`] in wire order, after the major opcode.
pub type ChangeSavedWindowsLayout = (AddOrRemove, (u16, u32));

impl ChangeSavedWindows {
    /// The request's major opcode.
    pub const MAJOR_OPCODE: u8 = 6;

    /// The request's length in 4-byte words, the opcode's word included.
    pub const LENGTH: u16 = 2;

    /// The fields in wire order, as the values that are written.
    pub open spec fn spec_layout(self) -> ChangeSavedWindowsLayout {
        (self.change_mode, (ChangeSavedWindows::LENGTH, self.window.0))
    }

    /// The value that a layout stands for; the length field is not consulted.
    pub open spec fn spec_of_layout(t: ChangeSavedWindowsLayout) -> ChangeSavedWindows {
        ChangeSavedWindows { change_mode: t.0, window: Window(t.1.1) }
    }
}

impl Wire for ChangeSavedWindows {
    open spec fn wf(&self) -> bool {
        true
    }

    open spec fn canonical(&self) -> bool {
        true
    }

    open spec fn spec_encode(&self) -> Seq<u8> {
        self.spec_layout().spec_encode()
    }

    open spec fn spec_size(&self) -> nat {
        7
    }

    open spec fn spec_decode(bytes: Seq<u8>) -> Result<(ChangeSavedWindows, nat), DecodeError> {
        match <ChangeSavedWindowsLayout as Wire>::spec_decode(bytes) {
            Ok((t, n)) => Ok((ChangeSavedWindows::spec_of_layout(t), n)),
            Err(e) => Err(e),
        }
    }

    fn x11_size(&self) -> (r: usize) {
        proof {
            self.spec_layout().lemma_size();
        }
        7
    }

    fn write_to(&self, buf: &mut Vec<u8>) {
        let t: ChangeSavedWindowsLayout = (self.change_mode, (ChangeSavedWindows::LENGTH, self.window.0));
        t.write_to(buf);
    }

    fn read_from(bytes: &[u8], pos: usize) -> (r: Result<(ChangeSavedWindows, usize), DecodeError>) {
        match <ChangeSavedWindowsLayout as Wire>::read_from(bytes, pos) {
            Ok(((change_mode, (_, window)), p)) => Ok((
                ChangeSavedWindows { change_mode, window: Window(window) },
                p,
            )),
            Err(e) => Err(e),
        }
    }

    proof fn lemma_round_trip(&self, rest: Seq<u8>) {
        self.spec_layout().lemma_round_trip(rest);
    }

    proof fn lemma_truncated(&self, k: nat) {
        self.spec_layout().lemma_truncated(k);
    }

    proof fn lemma_size(&self) {
        self.spec_layout().lemma_size();
    }

    proof fn lemma_decode_len(bytes: Seq<u8>) {
        <ChangeSavedWindowsLayout as Wire>::lemma_decode_len(bytes);
    }
}

/// Asks for the names of all extensions that the server supports.
#[derive(Debug, Clone, Copy, PartialEq, Eq, Hash, Structural)]
pub struct ListExtensions;

/// The fields of [`ListExtensions`] in wire order, after the major opcode.
pub type ListExtensionsLayout = (Reserved<1>, u16);

impl ListExtensions {
    /// The request's major opcode.
    pub const MAJOR_OPCODE: u8 = 99;

    /// The request's length in 4-byte words, the opcode's word included.
    pub const LENGTH: u16 = 1;

    /// The fields in wire order, as the values that are written.
    pub open spec fn spec_layout(self) -> ListExtensionsLayout {
        (Reserved, ListExtensions::LENGTH)
    }

    /// The value that a layout stands for; the length field is not consulted.
    pub open spec fn spec_of_layout(t: ListExtensionsLayout) -> ListExtensions {
        ListExtensions
    }
}

impl Wire for ListExtensions {
    open spec fn wf(&self) -> bool {
        true
    }

    open spec fn canonical(&self) -> bool {
        true
    }

    open spec fn spec_encode(&self) -> Seq<u8> {
        self.spec_layout().spec_encode()
    }

    open spec fn spec_size(&self) -> nat {
        3
    }

    open spec fn spec_decode(bytes: Seq<u8>) -> Result<(ListExtensions, nat), DecodeError> {
        match <ListExtensionsLayout as Wire>::spec_decode(bytes) {
            Ok((t, n)) => Ok((ListExtensions::spec_of_layout(t), n)),
            Err(e) => Err(e),
        }
    }

    fn x11_size(&self) -> (r: usize) {
        proof {
            self.spec_layout().lemma_size();
        }
        3
    }

    fn write_to(&self, buf: &mut Vec<u8>) {
        let t: ListExtensionsLayout = (Reserved, ListExtensions::LENGTH);
        t.write_to(buf);
    }

    fn read_from(bytes: &[u8], pos: usize) -> (r: Result<(ListExtensions, usize), DecodeError>) {
        match <ListExtensionsLayout as Wire>::read_from(bytes, pos) {
            Ok((_, p)) => Ok((ListExtensions, p)),
            Err(e) => Err(e),
        }
    }

    proof fn lemma_round_trip(&self, rest: Seq<u8>) {
        self.spec_layout().lemma_round_trip(rest);
    }

    proof fn lemma_truncated(&self, k: nat) {
        self.spec_layout().lemma_truncated(k);
    }

    proof fn lemma_size(&self) {
        self.spec_layout().lemma_size();
    }

    proof fn lemma_decode_len(bytes: Seq<u8>) {
        <ListExtensionsLayout as Wire>::lemma_decode_len(bytes);
    }
}

/// Configures the screensaver.
#[derive(Debug, Clone, Copy, PartialEq, Eq, Hash, Structural)]
pub struct SetScreenSaver {
    /// How long without input before the screensaver starts, or whether it is disabled or left
    /// to the default.
    pub timeout: Delay,
    /// A hint for the period between the screensaver's changes.
    pub interval: Delay,
    /// Whether displays that can go blank should do so.
    pub prefer_blanking: ToggleOrDefault,
    /// Whether screensavers that cause exposures are allowed.
    pub allow_expose_events: ToggleOrDefault,
}

/// The fields of [`SetScreenSaver`] in wire order, after the major opcode.
pub type SetScreenSaverLayout = (
    Reserved<1>, (
    u16, (
    Delay, (
    Delay, (
    ToggleOrDefault, (
    ToggleOrDefault,
    Reserved<2>,
))))));

impl SetScreenSaver {
    /// The request's major opcode.
    pub const MAJOR_OPCODE: u8 = 107;

    /// The request's length in 4-byte words, the opcode's word included.
    pub const LENGTH: u16 = 3;

    /// The fields in wire order, as the values that are written.
    pub open spec fn spec_layout(self) -> SetScreenSaverLayout {
        (
            Reserved, (
            SetScreenSaver::LENGTH, (
            self.timeout, (
            self.interval, (
            self.prefer_blanking, (
            self.allow_expose_events,
            Reserved,
        ))))))
    }

    /// The value that a layout stands for; the length field is not consulted.
    pub open spec fn spec_of_layout(t: SetScreenSaverLayout) -> SetScreenSaver {
        SetScreenSaver {
            timeout: t.1.1.0,
            interval: t.1.1.1.0,
            prefer_blanking: t.1.1.1.1.0,
            allow_expose_events: t.1.1.1.1.1.0,
        }
    }
}

impl Wire for SetScreenSaver {
    open spec fn wf(&self) -> bool {
        true
    }

    open spec fn canonical(&self) -> bool {
        self.timeout.canonical() && self.interval.canonical()
    }

    open spec fn spec_encode(&self) -> Seq<u8> {
        self.spec_layout().spec_encode()
    }

    open spec fn spec_size(&self) -> nat {
        11
    }

    open spec fn spec_decode(bytes: Seq<u8>) -> Result<(SetScreenSaver, nat), DecodeError> {
        match <SetScreenSaverLayout as Wire>::spec_decode(bytes) {
            Ok((t, n)) => Ok((SetScreenSaver::spec_of_layout(t), n)),
            Err(e) => Err(e),
        }
    }

    fn x11_size(&self) -> (r: usize) {
        proof {
            self.spec_layout().lemma_size();
        }
        11
    }

    fn write_to(&self, buf: &mut Vec<u8>) {
        let t: SetScreenSaverLayout = (
            Reserved, (
            SetScreenSaver::LENGTH, (
            self.timeout, (
            self.interval, (
            self.prefer_blanking, (
            self.allow_expose_events,
            Reserved,
        ))))));
        t.write_to(buf);
    }

    fn read_from(bytes: &[u8], pos: usize) -> (r: Result<(SetScreenSaver, usize), DecodeError>) {
        match <SetScreenSaverLayout as Wire>::read_from(bytes, pos) {
            Ok(((_, (_, (timeout, (interval, (prefer_blanking, (allow_expose_events, _)))))), p)) => Ok((
                SetScreenSaver {
                    timeout,
                    interval,
                    prefer_blanking,
                    allow_expose_events,
                },
                p,
            )),
            Err(e) => Err(e),
        }
    }

    proof fn lemma_round_trip(&self, rest: Seq<u8>) {
        self.spec_layout().lemma_round_trip(rest);
    }

    proof fn lemma_truncated(&self, k: nat) {
        self.spec_layout().lemma_truncated(k);
    }

    proof fn lemma_size(&self) {
        self.spec_layout().lemma_size();
    }

    proof fn lemma_decode_len(bytes: Seq<u8>) {
        <SetScreenSaverLayout as Wire>::lemma_decode_len(bytes);
    }
}

/// Asks for the current screensaver settings.
#[derive(Debug, Clone, Copy, PartialEq, Eq, Hash, Structural)]
pub struct GetScreenSaver;

/// The fields of [`GetScreenSaver`] in wire order, after the major opcode.
pub type GetScreenSaverLayout = (Reserved<1>, u16);

impl GetScreenSaver {
    /// The request's major opcode.
    pub const MAJOR_OPCODE: u8 = 108;

    /// The request's length in 4-byte words, the opcode's word included.
    pub const LENGTH: u16 = 1;

    /// The fields in wire order, as the values that are written.
    pub open spec fn spec_layout(self) -> GetScreenSaverLayout {
        (Reserved, GetScreenSaver::LENGTH)
    }

    /// The value that a layout stands for; the length field is not consulted.
    pub open spec fn spec_of_layout(t: GetScreenSaverLayout) -> GetScreenSaver {
        GetScreenSaver
    }
}

impl Wire for GetScreenSaver {
    open spec fn wf(&self) -> bool {
        true
    }

    open spec fn canonical(&self) -> bool {
        true
    }

    open spec fn spec_encode(&self) -> Seq<u8> {
        self.spec_layout().spec_encode()
    }

    open spec fn spec_size(&self) -> nat {
        3
    }

    open spec fn spec_decode(bytes: Seq<u8>) -> Result<(GetScreenSaver, nat), DecodeError> {
        match <GetScreenSaverLayout as Wire>::spec_decode(bytes) {
            Ok((t, n)) => Ok((GetScreenSaver::spec_of_layout(t), n)),
            Err(e) => Err(e),
        }
    }

    fn x11_size(&self) -> (r: usize) {
        proof {
            self.spec_layout().lemma_size();
        }
        3
    }

    fn write_to(&self, buf: &mut Vec<u8>) {
        let t: GetScreenSaverLayout = (Reserved, GetScreenSaver::LENGTH);
        t.write_to(buf);
    }

    fn read_from(bytes: &[u8], pos: usize) -> (r: Result<(GetScreenSaver, usize), DecodeError>) {
        match <GetScreenSaverLayout as Wire>::read_from(bytes, pos) {
            Ok((_, p)) => Ok((GetScreenSaver, p)),
            Err(e) => Err(e),
        }
    }

    proof fn lemma_round_trip(&self, rest: Seq<u8>) {
        self.spec_layout().lemma_round_trip(rest);
    }

    proof fn lemma_truncated(&self, k: nat) {
        self.spec_layout().lemma_truncated(k);
    }

    proof fn lemma_size(&self) {
        self.spec_layout().lemma_size();
    }

    proof fn lemma_decode_len(bytes: Seq<u8>) {
        <GetScreenSaverLayout as Wire>::lemma_decode_len(bytes);
    }
}

/// Asks the big-requests extension to allow requests longer than a 16-bit length field can
/// state. The extension's major opcode is assigned by the server, so it is written by
/// [`encode_enable_big_requests`] rather than here.
#[derive(Debug, Clone, Copy, PartialEq, Eq, Hash, Structural)]
pub struct EnableBigRequests;

/// The fields of [`EnableBigRequests`] in wire order, after the major opcode.
pub type EnableBigRequestsLayout = (u8, u16);

impl EnableBigRequests {
    /// The request's minor opcode, in the byte after the major opcode.
    pub const MINOR_OPCODE: u8 = 0;

    /// The request's length in 4-byte words, the opcode's word included.
    pub const LENGTH: u16 = 1;

    /// The fields in wire order, as the values that are written.
    pub open spec fn spec_layout(self) -> EnableBigRequestsLayout {
        (EnableBigRequests::MINOR_OPCODE, EnableBigRequests::LENGTH)
    }

    /// The value that a layout stands for; the length field is not consulted.
    pub open spec fn spec_of_layout(t: EnableBigRequestsLayout) -> EnableBigRequests {
        EnableBigRequests
    }
}

impl Wire for EnableBigRequests {
    open spec fn wf(&self) -> bool {
        true
    }

    open spec fn canonical(&self) -> bool {
        true
    }

    open spec fn spec_encode(&self) -> Seq<u8> {
        self.spec_layout().spec_encode()
    }

    open spec fn spec_size(&self) -> nat {
        3
    }

    open spec fn spec_decode(bytes: Seq<u8>) -> Result<(EnableBigRequests, nat), DecodeError> {
        match <EnableBigRequestsLayout as Wire>::spec_decode(bytes) {
            Ok((t, n)) => Ok((EnableBigRequests::spec_of_layout(t), n)),
            Err(e) => Err(e),
        }
    }

    fn x11_size(&self) -> (r: usize) {
        proof {
            self.spec_layout().lemma_size();
        }
        3
    }

    fn write_to(&self, buf: &mut Vec<u8>) {
        let t: EnableBigRequestsLayout = (EnableBigRequests::MINOR_OPCODE, EnableBigRequests::LENGTH);
        t.write_to(buf);
    }

    fn read_from(bytes: &[u8], pos: usize) -> (r: Result<(EnableBigRequests, usize), DecodeError>) {
        match <EnableBigRequestsLayout as Wire>::read_from(bytes, pos) {
            Ok((_, p)) => Ok((EnableBigRequests, p)),
            Err(e) => Err(e),
        }
    }

    proof fn lemma_round_trip(&self, rest: Seq<u8>) {
        self.spec_layout().lemma_round_trip(rest);
    }

    proof fn lemma_truncated(&self, k: nat) {
        self.spec_layout().lemma_truncated(k);
    }

    proof fn lemma_size(&self) {
        self.spec_layout().lemma_size();
    }

    proof fn lemma_decode_len(bytes: Seq<u8>) {
        <EnableBigRequestsLayout as Wire>::lemma_decode_len(bytes);
    }
}


/// The whole frame of [`EnableBigRequests`], led by `major_opcode`: the
/// major opcode that the server assigned to the big-requests extension.
pub fn encode_enable_big_requests(major_opcode: u8) -> (r: Vec<u8>)
    ensures
        r@ == seq![major_opcode] + EnableBigRequests.spec_encode(),
{
    let mut buf: Vec<u8> = Vec::new();
    buf.push(major_opcode);
    EnableBigRequests.write_to(&mut buf);
    assert(buf@ =~= seq![major_opcode] + EnableBigRequests.spec_encode());
    buf
}

/// Asks whether an extension is present, and for its message codes if it is.
#[derive(Debug, Clone, PartialEq, Eq, Hash)]
pub struct QueryExtension {
    /// The extension's name, in ISO Latin-1; case matters.
    pub name: Vec<u8>,
}

/// The length in 4-byte words of a query for a name of `n` bytes: the
/// header word, the name's length and two unused bytes, then the name padded
/// to a whole word.
pub open spec fn query_extension_words(n: nat) -> nat {
    (8 + n + spec_pad(n)) / 4
}

/// The bytes of a query for `name` after the major opcode: an unused byte,
/// the length in words, the name's length (the field that later bytes are
/// read by), two unused bytes, the name, and padding to a whole word.
pub open spec fn query_extension_body(name: Seq<u8>) -> Seq<u8> {
    zeros(1) + le16(query_extension_words(name.len()) as u16) + le16(name.len() as u16) + zeros(2)
        + name + zeros(spec_pad(name.len()))
}

/// Reads a query after its major opcode: the name's length field says how
/// many bytes of name follow, and the padding after them is skipped unread.
/// On success gives the name and the number of bytes taken.
pub open spec fn decode_query_extension(bytes: Seq<u8>) -> Result<(Seq<u8>, nat), DecodeError> {
    if bytes.len() < 7 {
        Err(DecodeError::Truncated)
    } else {
        let n = from_le16(bytes.skip(3)) as nat;
        let end = 7 + n + spec_pad(n);
        if bytes.len() < end {
            Err(DecodeError::Truncated)
        } else {
            Ok((bytes.subrange(7, 7 + n as int), end))
        }
    }
}

impl QueryExtension {
    /// The request's major opcode.
    pub const MAJOR_OPCODE: u8 = 98;

    /// Whether the name's length fits its 16-bit length field.
    pub open spec fn wf(&self) -> bool {
        self.name@.len() <= u16::MAX
    }

    /// The number of bytes after the major opcode.
    pub fn x11_size(&self) -> (r: usize)
        requires
            self.wf(),
        ensures
            r == query_extension_body(self.name@).len(),
    {
        7 + self.name.len() + pad(self.name.len())
    }

    /// Appends the bytes after the major opcode; fails, leaving `buf` as it
    /// was, when the name is too long for its length field.
    pub fn write_to(&self, buf: &mut Vec<u8>) -> (r: Result<(), EncodeError>)
        ensures
            r is Ok <==> self.wf(),
            r is Ok ==> final(buf)@ == old(buf)@ + query_extension_body(self.name@),
            r matches Err(e) ==> e == EncodeError::CapacityExceeded && final(buf)@ == old(buf)@,
    {
        let n = self.name.len();
        if n > 65535 {
            return Err(EncodeError::CapacityExceeded);
        }
        let padding = pad(n);
        let words = ((8 + n + padding) / 4) as u16;
        write_zeros(buf, 1);
        words.write_to(buf);
        (n as u16).write_to(buf);
        write_zeros(buf, 2);
        let mut i: usize = 0;
        while i < n
            invariant
                n == self.name@.len(),
                i <= n,
                buf@ == old(buf)@ + zeros(1) + le16(words) + le16(n as u16) + zeros(2) + self.name@.take(i as int),
            decreases n - i,
        {
            buf.push(self.name[i]);
            i = i + 1;
            assert(self.name@.take(i as int) =~= self.name@.take(i - 1) + seq![self.name@[i - 1]]);
        }
        write_zeros(buf, padding);
        assert(self.name@.take(n as int) =~= self.name@);
        assert(buf@ =~= old(buf)@ + query_extension_body(self.name@));
        Ok(())
    }

    /// Reads the bytes after the major opcode, starting at `pos`; on success
    /// returns the query and the position just after its padding.
    pub fn read_from(bytes: &[u8], pos: usize) -> (r: Result<(QueryExtension, usize), DecodeError>)
        requires
            pos <= bytes@.len(),
        ensures
            match r {
                Ok((q, p)) => pos <= p <= bytes@.len() && decode_query_extension(bytes@.skip(pos as int))
                    == Ok::<(Seq<u8>, nat), DecodeError>((q.name@, (p - pos) as nat)),
                Err(e) => decode_query_extension(bytes@.skip(pos as int)) == Err::<(Seq<u8>, nat), DecodeError>(e),
            },
    {
        if bytes.len() - pos < 7 {
            return Err(DecodeError::Truncated);
        }
        let ghost b = bytes@.skip(pos as int);
        let n = match u16::read_from(bytes, pos + 3) {
            Ok((n, _)) => n as usize,
            Err(e) => return Err(e),
        };
        assert(bytes@.skip(pos + 3) =~= b.skip(3));
        let start = pos + 7;
        if bytes.len() - start < n {
            return Err(DecodeError::Truncated);
        }
        let padding = pad(n);
        if bytes.len() - start - n < padding {
            return Err(DecodeError::Truncated);
        }
        let name = slice_to_vec(slice_subrange(bytes, start, start + n));
        assert(name@ =~= b.subrange(7, 7 + n as int));
        Ok((QueryExtension { name }, start + n + padding))
    }
}

/// Decoding a query's bytes gives its name back and takes exactly those
/// bytes, whatever follows them.
pub proof fn lemma_query_extension_round_trip(name: Seq<u8>, rest: Seq<u8>)
    requires
        name.len() <= u16::MAX,
    ensures
        decode_query_extension(query_extension_body(name) + rest) == Ok::<(Seq<u8>, nat), DecodeError>(
            (name, query_extension_body(name).len()),
        ),
{
    let n = name.len();
    let b = query_extension_body(name) + rest;
    assert(b[3] == le16(n as u16)[0] && b[4] == le16(n as u16)[1]);
    assert(from_le16(b.skip(3)) == n);
    assert(b.subrange(7, 7 + n as int) =~= name);
}

/// Every strict prefix of a query's bytes reads as truncated.
pub proof fn lemma_query_extension_truncated(name: Seq<u8>, k: nat)
    requires
        name.len() <= u16::MAX,
        k < query_extension_body(name).len(),
    ensures
        decode_query_extension(query_extension_body(name).take(k as int)) == Err::<(Seq<u8>, nat), DecodeError>(
            DecodeError::Truncated,
        ),
{
    let n = name.len();
    let b = query_extension_body(name).take(k as int);
    if k >= 7 {
        assert(b[3] == le16(n as u16)[0] && b[4] == le16(n as u16)[1]);
        assert(from_le16(b.skip(3)) == n);
    }
}

/// The name's length field decides how much is read: a query whose length
/// field holds `n` takes exactly `n` bytes of name and `pad(n)` bytes of
/// padding, and bytes after those change nothing.
pub proof fn lemma_query_extension_context(bytes: Seq<u8>, rest: Seq<u8>)
    requires
        decode_query_extension(bytes) is Ok,
    ensures
        ({
            let n = from_le16(bytes.skip(3)) as nat;
            &&& decode_query_extension(bytes) matches Ok((name, used)) && name.len() == n && used == 7 + n
                + spec_pad(n)
            &&& decode_query_extension(bytes + rest) == decode_query_extension(bytes)
        }),
{
    let c = bytes + rest;
    assert(c.skip(3)[0] == bytes.skip(3)[0] && c.skip(3)[1] == bytes.skip(3)[1]);
    let n = from_le16(bytes.skip(3)) as nat;
    assert(c.subrange(7, 7 + n as int) =~= bytes.subrange(7, 7 + n as int));
}

/// Whether a value's decoding failed, and how.
pub open spec fn error_of<T>(r: Result<T, DecodeError>) -> Option<DecodeError> {
    match r {
        Ok(_) => None,
        Err(e) => Some(e),
    }
}

/// Whether `code` is the major opcode of a known request.
pub open spec fn is_request_opcode(code: u8) -> bool {
    code == 6
    || code == 98
    || code == 99
    || code == 107
    || code == 108
}

/// Any request that this library knows how to encode and decode.
#[derive(Debug, Clone, PartialEq, Eq, Hash)]
pub enum Request {
    ChangeSavedWindows(ChangeSavedWindows),
    QueryExtension(QueryExtension),
    ListExtensions(ListExtensions),
    SetScreenSaver(SetScreenSaver),
    GetScreenSaver(GetScreenSaver),
}

impl Request {
    /// The request's major opcode.
    pub open spec fn spec_opcode(&self) -> u8 {
        match self {
            Request::ChangeSavedWindows(_) => ChangeSavedWindows::MAJOR_OPCODE,
            Request::QueryExtension(_) => QueryExtension::MAJOR_OPCODE,
            Request::ListExtensions(_) => ListExtensions::MAJOR_OPCODE,
            Request::SetScreenSaver(_) => SetScreenSaver::MAJOR_OPCODE,
            Request::GetScreenSaver(_) => GetScreenSaver::MAJOR_OPCODE,
        }
    }

    /// Whether the request can be encoded.
    pub open spec fn wf(&self) -> bool {
        match self {
            Request::ChangeSavedWindows(r) => r.wf(),
            Request::QueryExtension(r) => r.wf(),
            Request::ListExtensions(r) => r.wf(),
            Request::SetScreenSaver(r) => r.wf(),
            Request::GetScreenSaver(r) => r.wf(),
        }
    }

    /// Whether decoding the request's frame gives this very request back.
    pub open spec fn canonical(&self) -> bool {
        match self {
            Request::QueryExtension(_) => true,
            Request::ChangeSavedWindows(r) => r.canonical(),
            Request::ListExtensions(r) => r.canonical(),
            Request::SetScreenSaver(r) => r.canonical(),
            Request::GetScreenSaver(r) => r.canonical(),
        }
    }

    /// The bytes after the major opcode.
    pub open spec fn spec_body(&self) -> Seq<u8> {
        match self {
            Request::ChangeSavedWindows(r) => r.spec_encode(),
            Request::QueryExtension(r) => query_extension_body(r.name@),
            Request::ListExtensions(r) => r.spec_encode(),
            Request::SetScreenSaver(r) => r.spec_encode(),
            Request::GetScreenSaver(r) => r.spec_encode(),
        }
    }

    /// The whole frame: the major opcode, then the rest.
    pub open spec fn spec_encode(&self) -> Seq<u8> {
        seq![self.spec_opcode()] + self.spec_body()
    }

    /// The major opcode that selects this request's decoder.
    pub fn opcode(&self) -> (r: u8)
        ensures
            r == self.spec_opcode(),
    {
        match self {
            Request::ChangeSavedWindows(_) => ChangeSavedWindows::MAJOR_OPCODE,
            Request::QueryExtension(_) => QueryExtension::MAJOR_OPCODE,
            Request::ListExtensions(_) => ListExtensions::MAJOR_OPCODE,
            Request::SetScreenSaver(_) => SetScreenSaver::MAJOR_OPCODE,
            Request::GetScreenSaver(_) => GetScreenSaver::MAJOR_OPCODE,
        }
    }

    /// The length of the whole frame.
    pub fn x11_size(&self) -> (r: usize)
        requires
            self.wf(),
        ensures
            r == self.spec_encode().len(),
    {
        proof {
            match self {
                Request::QueryExtension(_) => {},
                Request::ChangeSavedWindows(r) => r.lemma_size(),
                Request::ListExtensions(r) => r.lemma_size(),
                Request::SetScreenSaver(r) => r.lemma_size(),
                Request::GetScreenSaver(r) => r.lemma_size(),
            }
        }
        match self {
            Request::ChangeSavedWindows(r) => 1 + r.x11_size(),
            Request::QueryExtension(q) => 1 + q.x11_size(),
            Request::ListExtensions(r) => 1 + r.x11_size(),
            Request::SetScreenSaver(r) => 1 + r.x11_size(),
            Request::GetScreenSaver(r) => 1 + r.x11_size(),
        }
    }

    /// Appends the whole frame; fails, leaving `buf` as it was, only when a
    /// length does not fit its field.
    pub fn write_to(&self, buf: &mut Vec<u8>) -> (r: Result<(), EncodeError>)
        ensures
            r is Ok <==> self.wf(),
            r is Ok ==> final(buf)@ == old(buf)@ + self.spec_encode(),
            r matches Err(e) ==> e == EncodeError::CapacityExceeded && final(buf)@ == old(buf)@,
    {
        if let Request::QueryExtension(q) = self {
            if q.name.len() > 65535 {
                return Err(EncodeError::CapacityExceeded);
            }
        }
        buf.push(self.opcode());
        match self {
            Request::ChangeSavedWindows(r) => r.write_to(buf),
            // the name's length was checked above, so this cannot fail
            Request::QueryExtension(q) => {
                let _ = q.write_to(buf);
            },
            Request::ListExtensions(r) => r.write_to(buf),
            Request::SetScreenSaver(r) => r.write_to(buf),
            Request::GetScreenSaver(r) => r.write_to(buf),
        }
        assert(buf@ =~= old(buf)@ + self.spec_encode());
        Ok(())
    }

    /// The whole frame as a new byte vector.
    pub fn encode(&self) -> (r: Result<Vec<u8>, EncodeError>)
        ensures
            r is Ok <==> self.wf(),
            r matches Ok(bytes) ==> bytes@ == self.spec_encode(),
            r matches Err(e) ==> e == EncodeError::CapacityExceeded,
    {
        let mut buf: Vec<u8> = Vec::new();
        match self.write_to(&mut buf) {
            Ok(()) => {
                assert(buf@ =~= self.spec_encode());
                Ok(buf)
            },
            Err(e) => Err(e),
        }
    }
}

/// Why the bytes of a frame do not decode as a request, if they do not:
/// nothing at all, an opcode that no request has, or a failure of the
/// decoder that the opcode selects.
pub open spec fn request_error(bytes: Seq<u8>) -> Option<DecodeError> {
    if bytes.len() < 1 {
        Some(DecodeError::Truncated)
    } else {
        let body = bytes.skip(1);
        match bytes[0] {
            6 => error_of(ChangeSavedWindows::spec_decode(body)),
            98 => error_of(decode_query_extension(body)),
            99 => error_of(ListExtensions::spec_decode(body)),
            107 => error_of(SetScreenSaver::spec_decode(body)),
            108 => error_of(GetScreenSaver::spec_decode(body)),
            _ => Some(DecodeError::UnknownOpcode),
        }
    }
}

/// Whether the bytes of a frame decode as the request `r`, taking `n` bytes.
pub open spec fn request_decodes(bytes: Seq<u8>, r: Request, n: nat) -> bool {
    &&& bytes.len() >= 1
    &&& n >= 1
    &&& bytes[0] == r.spec_opcode()
    &&& match r {
        Request::ChangeSavedWindows(v) => ChangeSavedWindows::spec_decode(bytes.skip(1))
            == Ok::<(ChangeSavedWindows, nat), DecodeError>((v, (n - 1) as nat)),
        Request::QueryExtension(q) => decode_query_extension(bytes.skip(1)) == Ok::<(Seq<u8>, nat), DecodeError>(
            (q.name@, (n - 1) as nat),
        ),
        Request::ListExtensions(v) => ListExtensions::spec_decode(bytes.skip(1))
            == Ok::<(ListExtensions, nat), DecodeError>((v, (n - 1) as nat)),
        Request::SetScreenSaver(v) => SetScreenSaver::spec_decode(bytes.skip(1))
            == Ok::<(SetScreenSaver, nat), DecodeError>((v, (n - 1) as nat)),
        Request::GetScreenSaver(v) => GetScreenSaver::spec_decode(bytes.skip(1))
            == Ok::<(GetScreenSaver, nat), DecodeError>((v, (n - 1) as nat)),
    }
}

/// Decodes the request at the front of `bytes`, selecting the decoder by the
/// major opcode; returns the request and the number of bytes it took.
pub fn decode_request(bytes: &[u8]) -> (r: Result<(Request, usize), DecodeError>)
    ensures
        r is Ok <==> request_error(bytes@) is None,
        r matches Ok((req, n)) ==> n <= bytes@.len() && request_decodes(bytes@, req, n as nat),
        r matches Err(e) ==> request_error(bytes@) == Some(e),
{
    if bytes.len() < 1 {
        return Err(DecodeError::Truncated);
    }
    match bytes[0] {
        6 => match ChangeSavedWindows::read_from(bytes, 1) {
            Ok((v, p)) => Ok((Request::ChangeSavedWindows(v), p)),
            Err(e) => Err(e),
        },
        98 => match QueryExtension::read_from(bytes, 1) {
            Ok((v, p)) => Ok((Request::QueryExtension(v), p)),
            Err(e) => Err(e),
        },
        99 => match ListExtensions::read_from(bytes, 1) {
            Ok((v, p)) => Ok((Request::ListExtensions(v), p)),
            Err(e) => Err(e),
        },
        107 => match SetScreenSaver::read_from(bytes, 1) {
            Ok((v, p)) => Ok((Request::SetScreenSaver(v), p)),
            Err(e) => Err(e),
        },
        108 => match GetScreenSaver::read_from(bytes, 1) {
            Ok((v, p)) => Ok((Request::GetScreenSaver(v), p)),
            Err(e) => Err(e),
        },
        _ => Err(DecodeError::UnknownOpcode),
    }
}

/// Decoding a request's frame gives that request back and takes exactly the
/// frame, whatever follows it.
pub proof fn lemma_request_round_trip(r: Request, rest: Seq<u8>)
    requires
        r.wf(),
        r.canonical(),
    ensures
        request_error(r.spec_encode() + rest) is None,
        request_decodes(r.spec_encode() + rest, r, r.spec_encode().len()),
{
    let b = r.spec_encode() + rest;
    assert(b.skip(1) =~= r.spec_body() + rest);
    match r {
            Request::ChangeSavedWindows(v) => v.lemma_round_trip(rest),
            Request::QueryExtension(q) => lemma_query_extension_round_trip(q.name@, rest),
            Request::ListExtensions(v) => v.lemma_round_trip(rest),
            Request::SetScreenSaver(v) => v.lemma_round_trip(rest),
            Request::GetScreenSaver(v) => v.lemma_round_trip(rest),
    }
}

/// Every strict prefix of a request's frame reads as truncated.
pub proof fn lemma_request_truncated(r: Request, k: nat)
    requires
        r.wf(),
        r.canonical(),
        k < r.spec_encode().len(),
    ensures
        request_error(r.spec_encode().take(k as int)) == Some(DecodeError::Truncated),
{
    if k > 0 {
        let b = r.spec_encode().take(k as int);
        assert(b.skip(1) =~= r.spec_body().take(k - 1));
        match r {
                Request::ChangeSavedWindows(v) => v.lemma_truncated((k - 1) as nat),
                Request::QueryExtension(q) => lemma_query_extension_truncated(q.name@, (k - 1) as nat),
                Request::ListExtensions(v) => v.lemma_truncated((k - 1) as nat),
                Request::SetScreenSaver(v) => v.lemma_truncated((k - 1) as nat),
                Request::GetScreenSaver(v) => v.lemma_truncated((k - 1) as nat),
        }
    }
}

/// A frame whose first byte is no known major opcode is reported as such,
/// and nothing of it is taken.
pub proof fn lemma_unknown_request(bytes: Seq<u8>)
    requires
        bytes.len() >= 1,
        !is_request_opcode(bytes[0]),
    ensures
        request_error(bytes) == Some(DecodeError::UnknownOpcode),
{
}

/// Every request's frame fills a whole number of 4-byte words.
pub proof fn lemma_request_aligned(r: Request)
    requires
        r.wf(),
    ensures
        r.spec_encode().len() % 4 == 0,
{
    match r {
        Request::ChangeSavedWindows(v) => v.lemma_size(),
        Request::QueryExtension(q) => {},
        Request::ListExtensions(v) => v.lemma_size(),
        Request::SetScreenSaver(v) => v.lemma_size(),
        Request::GetScreenSaver(v) => v.lemma_size(),
    }
}

} // verus!
