//! Replies: 32-byte frames (longer where a length says so) that answer a
//! request, led by the reply marker. Which decoder reads a reply is decided
//! by the request that it answers, which the caller supplies. The reply that
//! lists extensions, whose size varies, is in [`crate::names`].

use crate::wire::{DecodeError, Reserved, Wire};
use vstd::prelude::*;

verus! {

/// The first byte of every reply.
pub const REPLY_MARKER: u8 = 1;

/// Whether an extension is present, and its message codes if it is.
#[derive(Debug, Clone, Copy, PartialEq, Eq, Hash, Structural)]
pub struct QueryExtensionReply {
    /// The sequence number of the request that this replies to.
    pub sequence: u16,
    /// Whether the extension is present.
    pub present: bool,
    /// The major opcode of the extension's requests.
    pub major_opcode: u8,
    /// The first event code of the extension, if it has events.
    pub first_event: u8,
    /// The first error code of the extension, if it has errors.
    pub first_error: u8,
}

/// The fields of [`QueryExtensionReply`] in wire order, after the reply marker.
pub type QueryExtensionReplyLayout = (Reserved<1>, (u16, (u32, (bool, (u8, (u8, (u8, Reserved<20>)))))));

impl QueryExtensionReply {
    /// The major opcode of the request that this replies to.
    pub const REQUEST_OPCODE: u8 = 98;

    /// The reply's length in 4-byte words beyond its first 32 bytes.
    pub const EXTRA_LENGTH: u32 = 0;

    /// The fields in wire order, as the values that are written.
    pub open spec fn spec_layout(self) -> QueryExtensionReplyLayout {
        (
            Reserved, (
            self.sequence, (
            QueryExtensionReply::EXTRA_LENGTH, (
            self.present, (
            self.major_opcode, (
            self.first_event, (
            self.first_error,
            Reserved,
        )))))))
    }

    /// The value that a layout stands for; the length field is not consulted.
    pub open spec fn spec_of_layout(t: QueryExtensionReplyLayout) -> QueryExtensionReply {
        QueryExtensionReply {
            sequence: t.1.0,
            present: t.1.1.1.0,
            major_opcode: t.1.1.1.1.0,
            first_event: t.1.1.1.1.1.0,
            first_error: t.1.1.1.1.1.1.0,
        }
    }
}

impl Wire for QueryExtensionReply {
    open spec fn wf(&self) -> bool {
        true
    }

    open spec fn canonical(&self) -> bool {
        true
    }

    open spec fn spec_encode(&self) -> Seq<u8> {
        self.spec_layout().spec_encode()
    }

    open spec fn spec_size(&self) -> nat {
        31
    }

    open spec fn spec_decode(bytes: Seq<u8>) -> Result<(QueryExtensionReply, nat), DecodeError> {
        match <QueryExtensionReplyLayout as Wire>::spec_decode(bytes) {
            Ok((t, n)) => Ok((QueryExtensionReply::spec_of_layout(t), n)),
            Err(e) => Err(e),
        }
    }

    fn x11_size(&self) -> (r: usize) {
        proof {
            self.spec_layout().lemma_size();
        }
        31
    }

    fn write_to(&self, buf: &mut Vec<u8>) {
        let t: QueryExtensionReplyLayout = (
            Reserved, (
            self.sequence, (
            QueryExtensionReply::EXTRA_LENGTH, (
            self.present, (
            self.major_opcode, (
            self.first_event, (
            self.first_error,
            Reserved,
        )))))));
        t.write_to(buf);
    }

    fn read_from(bytes: &[u8], pos: usize) -> (r: Result<(QueryExtensionReply, usize), DecodeError>) {
        match <QueryExtensionReplyLayout as Wire>::read_from(bytes, pos) {
            Ok(((
                _, (
                sequence, (
                _, (
                present, (
                major_opcode, (
                first_event, (
                first_error,
                _,
            ))))))), p)) => Ok((
                QueryExtensionReply {
                    sequence,
                    present,
                    major_opcode,
                    first_event,
                    first_error,
                },
                p,
            )),
            Err(e) => Err(e),
        }
    }

    proof fn lemma_round_trip(&self, rest: Seq<u8>) {
        self.spec_layout().lemma_round_trip(rest);
    }

    proof fn lemma_truncated(&self, k: nat) {
        self.spec_layout().lemma_truncated(k);
    }

    proof fn lemma_size(&self) {
        self.spec_layout().lemma_size();
    }

    proof fn lemma_decode_len(bytes: Seq<u8>) {
        <QueryExtensionReplyLayout as Wire>::lemma_decode_len(bytes);
    }
}

/// The current screensaver settings.
#[derive(Debug, Clone, Copy, PartialEq, Eq, Hash, Structural)]
pub struct GetScreenSaverReply {
    /// The sequence number of the request that this replies to.
    pub sequence: u16,
    /// Seconds without input before the screensaver starts; zero when it is disabled.
    pub timeout: u16,
    /// Seconds between the screensaver's changes; zero when there are none.
    pub interval: u16,
    /// Whether displays that can go blank do so.
    pub prefer_blanking: bool,
    /// Whether screensavers that cause exposures are allowed.
    pub allow_expose_events: bool,
}

/// The fields of [`GetScreenSaverReply`] in wire order, after the reply marker.
pub type GetScreenSaverReplyLayout = (Reserved<1>, (u16, (u32, (u16, (u16, (bool, (bool, Reserved<18>)))))));

impl GetScreenSaverReply {
    /// The major opcode of the request that this replies to.
    pub const REQUEST_OPCODE: u8 = 108;

    /// The reply's length in 4-byte words beyond its first 32 bytes.
    pub const EXTRA_LENGTH: u32 = 0;

    /// The fields in wire order, as the values that are written.
    pub open spec fn spec_layout(self) -> GetScreenSaverReplyLayout {
        (
            Reserved, (
            self.sequence, (
            GetScreenSaverReply::EXTRA_LENGTH, (
            self.timeout, (
            self.interval, (
            self.prefer_blanking, (
            self.allow_expose_events,
            Reserved,
        )))))))
    }

    /// The value that a layout stands for; the length field is not consulted.
    pub open spec fn spec_of_layout(t: GetScreenSaverReplyLayout) -> GetScreenSaverReply {
        GetScreenSaverReply {
            sequence: t.1.0,
            timeout: t.1.1.1.0,
            interval: t.1.1.1.1.0,
            prefer_blanking: t.1.1.1.1.1.0,
            allow_expose_events: t.1.1.1.1.1.1.0,
        }
    }
}

impl Wire for GetScreenSaverReply {
    open spec fn wf(&self) -> bool {
        true
    }

    open spec fn canonical(&self) -> bool {
        true
    }

    open spec fn spec_encode(&self) -> Seq<u8> {
        self.spec_layout().spec_encode()
    }

    open spec fn spec_size(&self) -> nat {
        31
    }

    open spec fn spec_decode(bytes: Seq<u8>) -> Result<(GetScreenSaverReply, nat), DecodeError> {
        match <GetScreenSaverReplyLayout as Wire>::spec_decode(bytes) {
            Ok((t, n)) => Ok((GetScreenSaverReply::spec_of_layout(t), n)),
            Err(e) => Err(e),
        }
    }

    fn x11_size(&self) -> (r: usize) {
        proof {
            self.spec_layout().lemma_size();
        }
        31
    }

    fn write_to(&self, buf: &mut Vec<u8>) {
        let t: GetScreenSaverReplyLayout = (
            Reserved, (
            self.sequence, (
            GetScreenSaverReply::EXTRA_LENGTH, (
            self.timeout, (
            self.interval, (
            self.prefer_blanking, (
            self.allow_expose_events,
            Reserved,
        )))))));
        t.write_to(buf);
    }

    fn read_from(bytes: &[u8], pos: usize) -> (r: Result<(GetScreenSaverReply, usize), DecodeError>) {
        match <GetScreenSaverReplyLayout as Wire>::read_from(bytes, pos) {
            Ok(((
                _, (
                sequence, (
                _, (
                timeout, (
                interval, (
                prefer_blanking, (
                allow_expose_events,
                _,
            ))))))), p)) => Ok((
                GetScreenSaverReply {
                    sequence,
                    timeout,
                    interval,
                    prefer_blanking,
                    allow_expose_events,
                },
                p,
            )),
            Err(e) => Err(e),
        }
    }

    proof fn lemma_round_trip(&self, rest: Seq<u8>) {
        self.spec_layout().lemma_round_trip(rest);
    }

    proof fn lemma_truncated(&self, k: nat) {
        self.spec_layout().lemma_truncated(k);
    }

    proof fn lemma_size(&self) {
        self.spec_layout().lemma_size();
    }

    proof fn lemma_decode_len(bytes: Seq<u8>) {
        <GetScreenSaverReplyLayout as Wire>::lemma_decode_len(bytes);
    }
}

/// The longest request that the server accepts once big requests are enabled. It answers an
/// extension request, whose major opcode the server assigned.
#[derive(Debug, Clone, Copy, PartialEq, Eq, Hash, Structural)]
pub struct EnableBigRequestsReply {
    /// The sequence number of the request that this replies to.
    pub sequence: u16,
    /// The longest request length, in 4-byte words, that the server now accepts.
    pub maximum_request_length: u32,
}

/// The fields of [`EnableBigRequestsReply`] in wire order, after the reply marker.
pub type EnableBigRequestsReplyLayout = (Reserved<1>, (u16, (u32, (u32, Reserved<20>))));

impl EnableBigRequestsReply {
    /// The reply's length in 4-byte words beyond its first 32 bytes.
    pub const EXTRA_LENGTH: u32 = 0;

    /// The fields in wire order, as the values that are written.
    pub open spec fn spec_layout(self) -> EnableBigRequestsReplyLayout {
        (
            Reserved, (
            self.sequence, (
            EnableBigRequestsReply::EXTRA_LENGTH, (
            self.maximum_request_length,
            Reserved,
        ))))
    }

    /// The value that a layout stands for; the length field is not consulted.
    pub open spec fn spec_of_layout(t: EnableBigRequestsReplyLayout) -> EnableBigRequestsReply {
        EnableBigRequestsReply { sequence: t.1.0, maximum_request_length: t.1.1.1.0 }
    }
}

impl Wire for EnableBigRequestsReply {
    open spec fn wf(&self) -> bool {
        true
    }

    open spec fn canonical(&self) -> bool {
        true
    }

    open spec fn spec_encode(&self) -> Seq<u8> {
        self.spec_layout().spec_encode()
    }

    open spec fn spec_size(&self) -> nat {
        31
    }

    open spec fn spec_decode(bytes: Seq<u8>) -> Result<(EnableBigRequestsReply, nat), DecodeError> {
        match <EnableBigRequestsReplyLayout as Wire>::spec_decode(bytes) {
            Ok((t, n)) => Ok((EnableBigRequestsReply::spec_of_layout(t), n)),
            Err(e) => Err(e),
        }
    }

    fn x11_size(&self) -> (r: usize) {
        proof {
            self.spec_layout().lemma_size();
        }
        31
    }

    fn write_to(&self, buf: &mut Vec<u8>) {
        let t: EnableBigRequestsReplyLayout = (
            Reserved, (
            self.sequence, (
            EnableBigRequestsReply::EXTRA_LENGTH, (
            self.maximum_request_length,
            Reserved,
        ))));
        t.write_to(buf);
    }

    fn read_from(bytes: &[u8], pos: usize) -> (r: Result<(EnableBigRequestsReply, usize), DecodeError>) {
        match <EnableBigRequestsReplyLayout as Wire>::read_from(bytes, pos) {
            Ok(((_, (sequence, (_, (maximum_request_length, _)))), p)) => Ok((
                EnableBigRequestsReply { sequence, maximum_request_length },
                p,
            )),
            Err(e) => Err(e),
        }
    }

    proof fn lemma_round_trip(&self, rest: Seq<u8>) {
        self.spec_layout().lemma_round_trip(rest);
    }

    proof fn lemma_truncated(&self, k: nat) {
        self.spec_layout().lemma_truncated(k);
    }

    proof fn lemma_size(&self) {
        self.spec_layout().lemma_size();
    }

    proof fn lemma_decode_len(bytes: Seq<u8>) {
        <EnableBigRequestsReplyLayout as Wire>::lemma_decode_len(bytes);
    }
}


/// Any reply that this library knows how to encode and decode.
#[derive(Debug, Clone, Copy, PartialEq, Eq, Hash, Structural)]
pub enum Reply {
    QueryExtension(QueryExtensionReply),
    GetScreenSaver(GetScreenSaverReply),
}

impl Reply {
    /// The major opcode of the request that the reply answers.
    pub open spec fn spec_request_opcode(&self) -> u8 {
        match self {
            Reply::QueryExtension(_) => QueryExtensionReply::REQUEST_OPCODE,
            Reply::GetScreenSaver(_) => GetScreenSaverReply::REQUEST_OPCODE,
        }
    }

    /// The bytes after the marker.
    pub open spec fn spec_body(&self) -> Seq<u8> {
        match self {
            Reply::QueryExtension(r) => r.spec_encode(),
            Reply::GetScreenSaver(r) => r.spec_encode(),
        }
    }

    /// The whole frame: the marker, then the rest.
    pub open spec fn spec_encode(&self) -> Seq<u8> {
        seq![REPLY_MARKER] + self.spec_body()
    }

    pub fn request_opcode(&self) -> (r: u8)
        ensures
            r == self.spec_request_opcode(),
    {
        match self {
            Reply::QueryExtension(_) => QueryExtensionReply::REQUEST_OPCODE,
            Reply::GetScreenSaver(_) => GetScreenSaverReply::REQUEST_OPCODE,
        }
    }

    /// Appends the whole frame.
    pub fn write_to(&self, buf: &mut Vec<u8>)
        ensures
            final(buf)@ == old(buf)@ + self.spec_encode(),
    {
        buf.push(REPLY_MARKER);
        match self {
            Reply::QueryExtension(r) => r.write_to(buf),
            Reply::GetScreenSaver(r) => r.write_to(buf),
        }
        assert(buf@ =~= old(buf)@ + self.spec_encode());
    }
}

/// Reads a reply to the request with major opcode `request_opcode`: the
/// first byte must be the reply marker, and the opcode picks the decoder of
/// the rest.
pub open spec fn decode_reply_spec(request_opcode: u8, bytes: Seq<u8>) -> Result<(Reply, nat), DecodeError> {
    if bytes.len() < 1 {
        Err(DecodeError::Truncated)
    } else if bytes[0] != REPLY_MARKER {
        Err(DecodeError::InvalidDiscriminant)
    } else {
        let body = bytes.skip(1);
        match request_opcode {
            98 => match QueryExtensionReply::spec_decode(body) {
                Ok((r, n)) => Ok((Reply::QueryExtension(r), n + 1)),
                Err(e) => Err(e),
            },
            108 => match GetScreenSaverReply::spec_decode(body) {
                Ok((r, n)) => Ok((Reply::GetScreenSaver(r), n + 1)),
                Err(e) => Err(e),
            },
            _ => Err(DecodeError::UnknownOpcode),
        }
    }
}

/// Decodes the reply at the front of `bytes` to the request with major
/// opcode `request_opcode`; returns it with the number of bytes it took.
pub fn decode_reply(request_opcode: u8, bytes: &[u8]) -> (r: Result<(Reply, usize), DecodeError>)
    ensures
        match r {
            Ok((v, n)) => n <= bytes@.len() && decode_reply_spec(request_opcode, bytes@) == Ok::<
                (Reply, nat),
                DecodeError,
            >((v, n as nat)),
            Err(e) => decode_reply_spec(request_opcode, bytes@) == Err::<(Reply, nat), DecodeError>(e),
        },
{
    if bytes.len() < 1 {
        return Err(DecodeError::Truncated);
    }
    if bytes[0] != REPLY_MARKER {
        return Err(DecodeError::InvalidDiscriminant);
    }
    assert(bytes@.skip(0) =~= bytes@);
    match request_opcode {
        98 => match QueryExtensionReply::read_from(bytes, 1) {
            Ok((v, p)) => Ok((Reply::QueryExtension(v), p)),
            Err(e) => Err(e),
        },
        108 => match GetScreenSaverReply::read_from(bytes, 1) {
            Ok((v, p)) => Ok((Reply::GetScreenSaver(v), p)),
            Err(e) => Err(e),
        },
        _ => Err(DecodeError::UnknownOpcode),
    }
}

/// Decoding a reply's frame, in the context of the request it answers, gives
/// the reply back and takes exactly the frame, whatever follows it.
pub proof fn lemma_reply_round_trip(r: Reply, rest: Seq<u8>)
    ensures
        decode_reply_spec(r.spec_request_opcode(), r.spec_encode() + rest) == Ok::<(Reply, nat), DecodeError>(
            (r, r.spec_encode().len()),
        ),
{
    let b = r.spec_encode() + rest;
    assert(b.skip(1) =~= r.spec_body() + rest);
    match r {
        Reply::QueryExtension(v) => v.lemma_round_trip(rest),
        Reply::GetScreenSaver(v) => v.lemma_round_trip(rest),
    }
}

/// Every strict prefix of a reply's frame reads as truncated.
pub proof fn lemma_reply_truncated(r: Reply, k: nat)
    requires
        k < r.spec_encode().len(),
    ensures
        decode_reply_spec(r.spec_request_opcode(), r.spec_encode().take(k as int)) == Err::<
            (Reply, nat),
            DecodeError,
        >(DecodeError::Truncated),
{
    if k > 0 {
        let b = r.spec_encode().take(k as int);
        assert(b.skip(1) =~= r.spec_body().take(k - 1));
        match r {
            Reply::QueryExtension(v) => v.lemma_truncated((k - 1) as nat),
            Reply::GetScreenSaver(v) => v.lemma_truncated((k - 1) as nat),
        }
    }
}

/// Every reply here fills exactly the fixed 32-byte frame.
pub proof fn lemma_reply_frame(r: Reply)
    ensures
        r.spec_encode().len() == 32,
{
    match r {
        Reply::QueryExtension(v) => v.lemma_size(),
        Reply::GetScreenSaver(v) => v.lemma_size(),
    }
}

} // verus!
