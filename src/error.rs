//! Errors: 32-byte frames that report a failed request, led by the error
//! marker.

use crate::wire::{DecodeError, Reserved, Wire};
use vstd::prelude::*;

verus! {

/// The first byte of every error.
pub const ERROR_MARKER: u8 = 0;

/// An error that a request caused.
#[derive(Debug, Clone, Copy, PartialEq, Eq, Hash, Structural)]
pub struct ErrorFrame {
    /// The error code: which kind of error this is.
    pub code: u8,
    /// The sequence number of the request that failed.
    pub sequence: u16,
    /// The offending resource id or value, for the kinds of error that have one.
    pub bad_value: u32,
    /// The minor opcode of the request that failed.
    pub minor_opcode: u16,
    /// The major opcode of the request that failed.
    pub major_opcode: u8,
}

/// The fields of [`ErrorFrame`] in wire order, after the error marker.
pub type ErrorFrameLayout = (u8, (u16, (u32, (u16, (u8, Reserved<21>)))));

impl ErrorFrame {
    /// The fields in wire order, as the values that are written.
    pub open spec fn spec_layout(self) -> ErrorFrameLayout {
        (
            self.code, (
            self.sequence, (
            self.bad_value, (
            self.minor_opcode, (
            self.major_opcode,
            Reserved,
        )))))
    }

    /// The value that a layout stands for; nothing is checked.
    pub open spec fn spec_of_layout(t: ErrorFrameLayout) -> ErrorFrame {
        ErrorFrame {
            code: t.0,
            sequence: t.1.0,
            bad_value: t.1.1.0,
            minor_opcode: t.1.1.1.0,
            major_opcode: t.1.1.1.1.0,
        }
    }
}

impl Wire for ErrorFrame {
    open spec fn wf(&self) -> bool {
        true
    }

    open spec fn canonical(&self) -> bool {
        true
    }

    open spec fn spec_encode(&self) -> Seq<u8> {
        self.spec_layout().spec_encode()
    }

    open spec fn spec_size(&self) -> nat {
        31
    }

    open spec fn spec_decode(bytes: Seq<u8>) -> Result<(ErrorFrame, nat), DecodeError> {
        match <ErrorFrameLayout as Wire>::spec_decode(bytes) {
            Ok((t, n)) => Ok((ErrorFrame::spec_of_layout(t), n)),
            Err(e) => Err(e),
        }
    }

    fn x11_size(&self) -> (r: usize) {
        proof {
            self.spec_layout().lemma_size();
        }
        31
    }

    fn write_to(&self, buf: &mut Vec<u8>) {
        let t: ErrorFrameLayout = (
            self.code, (
            self.sequence, (
            self.bad_value, (
            self.minor_opcode, (
            self.major_opcode,
            Reserved,
        )))));
        t.write_to(buf);
    }

    fn read_from(bytes: &[u8], pos: usize) -> (r: Result<(ErrorFrame, usize), DecodeError>) {
        match <ErrorFrameLayout as Wire>::read_from(bytes, pos) {
            Ok(((code, (sequence, (bad_value, (minor_opcode, (major_opcode, _))))), p)) => Ok((
                ErrorFrame { code, sequence, bad_value, minor_opcode, major_opcode },
                p,
            )),
            Err(e) => Err(e),
        }
    }

    proof fn lemma_round_trip(&self, rest: Seq<u8>) {
        self.spec_layout().lemma_round_trip(rest);
    }

    proof fn lemma_truncated(&self, k: nat) {
        self.spec_layout().lemma_truncated(k);
    }

    proof fn lemma_size(&self) {
        self.spec_layout().lemma_size();
    }

    proof fn lemma_decode_len(bytes: Seq<u8>) {
        <ErrorFrameLayout as Wire>::lemma_decode_len(bytes);
    }
}


/// The whole frame of an error: the marker, then the rest.
pub open spec fn error_frame_bytes(e: ErrorFrame) -> Seq<u8> {
    seq![ERROR_MARKER] + e.spec_encode()
}

/// Reads an error: the first byte must be the error marker.
pub open spec fn decode_error_spec(bytes: Seq<u8>) -> Result<(ErrorFrame, nat), DecodeError> {
    if bytes.len() < 1 {
        Err(DecodeError::Truncated)
    } else if bytes[0] != ERROR_MARKER {
        Err(DecodeError::InvalidDiscriminant)
    } else {
        match ErrorFrame::spec_decode(bytes.skip(1)) {
            Ok((e, n)) => Ok((e, n + 1)),
            Err(e) => Err(e),
        }
    }
}

/// The whole frame of an error.
pub fn encode_error(e: &ErrorFrame) -> (r: Vec<u8>)
    ensures
        r@ == error_frame_bytes(*e),
{
    let mut buf: Vec<u8> = Vec::new();
    buf.push(ERROR_MARKER);
    e.write_to(&mut buf);
    assert(buf@ =~= error_frame_bytes(*e));
    buf
}

/// Decodes the error at the front of `bytes`; returns it with the number of
/// bytes it took.
pub fn decode_error(bytes: &[u8]) -> (r: Result<(ErrorFrame, usize), DecodeError>)
    ensures
        match r {
            Ok((v, n)) => n <= bytes@.len() && decode_error_spec(bytes@) == Ok::<(ErrorFrame, nat), DecodeError>(
                (v, n as nat),
            ),
            Err(e) => decode_error_spec(bytes@) == Err::<(ErrorFrame, nat), DecodeError>(e),
        },
{
    if bytes.len() < 1 {
        return Err(DecodeError::Truncated);
    }
    if bytes[0] != ERROR_MARKER {
        return Err(DecodeError::InvalidDiscriminant);
    }
    ErrorFrame::read_from(bytes, 1)
}

/// Decoding an error's frame gives the error back and takes exactly the
/// frame, 32 bytes, whatever follows it.
pub proof fn lemma_error_round_trip(e: ErrorFrame, rest: Seq<u8>)
    ensures
        decode_error_spec(error_frame_bytes(e) + rest) == Ok::<(ErrorFrame, nat), DecodeError>((e, 32)),
        error_frame_bytes(e).len() == 32,
{
    let b = error_frame_bytes(e) + rest;
    assert(b.skip(1) =~= e.spec_encode() + rest);
    e.lemma_round_trip(rest);
    e.lemma_size();
}

/// Every strict prefix of an error's frame reads as truncated.
pub proof fn lemma_error_truncated(e: ErrorFrame, k: nat)
    requires
        k < error_frame_bytes(e).len(),
    ensures
        decode_error_spec(error_frame_bytes(e).take(k as int)) == Err::<(ErrorFrame, nat), DecodeError>(
            DecodeError::Truncated,
        ),
{
    if k > 0 {
        let b = error_frame_bytes(e).take(k as int);
        assert(b.skip(1) =~= e.spec_encode().take(k - 1));
        e.lemma_truncated((k - 1) as nat);
    }
}

} // verus!
