//! The encoding contract that every value carried on the wire meets; its
//! implementations for the primitive integers (little-endian), for two
//! values in a row (the shape of every composite message), and for runs of
//! unused bytes; and the padding of variable-length data to 4-byte words.

use vstd::prelude::*;

verus! {

/// Why bytes could not be decoded as a value.
#[derive(Debug, Clone, Copy, PartialEq, Eq, Structural)]
pub enum DecodeError {
    /// The bytes ended before the value was complete.
    Truncated,
    /// A tag byte lies outside the closed set of a type's variants.
    InvalidDiscriminant,
    /// An integer that is not a reserved value does not fit the field's range.
    FailedConversion,
    /// The leading code of a frame names no known message.
    UnknownOpcode,
}

/// Why a value could not be encoded.
#[derive(Debug, Clone, Copy, PartialEq, Eq, Structural)]
pub enum EncodeError {
    /// A length does not fit in the field that has to carry it.
    CapacityExceeded,
}

/// The number of filler bytes that bring `len` bytes to a whole number of
/// 4-byte words.
pub open spec fn spec_pad(len: nat) -> nat {
    ((4 - (len % 4)) % 4) as nat
}

/// Computes [`spec_pad`].
pub fn pad(len: usize) -> (r: usize)
    ensures
        r == spec_pad(len as nat),
        r < 4,
        (len as int + r as int) % 4 == 0,
{
    (4 - len % 4) % 4
}

/// `n` zero bytes.
pub open spec fn zeros(n: nat) -> Seq<u8> {
    Seq::new(n, |i: int| 0u8)
}

/// What a value of a type is on the wire, and how it is read and written.
///
/// `spec_encode` is the exact byte sequence of a value; `spec_decode` reads a
/// value from the front of a byte sequence and says how many bytes it took.
/// Every implementation proves that decoding an encoding gives the value back
/// whatever follows it, and that every strict prefix of an encoding is
/// reported as truncated.
pub trait Wire: Sized {
    /// Whether the value can be encoded at all.
    spec fn wf(&self) -> bool;

    /// Whether decoding the value's encoding gives this very value back.
    /// A value that is not canonical still encodes, as the canonical value
    /// that it reads back as.
    spec fn canonical(&self) -> bool;

    spec fn spec_encode(&self) -> Seq<u8>;

    /// The length of `spec_encode`, as arithmetic on the value's parts.
    spec fn spec_size(&self) -> nat;

    spec fn spec_decode(bytes: Seq<u8>) -> Result<(Self, nat), DecodeError>;

    /// The number of bytes that `write_to` appends.
    fn x11_size(&self) -> (r: usize)
        requires
            self.wf(),
        ensures
            r == self.spec_encode().len(),
    ;

    fn write_to(&self, buf: &mut Vec<u8>)
        requires
            self.wf(),
        ensures
            final(buf)@ == old(buf)@ + self.spec_encode(),
    ;

    /// Reads a value starting at `pos`; on success returns it with the
    /// position just after it.
    fn read_from(bytes: &[u8], pos: usize) -> (r: Result<(Self, usize), DecodeError>)
        requires
            pos <= bytes@.len(),
        ensures
            match r {
                Ok((v, p)) => pos <= p <= bytes@.len() && Self::spec_decode(bytes@.skip(pos as int))
                    == Ok::<(Self, nat), DecodeError>((v, (p - pos) as nat)),
                Err(e) => Self::spec_decode(bytes@.skip(pos as int)) == Err::<(Self, nat), DecodeError>(e),
            },
    ;

    /// Decoding a canonical value's encoding, followed by any bytes at all,
    /// gives the value back and takes exactly the encoding.
    proof fn lemma_round_trip(&self, rest: Seq<u8>)
        requires
            self.wf(),
            self.canonical(),
        ensures
            Self::spec_decode(self.spec_encode() + rest) == Ok::<(Self, nat), DecodeError>(
                (*self, self.spec_encode().len()),
            ),
    ;

    /// Every strict prefix of an encoding, the encoding without its last
    /// byte among them, reads as truncated and as nothing else.
    proof fn lemma_truncated(&self, k: nat)
        requires
            self.wf(),
            self.canonical(),
            k < self.spec_encode().len(),
        ensures
            Self::spec_decode(self.spec_encode().take(k as int)) == Err::<(Self, nat), DecodeError>(
                DecodeError::Truncated,
            ),
    ;

    /// The size computed from the value's parts is the encoding's length.
    proof fn lemma_size(&self)
        ensures
            self.spec_encode().len() == self.spec_size(),
    ;

    /// A decoder never claims more bytes than it was given.
    proof fn lemma_decode_len(bytes: Seq<u8>)
        ensures
            Self::spec_decode(bytes) matches Ok((_, n)) ==> n <= bytes.len(),
    ;
}

impl Wire for u8 {
    open spec fn wf(&self) -> bool {
        true
    }

    open spec fn canonical(&self) -> bool {
        true
    }

    open spec fn spec_encode(&self) -> Seq<u8> {
        seq![*self]
    }

    open spec fn spec_size(&self) -> nat {
        1
    }

    open spec fn spec_decode(bytes: Seq<u8>) -> Result<(u8, nat), DecodeError> {
        if bytes.len() < 1 {
            Err(DecodeError::Truncated)
        } else {
            Ok((bytes[0], 1))
        }
    }

    fn x11_size(&self) -> (r: usize) {
        1
    }

    fn write_to(&self, buf: &mut Vec<u8>) {
        buf.push(*self);
    }

    fn read_from(bytes: &[u8], pos: usize) -> (r: Result<(u8, usize), DecodeError>) {
        if bytes.len() - pos < 1 {
            Err(DecodeError::Truncated)
        } else {
            Ok((bytes[pos], pos + 1))
        }
    }

    proof fn lemma_round_trip(&self, rest: Seq<u8>) {
    }

    proof fn lemma_truncated(&self, k: nat) {
    }

    proof fn lemma_size(&self) {
    }

    proof fn lemma_decode_len(bytes: Seq<u8>) {
    }
}

/// The two little-endian bytes of `v`.
pub open spec fn le16(v: u16) -> Seq<u8> {
    seq![(v % 256) as u8, (v / 256) as u8]
}

/// The four little-endian bytes of `v`.
pub open spec fn le32(v: u32) -> Seq<u8> {
    seq![(v % 256) as u8, (v / 256 % 256) as u8, (v / 65536 % 256) as u8, (v / 16777216) as u8]
}

/// The `u16` whose little-endian bytes are the first two of `b`.
pub open spec fn from_le16(b: Seq<u8>) -> u16 {
    (b[0] as int + b[1] as int * 256) as u16
}

/// The `u32` whose little-endian bytes are the first four of `b`.
pub open spec fn from_le32(b: Seq<u8>) -> u32 {
    (b[0] as int + b[1] as int * 256 + b[2] as int * 65536 + b[3] as int * 16777216) as u32
}

impl Wire for u16 {
    open spec fn wf(&self) -> bool {
        true
    }

    open spec fn canonical(&self) -> bool {
        true
    }

    open spec fn spec_encode(&self) -> Seq<u8> {
        le16(*self)
    }

    open spec fn spec_size(&self) -> nat {
        2
    }

    open spec fn spec_decode(bytes: Seq<u8>) -> Result<(u16, nat), DecodeError> {
        if bytes.len() < 2 {
            Err(DecodeError::Truncated)
        } else {
            Ok((from_le16(bytes), 2))
        }
    }

    fn x11_size(&self) -> (r: usize) {
        2
    }

    fn write_to(&self, buf: &mut Vec<u8>) {
        buf.push((*self % 256) as u8);
        buf.push((*self / 256) as u8);
        assert(buf@ =~= old(buf)@ + le16(*self));
    }

    fn read_from(bytes: &[u8], pos: usize) -> (r: Result<(u16, usize), DecodeError>) {
        if bytes.len() - pos < 2 {
            Err(DecodeError::Truncated)
        } else {
            let v: u16 = bytes[pos] as u16 + bytes[pos + 1] as u16 * 256;
            proof {
                let b = bytes@.skip(pos as int);
                assert(b[0] == bytes@[pos as int] && b[1] == bytes@[pos + 1]);
            }
            Ok((v, pos + 2))
        }
    }

    proof fn lemma_round_trip(&self, rest: Seq<u8>) {
        let b = le16(*self) + rest;
        assert(b[0] == (*self % 256) as u8 && b[1] == (*self / 256) as u8);
    }

    proof fn lemma_truncated(&self, k: nat) {
    }

    proof fn lemma_size(&self) {
    }

    proof fn lemma_decode_len(bytes: Seq<u8>) {
    }
}

impl Wire for u32 {
    open spec fn wf(&self) -> bool {
        true
    }

    open spec fn canonical(&self) -> bool {
        true
    }

    open spec fn spec_encode(&self) -> Seq<u8> {
        le32(*self)
    }

    open spec fn spec_size(&self) -> nat {
        4
    }

    open spec fn spec_decode(bytes: Seq<u8>) -> Result<(u32, nat), DecodeError> {
        if bytes.len() < 4 {
            Err(DecodeError::Truncated)
        } else {
            Ok((from_le32(bytes), 4))
        }
    }

    fn x11_size(&self) -> (r: usize) {
        4
    }

    fn write_to(&self, buf: &mut Vec<u8>) {
        buf.push((*self % 256) as u8);
        buf.push((*self / 256 % 256) as u8);
        buf.push((*self / 65536 % 256) as u8);
        buf.push((*self / 16777216) as u8);
        assert(buf@ =~= old(buf)@ + le32(*self));
    }

    fn read_from(bytes: &[u8], pos: usize) -> (r: Result<(u32, usize), DecodeError>) {
        if bytes.len() - pos < 4 {
            Err(DecodeError::Truncated)
        } else {
            let v: u32 = bytes[pos] as u32 + bytes[pos + 1] as u32 * 256 + bytes[pos + 2] as u32
                * 65536 + bytes[pos + 3] as u32 * 16777216;
            proof {
                let b = bytes@.skip(pos as int);
                assert(b[0] == bytes@[pos as int] && b[1] == bytes@[pos + 1]);
                assert(b[2] == bytes@[pos + 2] && b[3] == bytes@[pos + 3]);
            }
            Ok((v, pos + 4))
        }
    }

    proof fn lemma_round_trip(&self, rest: Seq<u8>) {
        let b = le32(*self) + rest;
        let v = *self;
        assert(b[0] == (v % 256) as u8 && b[1] == (v / 256 % 256) as u8);
        assert(b[2] == (v / 65536 % 256) as u8 && b[3] == (v / 16777216) as u8);
        assert(v % 256 + (v / 256 % 256) * 256 + (v / 65536 % 256) * 65536 + (v / 16777216)
            * 16777216 == v) by (nonlinear_arith);
    }

    proof fn lemma_truncated(&self, k: nat) {
    }

    proof fn lemma_size(&self) {
    }

    proof fn lemma_decode_len(bytes: Seq<u8>) {
    }
}

impl Wire for i16 {
    open spec fn wf(&self) -> bool {
        true
    }

    open spec fn canonical(&self) -> bool {
        true
    }

    /// Two's complement, little-endian.
    open spec fn spec_encode(&self) -> Seq<u8> {
        le16(*self as u16)
    }

    open spec fn spec_size(&self) -> nat {
        2
    }

    open spec fn spec_decode(bytes: Seq<u8>) -> Result<(i16, nat), DecodeError> {
        if bytes.len() < 2 {
            Err(DecodeError::Truncated)
        } else {
            Ok((from_le16(bytes) as i16, 2))
        }
    }

    fn x11_size(&self) -> (r: usize) {
        2
    }

    fn write_to(&self, buf: &mut Vec<u8>) {
        (*self as u16).write_to(buf);
    }

    fn read_from(bytes: &[u8], pos: usize) -> (r: Result<(i16, usize), DecodeError>) {
        match u16::read_from(bytes, pos) {
            Ok((v, p)) => Ok((v as i16, p)),
            Err(e) => Err(e),
        }
    }

    proof fn lemma_round_trip(&self, rest: Seq<u8>) {
        (*self as u16).lemma_round_trip(rest);
        let v = *self;
        assert((v as u16) as i16 == v) by (bit_vector);
    }

    proof fn lemma_truncated(&self, k: nat) {
    }

    proof fn lemma_size(&self) {
    }

    proof fn lemma_decode_len(bytes: Seq<u8>) {
    }
}

impl Wire for bool {
    open spec fn wf(&self) -> bool {
        true
    }

    open spec fn canonical(&self) -> bool {
        true
    }

    open spec fn spec_encode(&self) -> Seq<u8> {
        seq![if *self { 1u8 } else { 0u8 }]
    }

    open spec fn spec_size(&self) -> nat {
        1
    }

    /// Any byte other than zero reads as `true`.
    open spec fn spec_decode(bytes: Seq<u8>) -> Result<(bool, nat), DecodeError> {
        if bytes.len() < 1 {
            Err(DecodeError::Truncated)
        } else {
            Ok((bytes[0] != 0, 1))
        }
    }

    fn x11_size(&self) -> (r: usize) {
        1
    }

    fn write_to(&self, buf: &mut Vec<u8>) {
        buf.push(if *self { 1u8 } else { 0u8 });
    }

    fn read_from(bytes: &[u8], pos: usize) -> (r: Result<(bool, usize), DecodeError>) {
        if bytes.len() - pos < 1 {
            Err(DecodeError::Truncated)
        } else {
            Ok((bytes[pos] != 0, pos + 1))
        }
    }

    proof fn lemma_round_trip(&self, rest: Seq<u8>) {
    }

    proof fn lemma_truncated(&self, k: nat) {
    }

    proof fn lemma_size(&self) {
    }

    proof fn lemma_decode_len(bytes: Seq<u8>) {
    }
}

/// Two values one after the other: the shape of every composite message.
impl<A: Wire, B: Wire> Wire for (A, B) {
    open spec fn wf(&self) -> bool {
        &&& self.0.wf()
        &&& self.1.wf()
        &&& self.spec_size() <= usize::MAX
    }

    open spec fn canonical(&self) -> bool {
        self.0.canonical() && self.1.canonical()
    }

    closed spec fn spec_encode(&self) -> Seq<u8> {
        self.0.spec_encode() + self.1.spec_encode()
    }

    open spec fn spec_size(&self) -> nat {
        self.0.spec_size() + self.1.spec_size()
    }

    closed spec fn spec_decode(bytes: Seq<u8>) -> Result<((A, B), nat), DecodeError> {
        match A::spec_decode(bytes) {
            Ok((a, n)) => match B::spec_decode(bytes.skip(n as int)) {
                Ok((b, m)) => Ok(((a, b), n + m)),
                Err(e) => Err(e),
            },
            Err(e) => Err(e),
        }
    }

    fn x11_size(&self) -> (r: usize) {
        proof {
            self.0.lemma_size();
            self.1.lemma_size();
        }
        self.0.x11_size() + self.1.x11_size()
    }

    fn write_to(&self, buf: &mut Vec<u8>) {
        self.0.write_to(buf);
        self.1.write_to(buf);
        assert(buf@ =~= old(buf)@ + self.spec_encode());
    }

    fn read_from(bytes: &[u8], pos: usize) -> (r: Result<((A, B), usize), DecodeError>) {
        match A::read_from(bytes, pos) {
            Ok((a, p)) => {
                assert(bytes@.skip(pos as int).skip(p - pos) =~= bytes@.skip(p as int));
                match B::read_from(bytes, p) {
                    Ok((b, q)) => Ok(((a, b), q)),
                    Err(e) => Err(e),
                }
            },
            Err(e) => Err(e),
        }
    }

    proof fn lemma_size(&self) {
        self.0.lemma_size();
        self.1.lemma_size();
    }

    proof fn lemma_round_trip(&self, rest: Seq<u8>) {
        let ea = self.0.spec_encode();
        let eb = self.1.spec_encode();
        assert(ea + eb + rest =~= ea + (eb + rest));
        self.0.lemma_round_trip(eb + rest);
        assert((ea + (eb + rest)).skip(ea.len() as int) =~= eb + rest);
        self.1.lemma_round_trip(rest);
    }

    proof fn lemma_truncated(&self, k: nat) {
        let ea = self.0.spec_encode();
        let eb = self.1.spec_encode();
        if k < ea.len() {
            assert((ea + eb).take(k as int) =~= ea.take(k as int));
            self.0.lemma_truncated(k);
        } else {
            let j = (k - ea.len()) as nat;
            assert((ea + eb).take(k as int) =~= ea + eb.take(j as int));
            self.0.lemma_round_trip(eb.take(j as int));
            assert((ea + eb.take(j as int)).skip(ea.len() as int) =~= eb.take(j as int));
            self.1.lemma_truncated(j);
        }
    }

    proof fn lemma_decode_len(bytes: Seq<u8>) {
        A::lemma_decode_len(bytes);
        if let Ok((a, n)) = A::spec_decode(bytes) {
            B::lemma_decode_len(bytes.skip(n as int));
        }
    }
}

/// Two values in a row are written as the first one's bytes, then the
/// second one's.
pub proof fn lemma_pair_encode<A: Wire, B: Wire>(p: (A, B))
    ensures
        p.spec_encode() == p.0.spec_encode() + p.1.spec_encode(),
{
}

/// Two values in a row are read one after the other: the second from the
/// bytes that the first leaves, failing where either fails.
pub proof fn lemma_pair_decode<A: Wire, B: Wire>(bytes: Seq<u8>)
    ensures
        <(A, B) as Wire>::spec_decode(bytes) == match A::spec_decode(bytes) {
            Ok((a, n)) => match B::spec_decode(bytes.skip(n as int)) {
                Ok((b, m)) => Ok(((a, b), n + m)),
                Err(e) => Err(e),
            },
            Err(e) => Err(e),
        },
{
}

/// `N` bytes that carry nothing: written as zeros, skipped unread.
pub struct Reserved<const N: usize>;

impl<const N: usize> Wire for Reserved<N> {
    open spec fn wf(&self) -> bool {
        true
    }

    open spec fn canonical(&self) -> bool {
        true
    }

    open spec fn spec_encode(&self) -> Seq<u8> {
        zeros(N as nat)
    }

    open spec fn spec_size(&self) -> nat {
        N as nat
    }

    open spec fn spec_decode(bytes: Seq<u8>) -> Result<(Reserved<N>, nat), DecodeError> {
        if bytes.len() < N {
            Err(DecodeError::Truncated)
        } else {
            Ok((Reserved, N as nat))
        }
    }

    fn x11_size(&self) -> (r: usize) {
        N
    }

    fn write_to(&self, buf: &mut Vec<u8>) {
        write_zeros(buf, N);
    }

    fn read_from(bytes: &[u8], pos: usize) -> (r: Result<(Reserved<N>, usize), DecodeError>) {
        if bytes.len() - pos < N {
            Err(DecodeError::Truncated)
        } else {
            Ok((Reserved, pos + N))
        }
    }

    proof fn lemma_round_trip(&self, rest: Seq<u8>) {
    }

    proof fn lemma_truncated(&self, k: nat) {
    }

    proof fn lemma_size(&self) {
    }

    proof fn lemma_decode_len(bytes: Seq<u8>) {
    }
}

/// Appends `n` zero bytes.
pub fn write_zeros(buf: &mut Vec<u8>, n: usize)
    ensures
        final(buf)@ == old(buf)@ + zeros(n as nat),
{
    let mut i: usize = 0;
    while i < n
        invariant
            i <= n,
            buf@ == old(buf)@ + zeros(i as nat),
        decreases n - i,
    {
        buf.push(0u8);
        i = i + 1;
        assert(buf@ =~= old(buf)@ + zeros(i as nat));
    }
}

/// The array whose first `i` bytes are those of `s`, the rest zero.
pub open spec fn array_of<const N: usize>(s: Seq<u8>, i: nat) -> [u8; N]
    decreases i,
{
    if i == 0 {
        vstd::array::spec_array_fill_for_copy_type::<u8, N>(0u8)
    } else {
        vstd::array::spec_array_update(array_of::<N>(s, (i - 1) as nat), i - 1, s[i - 1])
    }
}

/// The first `i` bytes of `array_of(s, i)` are those of `s`.
pub proof fn lemma_array_of<const N: usize>(s: Seq<u8>, i: nat)
    requires
        i <= N,
        i <= s.len(),
    ensures
        forall|j: int| 0 <= j < i ==> #[trigger] array_of::<N>(s, i)@[j] == s[j],
    decreases i,
{
    broadcast use vstd::array::group_array_axioms;

    if i > 0 {
        lemma_array_of::<N>(s, (i - 1) as nat);
        let prev = array_of::<N>(s, (i - 1) as nat);
        assert(array_of::<N>(s, i)@ == prev@.update(i - 1, s[i - 1]));
    }
}

/// A fixed number of raw bytes, carried as they are.
impl<const N: usize> Wire for [u8; N] {
    open spec fn wf(&self) -> bool {
        true
    }

    open spec fn canonical(&self) -> bool {
        true
    }

    open spec fn spec_encode(&self) -> Seq<u8> {
        self@
    }

    open spec fn spec_size(&self) -> nat {
        N as nat
    }

    open spec fn spec_decode(bytes: Seq<u8>) -> Result<([u8; N], nat), DecodeError> {
        if bytes.len() < N {
            Err(DecodeError::Truncated)
        } else {
            Ok((array_of::<N>(bytes, N as nat), N as nat))
        }
    }

    fn x11_size(&self) -> (r: usize) {
        N
    }

    fn write_to(&self, buf: &mut Vec<u8>) {
        let mut i: usize = 0;
        while i < N
            invariant
                i <= N,
                self@.len() == N,
                buf@ == old(buf)@ + self@.take(i as int),
            decreases N - i,
        {
            buf.push(self[i]);
            i = i + 1;
            assert(self@.take(i as int) =~= self@.take(i - 1) + seq![self@[i - 1]]);
        }
        assert(self@.take(N as int) =~= self@);
    }

    fn read_from(bytes: &[u8], pos: usize) -> (r: Result<([u8; N], usize), DecodeError>) {
        if bytes.len() - pos < N {
            return Err(DecodeError::Truncated);
        }
        let ghost b = bytes@.skip(pos as int);
        let end = pos + N;
        let mut out = [0u8; N];
        let mut i: usize = 0;
        while i < N
            invariant
                i <= N,
                end == pos + N,
                end <= bytes@.len(),
                b == bytes@.skip(pos as int),
                forall|j: int| 0 <= j < i ==> #[trigger] out@[j] == b[j],
            decreases N - i,
        {
            out[i] = bytes[pos + i];
            i = i + 1;
        }
        proof {
            lemma_array_of::<N>(b, N as nat);
            assert(out =~= array_of::<N>(b, N as nat));
        }
        Ok((out, pos + N))
    }

    proof fn lemma_round_trip(&self, rest: Seq<u8>) {
        let b = self@ + rest;
        lemma_array_of::<N>(b, N as nat);
        assert(array_of::<N>(b, N as nat) =~= *self);
    }

    proof fn lemma_truncated(&self, k: nat) {
    }

    proof fn lemma_size(&self) {
    }

    proof fn lemma_decode_len(bytes: Seq<u8>) {
    }
}

} // verus!
