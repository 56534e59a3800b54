//! The reply that lists the server's extensions: a count in the reply's
//! second byte says how many names follow, and each name is led by its own
//! one-byte length.

use crate::reply::REPLY_MARKER;
use crate::wire::{
    DecodeError, EncodeError, Wire, from_le16, le16, le32, pad, spec_pad, write_zeros, zeros,
};
use vstd::prelude::*;
use vstd::slice::{slice_subrange, slice_to_vec};

verus! {

/// One name as it is carried in a list: its length in a byte, then its bytes.
pub open spec fn str_bytes(s: Seq<u8>) -> Seq<u8> {
    seq![s.len() as u8] + s
}

/// A list of names, one after another, with no padding between them.
pub open spec fn strs_bytes(names: Seq<Seq<u8>>) -> Seq<u8>
    decreases names.len(),
{
    if names.len() == 0 {
        Seq::empty()
    } else {
        str_bytes(names[0]) + strs_bytes(names.skip(1))
    }
}

/// Reads `count` names from the front of `bytes`, each led by its length;
/// on success gives the names and the number of bytes they took.
pub open spec fn decode_strs(bytes: Seq<u8>, count: nat) -> Result<(Seq<Seq<u8>>, nat), DecodeError>
    decreases count,
{
    if count == 0 {
        Ok((Seq::empty(), 0))
    } else if bytes.len() < 1 {
        Err(DecodeError::Truncated)
    } else {
        let n = bytes[0] as nat;
        if bytes.len() < 1 + n {
            Err(DecodeError::Truncated)
        } else {
            match decode_strs(bytes.skip(1 + n as int), (count - 1) as nat) {
                Ok((rest, m)) => Ok((seq![bytes.subrange(1, 1 + n as int)] + rest, 1 + n + m)),
                Err(e) => Err(e),
            }
        }
    }
}

/// Whether every name fits its one-byte length.
pub open spec fn names_fit(names: Seq<Seq<u8>>) -> bool {
    forall|i: int| 0 <= i < names.len() ==> #[trigger] names[i].len() <= 255
}

/// Appending a name to a list appends its bytes.
pub proof fn lemma_strs_push(names: Seq<Seq<u8>>, s: Seq<u8>)
    ensures
        strs_bytes(names.push(s)) == strs_bytes(names) + str_bytes(s),
    decreases names.len(),
{
    if names.len() == 0 {
        assert(names.push(s).skip(1) =~= Seq::<Seq<u8>>::empty());
        assert(strs_bytes(names.push(s).skip(1)) == Seq::<u8>::empty());
        assert(strs_bytes(names) == Seq::<u8>::empty());
        assert(strs_bytes(names.push(s)) =~= strs_bytes(names) + str_bytes(s));
    } else {
        assert(names.push(s).skip(1) =~= names.skip(1).push(s));
        lemma_strs_push(names.skip(1), s);
        assert(strs_bytes(names.push(s)) =~= strs_bytes(names) + str_bytes(s));
    }
}

/// Reading a list's bytes back gives the names and takes exactly those
/// bytes, whatever follows them.
pub proof fn lemma_strs_round_trip(names: Seq<Seq<u8>>, rest: Seq<u8>)
    requires
        names_fit(names),
    ensures
        decode_strs(strs_bytes(names) + rest, names.len()) == Ok::<(Seq<Seq<u8>>, nat), DecodeError>(
            (names, strs_bytes(names).len()),
        ),
    decreases names.len(),
{
    if names.len() == 0 {
        assert(strs_bytes(names) + rest =~= rest);
        assert(names =~= Seq::<Seq<u8>>::empty());
    } else {
        let s = names[0];
        let tail = names.skip(1);
        assert(s.len() <= 255);
        assert(names_fit(tail)) by {
            assert forall|i: int| 0 <= i < tail.len() implies #[trigger] tail[i].len() <= 255 by {
                assert(tail[i] == names[i + 1]);
            }
        }
        lemma_strs_round_trip(tail, rest);
        let b = strs_bytes(names) + rest;
        assert(b =~= seq![s.len() as u8] + s + (strs_bytes(tail) + rest));
        assert(b[0] == s.len() as u8);
        assert(b.subrange(1, 1 + s.len() as int) =~= s);
        assert(b.skip(1 + s.len() as int) =~= strs_bytes(tail) + rest);
        assert(seq![s] + tail =~= names);
    }
}

/// Every strict prefix of a list's bytes reads as truncated.
pub proof fn lemma_strs_truncated(names: Seq<Seq<u8>>, k: nat)
    requires
        names_fit(names),
        k < strs_bytes(names).len(),
    ensures
        decode_strs(strs_bytes(names).take(k as int), names.len()) == Err::<(Seq<Seq<u8>>, nat), DecodeError>(
            DecodeError::Truncated,
        ),
    decreases names.len(),
{
    let s = names[0];
    let tail = names.skip(1);
    let b = strs_bytes(names).take(k as int);
    assert(s.len() <= 255);
    if k > s.len() {
        assert(names_fit(tail)) by {
            assert forall|i: int| 0 <= i < tail.len() implies #[trigger] tail[i].len() <= 255 by {
                assert(tail[i] == names[i + 1]);
            }
        }
        assert(b[0] == s.len() as u8);
        let j = (k - 1 - s.len()) as nat;
        assert(b.skip(1 + s.len() as int) =~= strs_bytes(tail).take(j as int));
        lemma_strs_truncated(tail, j);
    } else if k > 0 {
        assert(b[0] == s.len() as u8);
    }
}

/// The names of all extensions that the server supports.
#[derive(Debug, Clone, PartialEq, Eq, Hash)]
pub struct ListExtensionsReply {
    /// The sequence number of the request that this replies to.
    pub sequence: u16,
    /// The extensions' names.
    pub names: Vec<Vec<u8>>,
}

/// The names of a list of byte vectors.
pub open spec fn names_view(names: Seq<Vec<u8>>) -> Seq<Seq<u8>> {
    names.map_values(|n: Vec<u8>| n@)
}

/// The bytes of a reply after its marker: the number of names, the sequence
/// number, the length in words beyond the first 32 bytes, 24 unused bytes,
/// the names, and padding to a whole word.
pub open spec fn list_extensions_reply_body(sequence: u16, names: Seq<Seq<u8>>) -> Seq<u8> {
    let strs = strs_bytes(names);
    seq![names.len() as u8] + le16(sequence) + le32(((strs.len() + spec_pad(strs.len())) / 4) as u32)
        + zeros(24) + strs + zeros(spec_pad(strs.len()))
}

/// Reads a reply after its marker: the count in the first byte says how
/// many names follow the 31-byte header; the padding after them is skipped
/// unread. On success gives the sequence number, the names and the number
/// of bytes taken.
pub open spec fn decode_list_extensions_reply(bytes: Seq<u8>) -> Result<((u16, Seq<Seq<u8>>), nat), DecodeError> {
    if bytes.len() < 31 {
        Err(DecodeError::Truncated)
    } else {
        match decode_strs(bytes.skip(31), bytes[0] as nat) {
            Ok((names, m)) => if bytes.len() < 31 + m + spec_pad(m) {
                Err(DecodeError::Truncated)
            } else {
                Ok(((from_le16(bytes.skip(1)), names), 31 + m + spec_pad(m)))
            },
            Err(e) => Err(e),
        }
    }
}

impl ListExtensionsReply {
    /// The major opcode of the request that this replies to.
    pub const REQUEST_OPCODE: u8 = 99;

    /// Whether the count of names fits its byte and every name fits its
    /// one-byte length.
    pub open spec fn wf(&self) -> bool {
        self.names@.len() <= 255 && names_fit(names_view(self.names@))
    }

    /// Appends the whole frame, marker first; fails, leaving `buf` as it
    /// was, when there are more than 255 names or a name is longer than 255
    /// bytes.
    pub fn write_to(&self, buf: &mut Vec<u8>) -> (r: Result<(), EncodeError>)
        ensures
            r is Ok <==> self.wf(),
            r is Ok ==> final(buf)@ == old(buf)@ + seq![REPLY_MARKER] + list_extensions_reply_body(
                self.sequence,
                names_view(self.names@),
            ),
            r matches Err(e) ==> e == EncodeError::CapacityExceeded && final(buf)@ == old(buf)@,
    {
        let count = self.names.len();
        if count > 255 {
            return Err(EncodeError::CapacityExceeded);
        }
        let ghost view = names_view(self.names@);
        // the bytes of the names, gathered first so that their length is known
        let mut strs: Vec<u8> = Vec::new();
        let mut i: usize = 0;
        while i < count
            invariant
                count == self.names@.len(),
                count <= 255,
                view == names_view(self.names@),
                i <= count,
                names_fit(view.take(i as int)),
                strs@ == strs_bytes(view.take(i as int)),
                strs@.len() <= 256 * i,
            decreases count - i,
        {
            let name = &self.names[i];
            if name.len() > 255 {
                assert(view[i as int] == name@);
                assert(!names_fit(view));
                return Err(EncodeError::CapacityExceeded);
            }
            proof {
                assert(view.take(i + 1) =~= view.take(i as int).push(name@));
                lemma_strs_push(view.take(i as int), name@);
            }
            strs.push(name.len() as u8);
            let mut j: usize = 0;
            while j < name.len()
                invariant
                    j <= name@.len(),
                    name@.len() <= 255,
                    strs@ == strs_bytes(view.take(i as int)) + seq![name@.len() as u8] + name@.take(j as int),
                decreases name@.len() - j,
            {
                strs.push(name[j]);
                j = j + 1;
                assert(name@.take(j as int) =~= name@.take(j - 1) + seq![name@[j - 1]]);
            }
            assert(name@.take(j as int) =~= name@);
            assert(strs@ =~= strs_bytes(view.take(i as int)) + str_bytes(name@));
            i = i + 1;
            assert(names_fit(view.take(i as int))) by {
                assert forall|k: int| 0 <= k < i implies #[trigger] view.take(i as int)[k].len() <= 255 by {
                    if k < i - 1 {
                        assert(view.take(i as int)[k] == view.take(i - 1)[k]);
                    }
                }
            }
        }
        assert(view.take(count as int) =~= view);
        let padding = pad(strs.len());
        let words = ((strs.len() + padding) / 4) as u32;
        buf.push(REPLY_MARKER);
        buf.push(count as u8);
        self.sequence.write_to(buf);
        words.write_to(buf);
        write_zeros(buf, 24);
        let mut k: usize = 0;
        let ghost before = buf@;
        while k < strs.len()
            invariant
                k <= strs@.len(),
                buf@ == before + strs@.take(k as int),
            decreases strs@.len() - k,
        {
            buf.push(strs[k]);
            k = k + 1;
            assert(strs@.take(k as int) =~= strs@.take(k - 1) + seq![strs@[k - 1]]);
        }
        assert(strs@.take(k as int) =~= strs@);
        write_zeros(buf, padding);
        assert(buf@ =~= old(buf)@ + seq![REPLY_MARKER] + list_extensions_reply_body(self.sequence, view));
        Ok(())
    }

    /// Reads a whole frame at the front of `bytes`; the first byte must be
    /// the reply marker. Returns the reply with the number of bytes it took.
    pub fn decode(bytes: &[u8]) -> (r: Result<(ListExtensionsReply, usize), DecodeError>)
        ensures
            bytes@.len() >= 1 && bytes@[0] != REPLY_MARKER ==> r == Err::<(ListExtensionsReply, usize), DecodeError>(
                DecodeError::InvalidDiscriminant,
            ),
            bytes@.len() >= 1 && bytes@[0] == REPLY_MARKER ==> match r {
                Ok((v, n)) => n <= bytes@.len() && decode_list_extensions_reply(bytes@.skip(1)) == Ok::<
                    ((u16, Seq<Seq<u8>>), nat),
                    DecodeError,
                >(((v.sequence, names_view(v.names@)), (n - 1) as nat)),
                Err(e) => decode_list_extensions_reply(bytes@.skip(1)) == Err::<
                    ((u16, Seq<Seq<u8>>), nat),
                    DecodeError,
                >(e),
            },
            bytes@.len() == 0 ==> r == Err::<(ListExtensionsReply, usize), DecodeError>(DecodeError::Truncated),
    {
        if bytes.len() < 1 {
            return Err(DecodeError::Truncated);
        }
        if bytes[0] != REPLY_MARKER {
            return Err(DecodeError::InvalidDiscriminant);
        }
        let ghost b = bytes@.skip(1);
        if bytes.len() < 32 {
            return Err(DecodeError::Truncated);
        }
        let count = bytes[1] as usize;
        let sequence = match u16::read_from(bytes, 2) {
            Ok((s, _)) => s,
            Err(e) => return Err(e),
        };
        assert(bytes@.skip(2) =~= b.skip(1));
        let mut names: Vec<Vec<u8>> = Vec::new();
        let mut pos: usize = 32;
        let mut i: usize = 0;
        assert(bytes@.skip(32) =~= b.skip(31));
        while i < count
            invariant
                bytes@.len() >= 32,
                bytes@[0] == REPLY_MARKER,
                b == bytes@.skip(1),
                count == b[0] as nat,
                i <= count,
                32 <= pos <= bytes@.len(),
                names@.len() == i,
                decode_strs(b.skip(31), count as nat) == match decode_strs(bytes@.skip(pos as int), (count - i) as nat) {
                    Ok((rest, m)) => Ok::<(Seq<Seq<u8>>, nat), DecodeError>(
                        (names_view(names@) + rest, ((pos - 32) + m) as nat),
                    ),
                    Err(e) => Err::<(Seq<Seq<u8>>, nat), DecodeError>(e),
                },
            decreases count - i,
        {
            let ghost at = bytes@.skip(pos as int);
            if bytes.len() - pos < 1 {
                return Err(DecodeError::Truncated);
            }
            let n = bytes[pos] as usize;
            if bytes.len() - pos - 1 < n {
                return Err(DecodeError::Truncated);
            }
            let name = slice_to_vec(slice_subrange(bytes, pos + 1, pos + 1 + n));
            proof {
                assert(at[0] == bytes@[pos as int]);
                assert(name@ =~= at.subrange(1, 1 + n as int));
                assert(at.skip(1 + n as int) =~= bytes@.skip(pos + 1 + n));
                assert(names_view(names@.push(name)) =~= names_view(names@).push(name@));
                let rest_now = decode_strs(bytes@.skip(pos + 1 + n), (count - i - 1) as nat);
                if let Ok((rest, m)) = rest_now {
                    assert(names_view(names@) + (seq![name@] + rest) =~= names_view(names@).push(name@) + rest);
                }
            }
            names.push(name);
            pos = pos + 1 + n;
            i = i + 1;
        }
        let strs_len = pos - 32;
        let padding = pad(strs_len);
        if bytes.len() - pos < padding {
            return Err(DecodeError::Truncated);
        }
        proof {
            assert(decode_strs(bytes@.skip(pos as int), 0) == Ok::<(Seq<Seq<u8>>, nat), DecodeError>((Seq::empty(), 0)));
            assert(names_view(names@) + Seq::<Seq<u8>>::empty() =~= names_view(names@));
        }
        Ok((ListExtensionsReply { sequence, names }, pos + padding))
    }
}

/// Decoding a reply's bytes gives its sequence number and names back and
/// takes exactly those bytes, whatever follows them.
pub proof fn lemma_list_extensions_reply_round_trip(sequence: u16, names: Seq<Seq<u8>>, rest: Seq<u8>)
    requires
        names.len() <= 255,
        names_fit(names),
    ensures
        decode_list_extensions_reply(list_extensions_reply_body(sequence, names) + rest) == Ok::<
            ((u16, Seq<Seq<u8>>), nat),
            DecodeError,
        >(((sequence, names), list_extensions_reply_body(sequence, names).len())),
{
    let strs = strs_bytes(names);
    let p = spec_pad(strs.len());
    let b = list_extensions_reply_body(sequence, names) + rest;
    assert(b.skip(31) =~= strs + (zeros(p) + rest));
    lemma_strs_round_trip(names, zeros(p) + rest);
    assert(b[0] == names.len() as u8);
    assert(b.skip(1)[0] == le16(sequence)[0] && b.skip(1)[1] == le16(sequence)[1]);
    let v = sequence;
    assert(from_le16(b.skip(1)) == v);
}

/// Every strict prefix of a reply's bytes reads as truncated.
pub proof fn lemma_list_extensions_reply_truncated(sequence: u16, names: Seq<Seq<u8>>, k: nat)
    requires
        names.len() <= 255,
        names_fit(names),
        k < list_extensions_reply_body(sequence, names).len(),
    ensures
        decode_list_extensions_reply(list_extensions_reply_body(sequence, names).take(k as int))
            == Err::<((u16, Seq<Seq<u8>>), nat), DecodeError>(DecodeError::Truncated),
{
    let strs = strs_bytes(names);
    let p = spec_pad(strs.len());
    let b = list_extensions_reply_body(sequence, names).take(k as int);
    if k >= 31 {
        assert(b[0] == names.len() as u8);
        let j = (k - 31) as nat;
        if j < strs.len() {
            assert(b.skip(31) =~= strs.take(j as int));
            lemma_strs_truncated(names, j);
        } else {
            let tail = zeros(p).take(j - strs.len());
            assert(b.skip(31) =~= strs + tail);
            lemma_strs_round_trip(names, tail);
        }
    }
}

/// A whole reply frame, marker included, fills a whole number of 4-byte
/// words, and its length field counts the words beyond the first eight.
pub proof fn lemma_list_extensions_reply_aligned(sequence: u16, names: Seq<Seq<u8>>)
    requires
        names.len() <= 255,
        names_fit(names),
    ensures
        ({
            let frame_len = 1 + list_extensions_reply_body(sequence, names).len();
            let strs = strs_bytes(names);
            &&& frame_len % 4 == 0
            &&& frame_len == 32 + 4 * ((strs.len() + spec_pad(strs.len())) / 4)
        }),
{
}

} // verus!
