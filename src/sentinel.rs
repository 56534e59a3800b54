//! Fields that spend reserved integers on "default" and "disabled" instead of
//! carrying a separate tag, and the screensaver delay built on them.

use crate::wire::{DecodeError, Wire, le16, from_le16};
use vstd::prelude::*;

verus! {

/// What a sentinel-backed 16-bit field holds once its reserved values are
/// told apart from its payload.
#[derive(Debug, Clone, Copy, PartialEq, Eq, Hash, Structural)]
pub enum Sentinel {
    /// The first reserved value.
    Default,
    /// The second reserved value.
    Disabled,
    /// Any other value, narrowed to a byte.
    Payload(u8),
}

/// The reserved values of one sentinel-backed field.
#[derive(Debug, Clone, Copy, PartialEq, Eq, Hash, Structural)]
pub struct SentinelRule {
    /// The integer that stands for the default.
    pub default_raw: i16,
    /// The integer that stands for disabled.
    pub disabled_raw: i16,
}

impl SentinelRule {
    /// Whether the two reserved values differ.
    pub open spec fn wf(self) -> bool {
        self.default_raw != self.disabled_raw
    }

    /// Whether writing `s` and reading it back gives `s`: a payload must not
    /// collide with a reserved value.
    pub open spec fn canonical(self, s: Sentinel) -> bool {
        match s {
            Sentinel::Payload(p) => p as i16 != self.default_raw && p as i16 != self.disabled_raw,
            _ => true,
        }
    }

    /// The integer that stands for `s`.
    pub open spec fn spec_widen(self, s: Sentinel) -> i16 {
        match s {
            Sentinel::Default => self.default_raw,
            Sentinel::Disabled => self.disabled_raw,
            Sentinel::Payload(p) => p as i16,
        }
    }

    /// What the integer `raw` stands for: a reserved value, a payload within
    /// a byte's range, or a failed conversion.
    pub open spec fn spec_narrow(self, raw: i16) -> Result<Sentinel, DecodeError> {
        if raw == self.default_raw {
            Ok(Sentinel::Default)
        } else if raw == self.disabled_raw {
            Ok(Sentinel::Disabled)
        } else if 0 <= raw <= 255 {
            Ok(Sentinel::Payload(raw as u8))
        } else {
            Err(DecodeError::FailedConversion)
        }
    }

    pub fn widen(self, s: Sentinel) -> (r: i16)
        ensures
            r == self.spec_widen(s),
    {
        match s {
            Sentinel::Default => self.default_raw,
            Sentinel::Disabled => self.disabled_raw,
            Sentinel::Payload(p) => p as i16,
        }
    }

    pub fn narrow(self, raw: i16) -> (r: Result<Sentinel, DecodeError>)
        ensures
            r == self.spec_narrow(raw),
    {
        if raw == self.default_raw {
            Ok(Sentinel::Default)
        } else if raw == self.disabled_raw {
            Ok(Sentinel::Disabled)
        } else if 0 <= raw && raw <= 255 {
            Ok(Sentinel::Payload(raw as u8))
        } else {
            Err(DecodeError::FailedConversion)
        }
    }

    /// Narrowing undoes widening for every value that can be written.
    pub proof fn lemma_narrow_widen(self, s: Sentinel)
        requires
            self.wf(),
            self.canonical(s),
        ensures
            self.spec_narrow(self.spec_widen(s)) == Ok::<Sentinel, DecodeError>(s),
    {
        if let Sentinel::Payload(p) = s {
            assert((p as i16) as u8 == p) by (bit_vector);
            assert(0 <= p as i16 <= 255) by (bit_vector);
        }
    }
}

/// For every rule, the reserved values are what the default and disabled
/// variants are written as, and reading either of them gives that variant,
/// never a payload.
pub proof fn lemma_reserved_values(rule: SentinelRule)
    requires
        rule.wf(),
    ensures
        rule.spec_widen(Sentinel::Default) == rule.default_raw,
        rule.spec_widen(Sentinel::Disabled) == rule.disabled_raw,
        rule.spec_narrow(rule.default_raw) == Ok::<Sentinel, DecodeError>(Sentinel::Default),
        rule.spec_narrow(rule.disabled_raw) == Ok::<Sentinel, DecodeError>(Sentinel::Disabled),
{
}

/// A number of seconds.
#[derive(Debug, Clone, Copy, PartialEq, Eq, Hash, Structural)]
pub struct Sec(pub u8);

/// The delay used for the screensaver's timeout and interval.
#[derive(Debug, Clone, Copy, PartialEq, Eq, Hash, Structural)]
pub enum Delay {
    /// The server's default is used.
    Default,
    /// The option is disabled.
    Disabled,
    /// The option is enabled after the given delay.
    Enabled(Sec),
}

/// The delay field's reserved values: `-1` for the default, `0` for disabled.
pub open spec fn delay_rule() -> SentinelRule {
    SentinelRule { default_raw: -1i16, disabled_raw: 0i16 }
}

impl Delay {
    pub open spec fn spec_to_sentinel(self) -> Sentinel {
        match self {
            Delay::Default => Sentinel::Default,
            Delay::Disabled => Sentinel::Disabled,
            Delay::Enabled(Sec(s)) => Sentinel::Payload(s),
        }
    }

    pub open spec fn spec_of_sentinel(s: Sentinel) -> Delay {
        match s {
            Sentinel::Default => Delay::Default,
            Sentinel::Disabled => Delay::Disabled,
            Sentinel::Payload(p) => Delay::Enabled(Sec(p)),
        }
    }

    /// The signed 16-bit integer that stands for the delay on the wire.
    pub open spec fn spec_raw(self) -> i16 {
        delay_rule().spec_widen(self.spec_to_sentinel())
    }

    /// The reserved values of the delay field.
    pub fn rule() -> (r: SentinelRule)
        ensures
            r == delay_rule(),
    {
        SentinelRule { default_raw: -1, disabled_raw: 0 }
    }
}

impl Wire for Delay {
    open spec fn wf(&self) -> bool {
        true
    }

    /// A delay of zero seconds is written as `0`, which reads back as
    /// disabled.
    open spec fn canonical(&self) -> bool {
        *self != Delay::Enabled(Sec(0))
    }

    open spec fn spec_encode(&self) -> Seq<u8> {
        le16(self.spec_raw() as u16)
    }

    open spec fn spec_size(&self) -> nat {
        2
    }

    open spec fn spec_decode(bytes: Seq<u8>) -> Result<(Delay, nat), DecodeError> {
        if bytes.len() < 2 {
            Err(DecodeError::Truncated)
        } else {
            match delay_rule().spec_narrow(from_le16(bytes) as i16) {
                Ok(s) => Ok((Delay::spec_of_sentinel(s), 2)),
                Err(e) => Err(e),
            }
        }
    }

    fn x11_size(&self) -> (r: usize) {
        2
    }

    fn write_to(&self, buf: &mut Vec<u8>) {
        let s = match self {
            Delay::Default => Sentinel::Default,
            Delay::Disabled => Sentinel::Disabled,
            Delay::Enabled(Sec(sec)) => Sentinel::Payload(*sec),
        };
        Delay::rule().widen(s).write_to(buf);
    }

    fn read_from(bytes: &[u8], pos: usize) -> (r: Result<(Delay, usize), DecodeError>) {
        match i16::read_from(bytes, pos) {
            Ok((raw, p)) => match Delay::rule().narrow(raw) {
                Ok(Sentinel::Default) => Ok((Delay::Default, p)),
                Ok(Sentinel::Disabled) => Ok((Delay::Disabled, p)),
                Ok(Sentinel::Payload(sec)) => Ok((Delay::Enabled(Sec(sec)), p)),
                Err(e) => Err(e),
            },
            Err(e) => Err(e),
        }
    }

    proof fn lemma_round_trip(&self, rest: Seq<u8>) {
        let raw = self.spec_raw();
        raw.lemma_round_trip(rest);
        delay_rule().lemma_narrow_widen(self.spec_to_sentinel());
    }

    proof fn lemma_truncated(&self, k: nat) {
    }

    proof fn lemma_size(&self) {
    }

    proof fn lemma_decode_len(bytes: Seq<u8>) {
    }
}

/// Writing the default delay gives the reserved `-1` (`FF FF`), writing
/// disabled gives `0` (`00 00`), and reading either of those exact integers
/// gives that variant back, whatever bytes follow.
pub proof fn lemma_delay_sentinels(rest: Seq<u8>)
    ensures
        Delay::Default.spec_encode() == seq![0xFFu8, 0xFFu8],
        Delay::Disabled.spec_encode() == seq![0x00u8, 0x00u8],
        Delay::spec_decode(seq![0xFFu8, 0xFFu8] + rest) == Ok::<(Delay, nat), DecodeError>(
            (Delay::Default, 2),
        ),
        Delay::spec_decode(seq![0x00u8, 0x00u8] + rest) == Ok::<(Delay, nat), DecodeError>(
            (Delay::Disabled, 2),
        ),
{
    assert((-1i16) as u16 == 0xFFFFu16) by (bit_vector);
    assert(Delay::Default.spec_encode() =~= seq![0xFFu8, 0xFFu8]);
    assert(Delay::Disabled.spec_encode() =~= seq![0x00u8, 0x00u8]);
    Delay::Default.lemma_round_trip(rest);
    Delay::Disabled.lemma_round_trip(rest);
}

} // verus!
