//! A verified codec for the X11 wire protocol: sizes, encodings and decodings
//! of requests, replies, events and errors, with proofs that they agree.
//!
//! - [`wire`]: the [`wire::Wire`] contract that every carried value meets
//!   (exact bytes, exact size, a decoder that inverts the encoder and reports
//!   truncation), its primitive integers, composition in wire order, and
//!   padding to 4-byte words.
//! - [`kinds`]: enumerations carried as one byte.
//! - [`sentinel`]: fields that spend reserved integers on "default" and
//!   "disabled", and the screensaver delay built on them.
//! - [`types`]: resource ids, points and bitmasks.
//! - [`request`], [`reply`], [`event`], [`error`]: the four kinds of message,
//!   their framing, and the selection of a decoder by opcode.
//! - [`names`]: the reply whose count field decides how many names follow.

pub mod wire;
pub mod kinds;
pub mod sentinel;
pub mod types;
pub mod event;
pub mod request;
pub mod reply;
pub mod error;
pub mod names;
