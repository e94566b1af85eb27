//! Multi-channel receive front-end for software-defined radios: the rules by
//! which a configuration becomes an ordered series of driver calls, and by
//! which an activated stream is read block after block until a stop is asked
//! for.
//!
//! The device itself stays with the caller. The library says which call comes
//! next ([`setup`], [`capture`]); the caller makes it and hands back what the
//! driver answered. Everything that the library decides in between is proved
//! against the contracts in these modules:
//!
//! - [`config`]: what a configuration has to meet, and the record that holds
//!   one that does;
//! - [`setup`]: [`init_rx`], the calls that apply a configuration and open the
//!   stream, in their order, given up at the first that the driver refuses;
//! - [`stream`]: the record of a stream and [`read_chunk`], which prepares a
//!   bulk read and refuses an inactive stream;
//! - [`buffers`]: the per-channel buffers and their scatter view;
//! - [`capture`]: the read loop, from activation to the way out;
//! - [`stop`]: the flag by which an interrupt asks the loop to end;
//! - [`report`]: the lines that the loop and the interrupt handler print;
//! - [`scalar`], [`error`]: the quantities and failures that pass through.

pub mod buffers;
pub mod capture;
pub mod config;
pub mod error;
pub mod report;
pub mod scalar;
pub mod setup;
pub mod stop;
pub mod stream;

pub use crate::setup::init_rx;
pub use crate::stream::read_chunk;
