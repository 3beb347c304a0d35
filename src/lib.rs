//! A MIDI pass-through core: events read from an input port are queued on an
//! unbounded FIFO channel, optionally shown on the console and optionally
//! forwarded, bit for bit, to an output port.
//!
//! Everything that touches a device (polling, reading, writing, sleeping) is
//! left to the caller: the pipeline here is a state machine that says which
//! device action comes next and learns what came of it.
pub mod channel;
pub mod guarantees;
pub mod message;
pub mod pipeline;
pub mod startup;
