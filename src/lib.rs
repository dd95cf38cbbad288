//! A verified capture-and-stream pipeline for sampled audio.
//!
//! An acquisition engine numbers each completed block of readings, a handoff
//! buffer (a bounded FIFO queue, or a lossy double buffer) carries blocks from
//! producer to consumer, and a transport writer cuts each block into link-sized
//! chunks, keeps success and error counts, and resynchronises on link loss.
//! The loops that await hardware and the link live outside this crate; every
//! decision they take is a function here.

pub mod block;
pub mod handoff_queue;
pub mod double_buffer;
pub mod acquisition;
pub mod monitor;
pub mod transport;
pub mod network;
