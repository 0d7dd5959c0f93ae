//! A verified interpreter core for a fixed 32-bit instruction set over a
//! segmented, word-addressable memory.
//!
//! The crate comprises the instruction decoder, the eight-word register
//! file, the segmented memory manager with FIFO identifier reuse, and the
//! fetch-decode-execute engine. Input and output are delegated to the
//! embedding host through the [`machine::Step`] events that
//! [`machine::UM::step`] returns.

pub mod dinst;
pub mod machine;
pub mod memory;
