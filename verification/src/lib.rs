//! Device-facing core of a small text-mode kernel.
//!
//! Two independent components:
//!
//! - [`vga_driver`]: a console driver that owns an 80x25 grid of character
//!   cells, renders text at the bottom row, scrolls, recolors, and keeps a
//!   hardware blink cursor in sync through a pair of indexed CRTC registers.
//! - [`io`]: a fixed-capacity, most-recent-first ring buffer of decoded key
//!   events, filled one event at a time by the keyboard interrupt path and
//!   drained by a polling consumer.
//!
//! [`pc_speaker`] holds the register arithmetic for the tone generator: the
//! divisor for a given frequency and the on/off bits of the control port.
//!
//! Everything here is plain state and arithmetic; the memory-mapped grid,
//! the port accesses and the interrupt masking that drive real hardware
//! live with the embedding program, which mirrors this state outward.

pub mod io;
pub mod pc_speaker;
pub mod vga_driver;

pub use vga_driver::Color;
