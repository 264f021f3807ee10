//! Byte-oriented output. The text-mode writer models the screen as owned
//! cells with fully specified scrolling and byte placement; the hardware
//! layer mirrors those cells into the memory-mapped frame buffer.

pub mod vga_text;
