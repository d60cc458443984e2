//! Early-boot support for a freestanding x86 kernel: a text console on the
//! legacy 25x80 character grid, and the reconciliation of the address ranges
//! that the bootloader reports into the extents a frame allocator must avoid.

pub mod boot;
pub mod cell;
pub mod color;
pub mod screen;
pub mod vga_buffer;
