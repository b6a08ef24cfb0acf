//! Text output on a memory-mapped text-mode display: a writer that places
//! ASCII characters on the last row of a 25 x 80 grid of two-byte cells,
//! wraps full lines and scrolls the grid up, with every cell access volatile.

pub mod color;
pub mod screen;
pub mod vga_buffer;

pub use color::{Color, ColorMode};
pub use screen::{BUFFER_HEIGHT, BUFFER_WIDTH};
pub use vga_buffer::{Buffer, ScreenChar, Writer};
