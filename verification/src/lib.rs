//! A text-mode console for a memory-mapped character display.
//!
//! The display is a grid of 80 columns by 25 rows. Each cell is two bytes of
//! device memory: the glyph code, then the colour attribute. The [`Writer`]
//! draws on the last row, wraps at the last column and scrolls the grid up by
//! one row when a line ends.
//!
//! Every operation is stated over a mathematical model of the console, the
//! [`Console`], and proved against it.

pub mod cell;
pub mod color;
pub mod frame;
pub mod laws;
pub mod model;
pub mod writer;

pub use cell::ScreenChar;
pub use color::{Color, ColorCode};
pub use frame::FrameBuffer;
pub use model::Console;
pub use writer::Writer;
