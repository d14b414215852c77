//! A console on the text-mode display of the PC: a grid of twenty-five rows
//! of eighty colored characters in memory that the display hardware reads.
//!
//! [`Writer`] writes text into the bottom row of the grid and moves the grid
//! up by one line where a line ends or is full. [`_print`] writes to a writer
//! that several callers share behind a spin lock. What a writer shows is told
//! by [`screen::Screen`], and [`laws`] holds what is proved of it.

pub mod buffer;
pub mod cell;
pub mod color;
pub mod console;
pub mod laws;
pub mod screen;
pub mod writer;

pub use buffer::{Buffer, Cells, BUFFER_ADDRESS, BUFFER_HEIGHT, BUFFER_WIDTH};
pub use cell::ScreenChar;
pub use color::{Color, ColorCode};
pub use console::_print;
pub use writer::Writer;
