//! Conversions between 24-bit truecolour, the xterm 256-colour palette and
//! the 16-colour ANSI palette.

mod palette;
mod quantize;
mod rgb;

pub use palette::{color_256to16, color_256torgb};
pub use quantize::color_rgbto256;
pub use rgb::{join_rgb, split_rgb};
