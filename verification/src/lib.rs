//! Turns raster images into character art for fixed-width terminals.
//!
//! An [`Image`] is first resized so that its pixel grid looks proportionate
//! when every pixel is printed as one character cell ([`scale_image`]), then
//! each pixel is replaced by the character of a brightness ramp whose index
//! follows the mean of the red, green and blue channels ([`render`]).
//! [`convert_image_to_ascii`] is the composition of the two.
//!
//! Every function states what it returns over the mathematical models of its
//! arguments: [`ImageView`] for images, sequences of characters for text.

pub mod config;
pub mod convert;
pub mod pixel;
pub mod raster;
pub mod render;
pub mod resize;

pub use crate::config::{scaled_dimensions, Config, Scale};
pub use crate::convert::convert_image_to_ascii;
pub use crate::pixel::{get_char, Rgba, ASCII_CHARS, RAMP_LEN};
pub use crate::raster::{Image, ImageView};
pub use crate::render::render;
pub use crate::resize::{can_scale, scale_image};
