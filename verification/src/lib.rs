//! A film-grain image filter.
//!
//! The filter blends each pixel of an image with a random noise sample,
//! weighted by the pixel's perceptual luminance and two user parameters
//! (intensity and lumen). All pixel arithmetic is carried out in 16.16
//! fixed point: a value of 65536 stands for 1.0.

pub mod fixed;
pub mod weight;
pub mod noise;
pub mod grain;
