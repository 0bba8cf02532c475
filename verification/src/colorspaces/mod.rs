pub mod color;
pub mod colorspace;
pub mod adobe_rgb;
pub mod display_p3;
pub mod fixed;
pub mod hsl;
pub mod hsv;
pub mod hwb;
pub mod lab;
pub mod lch;
pub mod luv;
pub mod oklab;
pub mod oklch;
pub mod matrix;
pub mod rec2020;
pub mod srgb;
pub mod trig;
pub mod xyz;
