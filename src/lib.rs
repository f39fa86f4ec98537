//! A parameter model and sampling schedule for a spirograph-style curve.

pub mod color;
pub mod curve;
pub mod settings;

pub use color::Rgba;
pub use curve::sample_count;
pub use settings::Spiro;
