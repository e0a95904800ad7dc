//! Discrete core of a path tracer: configuration checks, the per-row column
//! work queue, the row buffer, the plain-text PPM encoding of quantized
//! pixels, and the bounce budget that bounds every traced path.

pub mod ppm;
pub mod schedule;
pub mod raster;
pub mod row;
pub mod image;
pub mod path;
