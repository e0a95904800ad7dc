use vstd::prelude::*;

verus! {

/// A render was refused: its configuration is malformed, or the image
/// stream was handed rows that do not fit it.
#[derive(Clone, Copy, Debug, PartialEq, Eq, Structural)]
pub struct RenderError;

/// The image height that a rounded `image_width / aspect_ratio` gives: at
/// least one row.
pub open spec fn spec_image_height(raw_height: int) -> int {
    if raw_height < 1 {
        1
    } else {
        raw_height
    }
}

/// Floors a computed image height at one row.
pub fn floor_image_height(raw_height: i32) -> (h: i32)
    ensures
        h as int == spec_image_height(raw_height as int),
        h >= 1,
{
    if raw_height < 1 {
        1
    } else {
        raw_height
    }
}

/// The integer part of a camera's configuration: the raster size, the
/// number of samples per pixel and the bounce budget of each path.
#[derive(Clone, Copy, Debug, PartialEq, Eq, Structural)]
pub struct RasterSettings {
    pub image_width: i32,
    pub image_height: i32,
    pub samples_per_pixel: i32,
    pub max_depth: i32,
}

impl RasterSettings {
    /// A raster has at least one column and one row, and each pixel takes
    /// at least one sample. A bounce budget of zero or less is allowed: its
    /// paths are all black.
    pub open spec fn wf(&self) -> bool {
        &&& self.image_width >= 1
        &&& self.image_height >= 1
        &&& self.samples_per_pixel >= 1
    }

    /// The settings of a render, or `RenderError` where the width or the
    /// number of samples per pixel is below one. The height is the computed
    /// `raw_height` floored at one row.
    pub fn new(image_width: i32, raw_height: i32, samples_per_pixel: i32, max_depth: i32) -> (r:
        Result<RasterSettings, RenderError>)
        ensures
            r is Ok <==> image_width >= 1 && samples_per_pixel >= 1,
            r matches Ok(s) ==> {
                &&& s.wf()
                &&& s.image_width == image_width
                &&& s.image_height as int == spec_image_height(raw_height as int)
                &&& s.samples_per_pixel == samples_per_pixel
                &&& s.max_depth == max_depth
            },
    {
        if image_width < 1 || samples_per_pixel < 1 {
            return Err(RenderError);
        }
        Ok(
            RasterSettings {
                image_width,
                image_height: floor_image_height(raw_height),
                samples_per_pixel,
                max_depth,
            },
        )
    }
}

} // verus!
