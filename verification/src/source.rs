//! The image source: a pixel buffer put through the fixed transform
//! pipeline — resize, crop, flip horizontally, flip vertically, rotate, in
//! that order, applied once at build time — plus the skip-transparent flag.
//!
//! The built source is immutable and enumerates one `SetPixel` command per
//! retained pixel at the pixel's own coordinates.

use vstd::prelude::*;

use crate::command::Command;
use crate::coordinates::Coordinates;
use crate::generator::emit_commands;
use crate::generator::generated_commands;
use crate::generator::CommandGenerator;
use crate::pixel::Grid;
use crate::pixel::PixelBuffer;
use crate::transform::Reorient;

verus! {

/// A rotation by a quarter, half or three-quarter turn, clockwise: 90, 180
/// or 270 degrees.
#[derive(Copy, Clone, Eq, PartialEq, Structural, Debug)]
pub struct ImageRotation(pub u32);

impl ImageRotation {
    /// The rotation by the given angle; only 90, 180 and 270 are valid.
    pub fn new(rotation: u32) -> (r: Result<ImageRotation, &'static str>)
        ensures
            r is Ok <==> rotation == 90 || rotation == 180 || rotation == 270,
            r matches Ok(ir) ==> ir == ImageRotation(rotation),
    {
        match rotation {
            90 | 180 | 270 => Ok(ImageRotation(rotation)),
            _ => Err("rotation must be 90, 180 or 270"),
        }
    }
}

/// The pixel shuffle a rotation stands for. A value outside the three
/// valid angles rotates nothing.
pub open spec fn spec_rotation_step(g: Grid, rotation: ImageRotation) -> Grid {
    if rotation.0 == 90 {
        g.reoriented(Reorient::Rotate90)
    } else if rotation.0 == 180 {
        g.reoriented(Reorient::Rotate180)
    } else if rotation.0 == 270 {
        g.reoriented(Reorient::Rotate270)
    } else {
        g
    }
}

/// A built pixel source: the post-pipeline buffer and whether transparent
/// pixels are skipped when enumerating.
pub struct ImageSource {
    pub image: PixelBuffer,
    pub skip_transparent_pixels: bool,
}

impl CommandGenerator for ImageSource {
    open spec fn wf(&self) -> bool {
        self.image@.wf()
    }

    open spec fn command_seq(&self) -> Seq<Command> {
        generated_commands(self.image@, 0, 0, !self.skip_transparent_pixels)
    }

    fn commands(&self) -> (r: Vec<Command>) {
        emit_commands(&self.image, 0, 0, !self.skip_transparent_pixels)
    }
}

impl ImageSource {
    /// A builder over the given decoded buffer.
    pub fn builder(buffer: PixelBuffer) -> (r: ImageSourceBuilder)
        ensures
            r.buffer == buffer,
            r.section is None && r.resize is None && r.rotation is None,
            !r.skip_transparent && !r.flip_horizontally && !r.flip_vertically,
    {
        ImageSourceBuilder::new(buffer)
    }

    /// One `SetPixel` command per retained pixel, row-major, each at its
    /// own coordinates with its full RGBA color.
    pub fn as_commands(&self) -> (r: Vec<Command>)
        requires
            self.wf(),
        ensures
            r@ == self.command_seq(),
    {
        self.commands()
    }
}

/// Builder for an [`ImageSource`]: the optional transforms of the pipeline
/// and the skip-transparent flag.
pub struct ImageSourceBuilder {
    pub buffer: PixelBuffer,
    pub section: Option<(Coordinates, Coordinates)>,
    pub resize: Option<(u32, u32)>,
    pub skip_transparent: bool,
    pub flip_horizontally: bool,
    pub flip_vertically: bool,
    pub rotation: Option<ImageRotation>,
}

/// The grid the builder's source will hold: the pipeline applied in its
/// fixed order — resize (Gaussian), crop, flip horizontally, flip
/// vertically, rotate.
pub open spec fn spec_source_built(b: ImageSourceBuilder) -> Grid {
    let resized = match b.resize {
        Some(size) => b.buffer@.resized(size.0, size.1, true),
        None => b.buffer@,
    };
    let cropped = match b.section {
        Some(section) => resized.cropped(section.0, section.1),
        None => resized,
    };
    let flipped_h = if b.flip_horizontally {
        cropped.reoriented(Reorient::FlipHorizontal)
    } else {
        cropped
    };
    let flipped_v = if b.flip_vertically {
        flipped_h.reoriented(Reorient::FlipVertical)
    } else {
        flipped_h
    };
    match b.rotation {
        Some(rotation) => spec_rotation_step(flipped_v, rotation),
        None => flipped_v,
    }
}

impl ImageSourceBuilder {
    /// A builder with no transforms configured and transparent pixels kept.
    pub fn new(buffer: PixelBuffer) -> (r: ImageSourceBuilder)
        ensures
            r.buffer == buffer,
            r.section is None && r.resize is None && r.rotation is None,
            !r.skip_transparent && !r.flip_horizontally && !r.flip_vertically,
    {
        ImageSourceBuilder {
            buffer,
            section: None,
            resize: None,
            skip_transparent: false,
            flip_horizontally: false,
            flip_vertically: false,
            rotation: None,
        }
    }

    /// Set the resize target dimensions.
    pub fn resize(self, size: (u32, u32)) -> (r: ImageSourceBuilder)
        ensures
            r == (ImageSourceBuilder { resize: Some(size), ..self }),
    {
        ImageSourceBuilder { resize: Some(size), ..self }
    }

    /// Set the crop rectangle: from `min` inclusive to `max` exclusive.
    pub fn crop(self, min: Coordinates, max: Coordinates) -> (r: ImageSourceBuilder)
        ensures
            r == (ImageSourceBuilder { section: Some((min, max)), ..self }),
    {
        ImageSourceBuilder { section: Some((min, max)), ..self }
    }

    /// Whether to skip fully transparent pixels when enumerating.
    pub fn skip_transparent_pixels(self, skip: bool) -> (r: ImageSourceBuilder)
        ensures
            r == (ImageSourceBuilder { skip_transparent: skip, ..self }),
    {
        ImageSourceBuilder { skip_transparent: skip, ..self }
    }

    /// Mirror left-to-right.
    pub fn flip_horizontally(self) -> (r: ImageSourceBuilder)
        ensures
            r == (ImageSourceBuilder { flip_horizontally: true, ..self }),
    {
        ImageSourceBuilder { flip_horizontally: true, ..self }
    }

    /// Mirror top-to-bottom.
    pub fn flip_vertically(self) -> (r: ImageSourceBuilder)
        ensures
            r == (ImageSourceBuilder { flip_vertically: true, ..self }),
    {
        ImageSourceBuilder { flip_vertically: true, ..self }
    }

    /// Set the rotation, applied last.
    pub fn rotate(self, rotation: ImageRotation) -> (r: ImageSourceBuilder)
        ensures
            r == (ImageSourceBuilder { rotation: Some(rotation), ..self }),
    {
        ImageSourceBuilder { rotation: Some(rotation), ..self }
    }

    /// Run the pipeline once, in its fixed order, and hand out the
    /// immutable source.
    pub fn build(self) -> (r: ImageSource)
        requires
            self.buffer@.wf(),
        ensures
            r.image@ == spec_source_built(self),
            r.image@.wf(),
            r.skip_transparent_pixels == self.skip_transparent,
    {
        let ghost me = self;
        let skip_transparent_pixels = self.skip_transparent;
        let mut image = self.buffer;
        image = match self.resize {
            Some(size) => image.resized(size.0, size.1, true),
            None => image,
        };
        image = match self.section {
            Some(section) => image.cropped(section.0, section.1),
            None => image,
        };
        if self.flip_horizontally {
            image = image.reoriented(Reorient::FlipHorizontal);
        }
        if self.flip_vertically {
            image = image.reoriented(Reorient::FlipVertical);
        }
        image = match self.rotation {
            Some(rotation) => {
                if rotation.0 == 90 {
                    image.reoriented(Reorient::Rotate90)
                } else if rotation.0 == 180 {
                    image.reoriented(Reorient::Rotate180)
                } else if rotation.0 == 270 {
                    image.reoriented(Reorient::Rotate270)
                } else {
                    image
                }
            },
            None => image,
        };
        proof {
            assert(image@ =~= spec_source_built(me));
        }
        ImageSource { image, skip_transparent_pixels }
    }
}

} // verus!
