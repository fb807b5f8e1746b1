//! The image-to-command generator: walks a pixel buffer in row-major order
//! and emits one `SetPixel` command per retained pixel.
//!
//! Every command carries the pixel's full RGBA color — the alpha channel is
//! never dropped — at the pixel's position shifted by the configured offset.
//! A pixel is skipped exactly when its alpha is zero and transparent pixels
//! are not included; a skipped pixel emits nothing and every full pass over
//! the same source yields the identical sequence.

use vstd::prelude::*;

use crate::color::Color;
use crate::color::RgbaColor;
use crate::color::RgbColor;
use crate::command::Command;
use crate::command::SetPixelCommand;
use crate::coordinates::Coordinates;
use crate::pixel::lemma_flat_index;
use crate::pixel::Grid;
use crate::pixel::PixelBuffer;

verus! {

/// A restartable source of wire commands.
pub trait CommandGenerator {
    /// The generator's validity condition.
    spec fn wf(&self) -> bool;

    /// The command sequence the generator stands for. Every enumeration
    /// yields exactly this sequence.
    spec fn command_seq(&self) -> Seq<Command>;

    /// Enumerate the full command sequence, in order.
    fn commands(&self) -> (r: Vec<Command>)
        requires
            self.wf(),
        ensures
            r@ == self.command_seq(),
    ;
}

/// Whether a pixel emits a command: it does unless it is fully transparent
/// and transparent pixels are excluded.
pub open spec fn keep_pixel(p: crate::pixel::Pixel, with_transparent: bool) -> bool {
    with_transparent || p.a != 0
}

/// The command the pixel at flat index `k` emits: its cell position shifted
/// by the offset, and its color as RGBA with the alpha carried through.
pub open spec fn pixel_command(g: Grid, ox: int, oy: int, k: int) -> Command {
    let p = g.pixels[k];
    Command::SetPixel(
        SetPixelCommand {
            coordinates: Coordinates {
                x: (ox + k % g.width) as u32,
                y: (oy + k / g.width) as u32,
            },
            color: Color::Rgba(RgbaColor { rgb: RgbColor { r: p.r, g: p.g, b: p.b }, alpha: p.a }),
        },
    )
}

/// The commands of the first `count` cells, row-major, skipped pixels
/// emitting nothing.
pub open spec fn commands_upto(g: Grid, ox: int, oy: int, with_transparent: bool, count: int) -> Seq<
    Command,
>
    decreases count,
{
    if count <= 0 {
        Seq::empty()
    } else {
        commands_upto(g, ox, oy, with_transparent, count - 1) + (if keep_pixel(g.pixels[count - 1], with_transparent) {
            seq![pixel_command(g, ox, oy, count - 1)]
        } else {
            Seq::empty()
        })
    }
}

/// The full command sequence of a grid.
pub open spec fn generated_commands(g: Grid, ox: int, oy: int, with_transparent: bool) -> Seq<Command> {
    commands_upto(g, ox, oy, with_transparent, g.pixels.len() as int)
}

/// Walk the buffer row-major and emit one command per retained pixel:
/// the shared enumeration of every generator over a pixel buffer.
pub fn emit_commands(buffer: &PixelBuffer, ox: u32, oy: u32, with_transparent: bool) -> (r: Vec<
    Command,
>)
    requires
        buffer@.wf(),
        ox as int + buffer@.width <= u32::MAX as int + 1,
        oy as int + buffer@.height <= u32::MAX as int + 1,
    ensures
        r@ == generated_commands(buffer@, ox as int, oy as int, with_transparent),
{
    let w = buffer.width;
    let h = buffer.height;
    let total = buffer.pixels.len();
    let mut out: Vec<Command> = Vec::new();
    let mut k: usize = 0;
    while k < total
        invariant
            buffer@.wf(),
            ox as int + buffer@.width <= u32::MAX as int + 1,
            oy as int + buffer@.height <= u32::MAX as int + 1,
            w == buffer.width && h == buffer.height,
            total == buffer.pixels@.len(),
            0 <= k <= total,
            out@ == commands_upto(buffer@, ox as int, oy as int, with_transparent, k as int),
        decreases total - k,
    {
        proof {
            crate::transform::lemma_positive_area(w as int, h as int, k as int);
            lemma_flat_index(k as int, w as int, h as int);
        }
        let x = k % (w as usize);
        let y = k / (w as usize);
        let p = buffer.pixels[k];
        if with_transparent || p.a != 0 {
            let cx = ox + (x as u32);
            let cy = oy + (y as u32);
            out.push(
                Command::SetPixel(
                    SetPixelCommand {
                        coordinates: Coordinates { x: cx, y: cy },
                        color: Color::Rgba(
                            RgbaColor { rgb: RgbColor { r: p.r, g: p.g, b: p.b }, alpha: p.a },
                        ),
                    },
                ),
            );
        }
        k = k + 1;
        proof {
            assert(out@ =~= commands_upto(
                buffer@,
                ox as int,
                oy as int,
                with_transparent,
                k as int,
            ));
        }
    }
    out
}

/// A pixel source: a built pixel buffer, an offset, and the
/// include-transparent flag.
pub struct Image {
    pub buffer: PixelBuffer,
    pub offset: Coordinates,
    pub include_transparent_pixels: bool,
}

impl CommandGenerator for Image {
    /// The buffer is well formed and every emitted coordinate fits the
    /// protocol's 32-bit range.
    open spec fn wf(&self) -> bool {
        &&& self.buffer@.wf()
        &&& self.offset.x as int + self.buffer@.width <= u32::MAX as int + 1
        &&& self.offset.y as int + self.buffer@.height <= u32::MAX as int + 1
    }

    open spec fn command_seq(&self) -> Seq<Command> {
        generated_commands(
            self.buffer@,
            self.offset.x as int,
            self.offset.y as int,
            self.include_transparent_pixels,
        )
    }

    fn commands(&self) -> (r: Vec<Command>) {
        emit_commands(
            &self.buffer,
            self.offset.x,
            self.offset.y,
            self.include_transparent_pixels,
        )
    }
}

/// A fixed command sequence as a generator; the simplest upstream a sharder
/// can wrap.
pub struct VecCommandGenerator {
    pub commands: Vec<Command>,
}

impl CommandGenerator for VecCommandGenerator {
    open spec fn wf(&self) -> bool {
        true
    }

    open spec fn command_seq(&self) -> Seq<Command> {
        self.commands@
    }

    fn commands(&self) -> (r: Vec<Command>) {
        let mut out: Vec<Command> = Vec::new();
        let mut i: usize = 0;
        let n = self.commands.len();
        while i < n
            invariant
                0 <= i <= n,
                n == self.commands@.len(),
                out@ == self.commands@.take(i as int),
            decreases n - i,
        {
            out.push(self.commands[i]);
            i = i + 1;
            proof {
                assert(out@ =~= self.commands@.take(i as int));
            }
        }
        proof {
            assert(self.commands@.take(n as int) =~= self.commands@);
        }
        out
    }
}

/// Builder for an [`Image`] generator: offset (default none), an optional
/// resize target, and whether transparent pixels are included (default not).
pub struct CommandGeneratorBuilder {
    pub buffer: PixelBuffer,
    pub offset: Option<Coordinates>,
    pub resize: Option<(u32, u32)>,
    pub include_transparent: bool,
}

/// The grid the builder's image will hold: the source, resized with
/// Catmull-Rom interpolation when a target is set.
pub open spec fn spec_generator_built(b: CommandGeneratorBuilder) -> Grid {
    match b.resize {
        Some(size) => b.buffer@.resized(size.0, size.1, false),
        None => b.buffer@,
    }
}

/// The offset the builder's image will use: the configured one, or `(0, 0)`.
pub open spec fn spec_generator_offset(b: CommandGeneratorBuilder) -> Coordinates {
    match b.offset {
        Some(o) => o,
        None => Coordinates { x: 0, y: 0 },
    }
}

impl CommandGeneratorBuilder {
    /// A builder over the given buffer, with no offset, no resize, and
    /// transparent pixels excluded.
    pub fn new(buffer: PixelBuffer) -> (r: CommandGeneratorBuilder)
        ensures
            r.buffer == buffer,
            r.offset is None,
            r.resize is None,
            !r.include_transparent,
    {
        CommandGeneratorBuilder { buffer, offset: None, resize: None, include_transparent: false }
    }

    /// Set the resize target dimensions.
    pub fn resize(self, size: (u32, u32)) -> (r: CommandGeneratorBuilder)
        ensures
            r == (CommandGeneratorBuilder { resize: Some(size), ..self }),
    {
        CommandGeneratorBuilder { resize: Some(size), ..self }
    }

    /// Whether to generate commands for transparent pixels.
    pub fn include_transparent_pixels(self, with_transparent: bool) -> (r: CommandGeneratorBuilder)
        ensures
            r == (CommandGeneratorBuilder { include_transparent: with_transparent, ..self }),
    {
        CommandGeneratorBuilder { include_transparent: with_transparent, ..self }
    }

    /// Set the coordinate offset.
    pub fn offset(self, offset: Coordinates) -> (r: CommandGeneratorBuilder)
        ensures
            r == (CommandGeneratorBuilder { offset: Some(offset), ..self }),
    {
        CommandGeneratorBuilder { offset: Some(offset), ..self }
    }

    /// Build the image generator: resize if configured, fix the offset, and
    /// check that every coordinate the generator will emit fits the
    /// protocol's 32-bit range; `None` exactly when one would not.
    pub fn build(self) -> (r: Option<Image>)
        requires
            self.buffer@.wf(),
        ensures
            ({
                let built = spec_generator_built(self);
                let off = spec_generator_offset(self);
                match r {
                    Some(img) => img.buffer@ == built && img.offset == off
                        && img.include_transparent_pixels == self.include_transparent && img.wf(),
                    None => off.x as int + built.width > u32::MAX as int + 1 || off.y as int
                        + built.height > u32::MAX as int + 1,
                }
            }),
    {
        let ghost me = self;
        let offset = match self.offset {
            Some(o) => o,
            None => Coordinates { x: 0, y: 0 },
        };
        let include_transparent_pixels = self.include_transparent;
        let buffer = match self.resize {
            Some(size) => self.buffer.resized(size.0, size.1, false),
            None => self.buffer,
        };
        proof {
            assert(buffer@ =~= spec_generator_built(me));
        }
        if (offset.x as u64) + (buffer.width as u64) <= (u32::MAX as u64) + 1 && (offset.y as u64)
            + (buffer.height as u64) <= (u32::MAX as u64) + 1 {
            Some(Image { buffer, offset, include_transparent_pixels })
        } else {
            None
        }
    }
}

} // verus!
