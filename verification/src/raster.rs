//! Rasterisation of a vector document onto a square surface.
//!
//! Parsing, rendering and encoding are the work of `resvg` and its
//! companions `usvg` and `tiny_skia`. The parser and the renderer can panic
//! on documents that no condition on the bytes is known to single out, so
//! neither is called from here: the caller parses and draws, where it can
//! contain a panic, and this module holds what stands around those two
//! calls. It turns the parser's outcome into a document or a parse error,
//! reads the document's declared dimensions, allocates the blank square
//! surface for a target size, and encodes the drawn surface.

use vstd::prelude::*;
use crate::size::{TargetSize, MAX_SIZE};

verus! {

/// A parsed vector document, opaque to the verifier.
#[verifier::external_type_specification]
#[verifier::external_body]
pub struct ExTree(resvg::usvg::Tree);

/// The parser's error, opaque to the verifier.
#[verifier::external_type_specification]
#[verifier::external_body]
pub struct ExTreeError(resvg::usvg::Error);

/// A surface of premultiplied RGBA pixels, opaque to the verifier.
#[verifier::external_type_specification]
#[verifier::external_body]
pub struct ExPixmap(resvg::tiny_skia::Pixmap);

/// A width and a height, opaque to the verifier.
#[verifier::external_type_specification]
#[verifier::external_body]
pub struct ExDimensions(resvg::tiny_skia::Size);

/// Why a vector document could not be turned into a raster image.
#[derive(Clone, Copy, Debug, PartialEq, Eq, Structural)]
pub enum RasterError {
    /// The bytes are no vector document that the parser accepts.
    ParseError,
    /// No surface of the requested size can be allocated.
    SurfaceAllocationError,
    /// The rendered surface could not be encoded.
    EncodingError,
}

/// The width and height that a parsed document declares:
/// `usvg::Tree::size`.
pub uninterp spec fn declared_size(tree: resvg::usvg::Tree) -> resvg::tiny_skia::Size;

/// Calls `usvg::Tree::size`, which reads the size that the parser stored in
/// the tree: the same tree gives the same width and height. Nothing is
/// claimed of their values.
#[verifier::external_body]
fn tree_size(tree: &resvg::usvg::Tree) -> (dimensions: resvg::tiny_skia::Size)
    ensures
        dimensions == declared_size(*tree),
{
    tree.size()
}

/// The width of a surface in pixels: `tiny_skia::Pixmap::width`.
pub uninterp spec fn surface_width(surface: resvg::tiny_skia::Pixmap) -> nat;

/// The height of a surface in pixels: `tiny_skia::Pixmap::height`.
pub uninterp spec fn surface_height(surface: resvg::tiny_skia::Pixmap) -> nat;

/// The bytes that a surface holds, four a pixel, row by row:
/// `tiny_skia::Pixmap::data`.
pub uninterp spec fn surface_pixels(surface: resvg::tiny_skia::Pixmap) -> Seq<u8>;

/// What `tiny_skia::Pixmap::encode_png` makes of a surface with these bytes,
/// this width and this height: the PNG, or nothing where the encoder fails.
pub uninterp spec fn png_of(pixels: Seq<u8>, width: nat, height: nat) -> Option<Seq<u8>>;

/// The four bytes of a 32-bit number, most significant first.
pub open spec fn big_endian(n: nat) -> Seq<u8> {
    seq![
        ((n / 0x100_0000) % 0x100) as u8,
        ((n / 0x1_0000) % 0x100) as u8,
        ((n / 0x100) % 0x100) as u8,
        (n % 0x100) as u8,
    ]
}

/// How every PNG of a given width and height begins: the signature, then
/// the length and the type of the header chunk, then width and height.
pub open spec fn png_start(width: nat, height: nat) -> Seq<u8> {
    seq![137u8, 80, 78, 71, 13, 10, 26, 10, 0, 0, 0, 13, 73, 72, 68, 82] + big_endian(width)
        + big_endian(height)
}

/// Whether bytes begin as a PNG of the given width and height does.
pub open spec fn is_png_of_size(png: Seq<u8>, width: nat, height: nat) -> bool {
    png.len() >= 24 && png.subrange(0, 24) == png_start(width, height)
}

/// The bytes of a fresh surface of the given side: four zero bytes a pixel,
/// transparent black.
pub open spec fn blank(side: nat) -> Seq<u8> {
    Seq::new(4 * side * side, |i: int| 0u8)
}

/// Calls `tiny_skia::Pixmap::new` for a square of the given side. It
/// refuses a zero side; for a side up to `MAX_SIZE` the row and buffer
/// lengths it checks (four bytes a pixel, a row within `i32`, the buffer
/// within `usize`) always fit, so that is the only refusal. The surface it
/// gives is `side` wide and `side` high and holds four zero bytes a pixel:
/// transparent black.
#[verifier::external_body]
fn new_surface(side: u32) -> (surface: Option<resvg::tiny_skia::Pixmap>)
    requires
        side <= MAX_SIZE,
    ensures
        surface.is_some() <==> side >= 1,
        surface.is_some() ==> {
            &&& surface_width(surface.unwrap()) == side
            &&& surface_height(surface.unwrap()) == side
            &&& surface_pixels(surface.unwrap()) == blank(side as nat)
        },
{
    resvg::tiny_skia::Pixmap::new(side, side)
}

/// Calls `tiny_skia::Pixmap::encode_png` and keeps of an encoder error only
/// its message. The outcome depends on the surface's bytes, width and
/// height alone. A PNG that it gives begins with the signature and the
/// header chunk, in which the encoder writes width and height first.
#[verifier::external_body]
fn encode_surface(surface: &resvg::tiny_skia::Pixmap) -> (encoded: Result<Vec<u8>, String>)
    ensures
        match encoded {
            Ok(png) => {
                &&& png_of(
                    surface_pixels(*surface),
                    surface_width(*surface),
                    surface_height(*surface),
                ) == Some(png@)
                &&& is_png_of_size(png@, surface_width(*surface), surface_height(*surface))
            },
            Err(_) => png_of(
                surface_pixels(*surface),
                surface_width(*surface),
                surface_height(*surface),
            ) is None,
        },
{
    surface.encode_png().map_err(|e| e.to_string())
}

/// A vector document that the parser accepted.
pub struct Document {
    tree: resvg::usvg::Tree,
}

/// Whether a rasteriser's result is what follows from the encoder's
/// outcome: the PNG it made, or an encoding error where it made none.
pub open spec fn raster_matches(r: Result<Vec<u8>, RasterError>, png: Option<Seq<u8>>) -> bool {
    match png {
        Some(bytes) => match r {
            Ok(out) => out@ == bytes,
            Err(_) => false,
        },
        None => r == Err::<Vec<u8>, RasterError>(RasterError::EncodingError),
    }
}

/// What the encoder's outcome means for the rasteriser: its bytes, or an
/// encoding error.
pub open spec fn encoded_outcome(encoded: Result<Vec<u8>, String>) -> Result<Vec<u8>, RasterError> {
    match encoded {
        Ok(png) => Ok(png),
        Err(_) => Err(RasterError::EncodingError),
    }
}

/// Turns the encoder's outcome into the rasteriser's.
pub fn encoded(outcome: Result<Vec<u8>, String>) -> (r: Result<Vec<u8>, RasterError>)
    ensures
        r == encoded_outcome(outcome),
{
    match outcome {
        Ok(png) => Ok(png),
        Err(_) => Err(RasterError::EncodingError),
    }
}

impl Document {
    /// The parsed document that this value holds.
    pub closed spec fn tree(self) -> resvg::usvg::Tree {
        self.tree
    }

    /// The document that the parser made of some bytes, or a parse error
    /// where it made none.
    pub fn from_parsed(parsed: Result<resvg::usvg::Tree, resvg::usvg::Error>) -> (r: Result<
        Document,
        RasterError,
    >)
        ensures
            match (parsed, r) {
                (Ok(tree), Ok(document)) => document.tree() == tree,
                (Err(_), Err(e)) => e == RasterError::ParseError,
                _ => false,
            },
    {
        match parsed {
            Ok(tree) => Ok(Document { tree }),
            Err(_) => Err(RasterError::ParseError),
        }
    }

    /// The parsed document, for the renderer.
    pub fn as_tree(&self) -> (tree: &resvg::usvg::Tree)
        ensures
            *tree == self.tree(),
    {
        &self.tree
    }

    /// The width and height that the document declares.
    pub fn dimensions(&self) -> (dimensions: resvg::tiny_skia::Size)
        ensures
            dimensions == declared_size(self.tree()),
    {
        tree_size(&self.tree)
    }
}

/// Allocates the surface for a target size: `size` by `size` pixels, all
/// transparent. A zero size is refused with a surface allocation error, and
/// it is the only size that is.
pub fn blank_surface(size: TargetSize) -> (r: Result<resvg::tiny_skia::Pixmap, RasterError>)
    ensures
        match r {
            Ok(surface) => {
                &&& size@ >= 1
                &&& surface_width(surface) == size@
                &&& surface_height(surface) == size@
                &&& surface_pixels(surface) == blank(size@)
            },
            Err(e) => size@ == 0 && e == RasterError::SurfaceAllocationError,
        },
{
    match new_surface(size.get()) {
        Some(surface) => Ok(surface),
        None => Err(RasterError::SurfaceAllocationError),
    }
}

/// Encodes a surface as PNG. The result is what the encoder makes of the
/// surface's bytes, width and height: its PNG, whose header declares that
/// width and height, or an encoding error where the encoder fails.
pub fn encode(surface: &resvg::tiny_skia::Pixmap) -> (r: Result<Vec<u8>, RasterError>)
    ensures
        raster_matches(
            r,
            png_of(surface_pixels(*surface), surface_width(*surface), surface_height(*surface)),
        ),
        match r {
            Ok(png) => is_png_of_size(png@, surface_width(*surface), surface_height(*surface)),
            Err(_) => true,
        },
{
    encoded(encode_surface(surface))
}

} // verus!
