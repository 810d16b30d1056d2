use vstd::prelude::*;

verus! {

use crate::config::Config;
use crate::layout::PixelLayout;

/// A decoded source image, as this layer reads it: its raw bytes, its
/// geometry, and which of the supported 8-bit layouts those bytes are in.
/// A source in any other arrangement arrives as `Other`, together with the
/// one full conversion of its pixels into dense RGBA bytes that the import
/// step needs.
pub enum SourceImage<'a> {
    Rgb8 { bytes: &'a [u8], width: u32, height: u32 },
    Rgba8 { bytes: &'a [u8], width: u32, height: u32 },
    Other { bytes: &'a [u8], width: u32, height: u32, rgba: Vec<u8> },
}

/// An encode job: configuration, pixel layout, borrowed image bytes and
/// geometry. Immutable after construction and consumed by `encode`.
pub struct Encoder<'a> {
    pub cfg: Config,
    pub layout: PixelLayout,
    pub image: &'a [u8],
    pub width: u32,
    pub height: u32,
}

impl<'a> Encoder<'a> {
    /// Creates a new encoder from the given image data in the RGB pixel layout.
    pub fn from_rgb(cfg: Config, image: &'a [u8], width: u32, height: u32) -> (r: Self)
        ensures
            r.cfg == cfg,
            r.layout is RGB,
            r.image == image,
            r.width == width,
            r.height == height,
    {
        Self { cfg, image, width, height, layout: PixelLayout::RGB }
    }

    /// Creates a new encoder from the given image data in the RGBA pixel layout.
    pub fn from_rgba(cfg: Config, image: &'a [u8], width: u32, height: u32) -> (r: Self)
        ensures
            r.cfg == cfg,
            r.layout is RGBA,
            r.image == image,
            r.width == width,
            r.height == height,
    {
        Self { cfg, image, width, height, layout: PixelLayout::RGBA }
    }

    /// Creates a new encoder from the given image data in the Other layout;
    /// `rgba` is the copy of the data already converted to RGBA, which is
    /// what the encode step will hand to the importer in place of `image`.
    pub fn from_other(cfg: Config, image: &'a [u8], width: u32, height: u32, rgba: Vec<u8>) -> (r:
        Self)
        ensures
            r.cfg == cfg,
            r.layout == PixelLayout::Other(rgba),
            r.image == image,
            r.width == width,
            r.height == height,
    {
        Self { cfg, image, width, height, layout: PixelLayout::Other(rgba) }
    }

    /// Creates a new encoder from the given image: sources already in a
    /// supported 8-bit layout are taken directly, anything else goes through
    /// the Other path with its pre-converted RGBA copy.
    pub fn from_image(cfg: Config, image: SourceImage<'a>) -> (r: Self)
        ensures
            r.cfg == cfg,
            image matches SourceImage::Rgb8 { bytes, width, height } ==> r.layout is RGB
                && r.image == bytes && r.width == width && r.height == height,
            image matches SourceImage::Rgba8 { bytes, width, height } ==> r.layout is RGBA
                && r.image == bytes && r.width == width && r.height == height,
            image matches SourceImage::Other { bytes, width, height, rgba } ==> r.layout
                == PixelLayout::Other(rgba) && r.image == bytes && r.width == width && r.height
                == height,
    {
        match image {
            SourceImage::Rgb8 { bytes, width, height } => Self::from_rgb(
                cfg,
                bytes,
                width,
                height,
            ),
            SourceImage::Rgba8 { bytes, width, height } => Self::from_rgba(
                cfg,
                bytes,
                width,
                height,
            ),
            SourceImage::Other { bytes, width, height, rgba } => Self::from_other(
                cfg,
                bytes,
                width,
                height,
                rgba,
            ),
        }
    }
}

} // verus!
