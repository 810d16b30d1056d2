use vstd::prelude::*;

verus! {

/// The channel arrangement of the source bytes. `Other` stands for any
/// arrangement the importer does not take directly; it carries a fully
/// materialized copy of the pixels converted to dense RGBA bytes, the
/// pipeline's only implicit allocation.
#[derive(Clone, Debug)]
pub enum PixelLayout {
    RGB,
    RGBA,
    BGR,
    BGRA,
    Other(Vec<u8>),
}

/// One of the four channel arrangements the codec's import primitives take.
#[derive(Clone, Copy, Debug, PartialEq, Eq, Structural)]
pub enum ImportLayout {
    RGB,
    RGBA,
    BGR,
    BGRA,
}

impl ImportLayout {
    /// Bytes per pixel of this arrangement.
    pub open spec fn bpp_spec(self) -> int {
        match self {
            ImportLayout::RGB => 3,
            ImportLayout::BGR => 3,
            ImportLayout::RGBA => 4,
            ImportLayout::BGRA => 4,
        }
    }

    /// Bytes per pixel: three without an alpha channel, four with one.
    pub fn bpp(self) -> (n: u32)
        ensures
            n == self.bpp_spec(),
    {
        match self {
            ImportLayout::RGB => 3,
            ImportLayout::BGR => 3,
            ImportLayout::RGBA => 4,
            ImportLayout::BGRA => 4,
        }
    }
}

impl PixelLayout {
    /// The arrangement actually handed to the importer: `Other` was
    /// normalized to RGBA when it was classified, every other case is
    /// imported as it is.
    pub open spec fn import_layout_spec(self) -> ImportLayout {
        match self {
            PixelLayout::RGB => ImportLayout::RGB,
            PixelLayout::RGBA => ImportLayout::RGBA,
            PixelLayout::BGR => ImportLayout::BGR,
            PixelLayout::BGRA => ImportLayout::BGRA,
            PixelLayout::Other(_) => ImportLayout::RGBA,
        }
    }

    /// Executable counterpart of `import_layout_spec`.
    pub fn import_layout(&self) -> (l: ImportLayout)
        ensures
            l == self.import_layout_spec(),
    {
        match self {
            PixelLayout::RGB => ImportLayout::RGB,
            PixelLayout::RGBA => ImportLayout::RGBA,
            PixelLayout::BGR => ImportLayout::BGR,
            PixelLayout::BGRA => ImportLayout::BGRA,
            PixelLayout::Other(_) => ImportLayout::RGBA,
        }
    }
}

} // verus!
