use vstd::prelude::*;

verus! {

/// An immutable encoder configuration: the four caller-facing knobs plus the
/// fixed advanced-tuning defaults that this layer deliberately does not
/// surface for adjustment. Quality is an integer percentage; out-of-range
/// values are passed through to the codec's own initialization, which may
/// clamp or reject them.
#[derive(Clone, Copy, Debug, PartialEq, Eq, Structural)]
pub struct Config {
    pub lossless: bool,
    pub quality: i32,
    pub method: i32,
    pub multi_threading: bool,
    pub target_size: i32,
    pub segments: i32,
    pub sns_strength: i32,
    pub filter_strength: i32,
    pub filter_sharpness: i32,
    pub filter_type: i32,
    pub autofilter: i32,
    pub alpha_compression: i32,
    pub alpha_filtering: i32,
    pub alpha_quality: i32,
    pub pass: i32,
    pub show_compressed: i32,
    pub preprocessing: i32,
    pub partitions: i32,
    pub partition_limit: i32,
    pub emulate_jpeg_size: i32,
    pub low_memory: i32,
    pub near_lossless: i32,
    pub exact: i32,
    pub use_delta_palette: i32,
    pub use_sharp_yuv: i32,
    pub qmin: i32,
    pub qmax: i32,
}

/// Builds the encoder configuration.
///
///     - lossless:
///         Whether the image should be compressed without loss.
///
///     - quality:
///         The amount of effort put into the compression: 0 is the
///         fastest but gives larger files compared to the slowest,
///         but best, 100.
///
///     - method:
///         The quality / speed trade-off (0=fast, 6=slower-better).
///
///     - multi_threading:
///         Whether the codec should attempt multi-threaded encoding.
///
/// Pure and total: every other field takes its fixed default.
pub fn config(lossless: bool, quality: i32, method: i32, multi_threading: bool) -> (c: Config)
    ensures
        c.lossless == lossless,
        c.quality == quality,
        c.method == method,
        c.multi_threading == multi_threading,
        c.target_size == 0,
        c.segments == 4,
        c.sns_strength == 0,
        c.filter_strength == 0,
        c.filter_sharpness == 0,
        c.filter_type == 0,
        c.autofilter == 0,
        c.alpha_compression == 1,
        c.alpha_filtering == 1,
        c.alpha_quality == 100,
        c.pass == 5,
        c.show_compressed == 1,
        c.preprocessing == 0,
        c.partitions == 0,
        c.partition_limit == 0,
        c.emulate_jpeg_size == 0,
        c.low_memory == 0,
        c.near_lossless == 100,
        c.exact == 0,
        c.use_delta_palette == 0,
        c.use_sharp_yuv == 0,
        c.qmin == 0,
        c.qmax == 100,
{
    Config {
        lossless,
        quality,
        method,
        multi_threading,
        target_size: 0,
        segments: 4,
        sns_strength: 0,
        filter_strength: 0,
        filter_sharpness: 0,
        filter_type: 0,
        autofilter: 0,
        alpha_compression: 1,
        alpha_filtering: 1,
        alpha_quality: 100,
        pass: 5,
        show_compressed: 1,
        preprocessing: 0,
        partitions: 0,
        partition_limit: 0,
        emulate_jpeg_size: 0,
        low_memory: 0,
        near_lossless: 100,
        exact: 0,
        use_delta_palette: 0,
        use_sharp_yuv: 0,
        qmin: 0,
        qmax: 100,
    }
}

} // verus!
