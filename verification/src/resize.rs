//! Resizing an image for display in character cells.

use crate::config::{scaled_dimensions, scaled_height, scaled_width, Config};
use crate::raster::{grid, Image, ImageView};
use vstd::prelude::*;

verus! {

/// The samples that nearest-neighbour resampling of the `image` crate gives
/// for an RGBA image of `width` by `height` pixels with samples `data`,
/// resized to `nwidth` by `nheight` pixels.
pub uninterp spec fn nearest_neighbor(
    data: Seq<u8>,
    width: nat,
    height: nat,
    nwidth: nat,
    nheight: nat,
) -> Seq<u8>;

/// Whether the buffers that resampling from `width` by `height` to `nwidth`
/// by `nheight` pixels allocates stay within the largest allocation: the
/// result, of four bytes a pixel, and, where the image is resampled rather
/// than copied, an intermediate image of `width` by `nheight` pixels of
/// sixteen bytes each.
pub open spec fn resample_fits(width: nat, height: nat, nwidth: nat, nheight: nat) -> bool {
    &&& 4 * nwidth * nheight <= isize::MAX
    &&& (width > 0 && height > 0 && !(nwidth == width && nheight == height)) ==> 16 * width
        * nheight <= isize::MAX
}

/// Calls `image::imageops::resize` with `FilterType::Nearest` on the image
/// made of `data`.
///
/// Trusted: the result is a function of the arguments alone and has the
/// dimensions asked for, so four samples for each of `nwidth * nheight`
/// pixels. Where the dimensions asked for are those of the image, the result
/// is a copy of it. Nothing is blended: the filter has a window of one pixel
/// with weight one, along the rows and along the columns, so each pixel of
/// the result is a pixel of the image, as long as the image has any.
/// `requires` leaves out the sizes at which the buffers that the call
/// allocates would be refused.
#[verifier::external_body]
fn resample_nearest(width: u32, height: u32, data: Vec<u8>, nwidth: u32, nheight: u32) -> (out:
    Vec<u8>)
    requires
        data@.len() == 4 * width * height,
        resample_fits(width as nat, height as nat, nwidth as nat, nheight as nat),
    ensures
        out@ == nearest_neighbor(
            data@,
            width as nat,
            height as nat,
            nwidth as nat,
            nheight as nat,
        ),
        out@.len() == 4 * nwidth * nheight,
        nwidth == width && nheight == height ==> out@ == data@,
        width > 0 && height > 0 ==> grid(nwidth, nheight, out@).taken_from(
            grid(width, height, data@),
        ),
{
    let source = ::image::RgbaImage::from_raw(width, height, data).unwrap();
    ::image::imageops::resize(&source, nwidth, nheight, ::image::imageops::FilterType::Nearest)
        .into_raw()
}

/// The image that [`scale_image`] makes of `image`: `width * scale` pixels
/// wide and `height * scale * char_width / char_height` pixels high, both
/// rounded down. Where these are the dimensions of `image` it is `image`
/// itself, else the result of nearest-neighbour resampling.
pub open spec fn prepared(image: ImageView, config: Config) -> ImageView {
    let nwidth = scaled_width(image.width, config);
    let nheight = scaled_height(image.height, config);
    if nwidth == image.width && nheight == image.height {
        image
    } else {
        ImageView {
            width: nwidth,
            height: nheight,
            data: nearest_neighbor(image.data, image.width, image.height, nwidth, nheight),
        }
    }
}

/// An image without columns is resized to one without columns, and one
/// without rows to one without rows.
pub proof fn lemma_nothing_scales_to_nothing(config: Config)
    requires
        config.wf(),
    ensures
        scaled_width(0, config) == 0,
        scaled_height(0, config) == 0,
{
    assert(0 * config.scale.num == 0) by (nonlinear_arith);
    assert(0 * config.scale.num * config.char_width == 0) by (nonlinear_arith);
    assert(0 < config.scale.den * config.char_height) by (nonlinear_arith)
        requires
            0 < config.scale.den,
            0 < config.char_height,
    ;
}

/// Whether `image` can be resized as `config` asks within the limits of
/// memory.
pub open spec fn scalable(image: ImageView, config: Config) -> bool {
    resample_fits(
        image.width,
        image.height,
        scaled_width(image.width, config),
        scaled_height(image.height, config),
    )
}

/// Tells whether [`scale_image`] accepts `image` with `config`.
pub fn can_scale(image: &Image, config: &Config) -> (fits: bool)
    ensures
        fits == (config.wf() && scalable(image@, *config)),
{
    if !config.is_valid() {
        return false;
    }
    let (width, height) = image.dimensions();
    let (nwidth, nheight) = scaled_dimensions(width, height, config);
    let limit: u128 = isize::MAX as u128;
    assert(4 * nwidth * nheight <= 4 * 0xffff_ffff * 0xffff_ffff) by (nonlinear_arith)
        requires
            nwidth <= 0xffff_ffff,
            nheight <= 0xffff_ffff,
    ;
    assert(16 * width * nheight <= 16 * 0xffff_ffff * 0xffff_ffff) by (nonlinear_arith)
        requires
            width <= 0xffff_ffff,
            nheight <= 0xffff_ffff,
    ;
    let result: u128 = 4u128 * (nwidth as u128) * (nheight as u128);
    let between: u128 = 16u128 * (width as u128) * (nheight as u128);
    let copied = width == 0 || height == 0 || (nwidth == width && nheight == height);
    result <= limit && (copied || between <= limit)
}

/// Resizes an image so that, with one character printed for each pixel, it
/// appears in proportion on a terminal whose character cells are
/// `char_width` wide and `char_height` high.
pub fn scale_image(image: Image, config: &Config) -> (scaled: Image)
    requires
        config.wf(),
        scalable(image@, *config),
    ensures
        scaled@ == prepared(image@, *config),
        scaled@.wf(),
        scaled@.taken_from(image@),
{
    let (width, height) = image.dimensions();
    let (nwidth, nheight) = scaled_dimensions(width, height, config);
    proof {
        lemma_nothing_scales_to_nothing(*config);
    }
    let data = resample_nearest(width, height, image.into_raw(), nwidth, nheight);
    Image::from_raw(nwidth, nheight, data).unwrap()
}

} // verus!
