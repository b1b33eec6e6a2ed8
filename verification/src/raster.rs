//! Decoded images: a rectangular grid of [`Rgba`] pixels.

use crate::pixel::Rgba;
use vstd::prelude::*;

verus! {

/// Mathematical model of an image: its dimensions and its samples, four per
/// pixel (red, green, blue, alpha), pixels row by row from the top left.
pub struct ImageView {
    pub width: nat,
    pub height: nat,
    pub data: Seq<u8>,
}

impl ImageView {
    /// There are exactly four samples for each pixel of the grid.
    pub open spec fn wf(self) -> bool {
        self.data.len() == 4 * self.width * self.height
    }

    /// Position in `data` of the first sample of the pixel in column `x` of
    /// row `y`.
    pub open spec fn offset(self, x: int, y: int) -> int {
        4 * (y * self.width + x)
    }

    /// The pixel in column `x` of row `y`.
    pub open spec fn pixel(self, x: int, y: int) -> Rgba {
        let at = self.offset(x, y);
        Rgba([self.data[at], self.data[at + 1], self.data[at + 2], self.data[at + 3]])
    }

    /// Whether `pixel` is the pixel at some place of the image.
    pub open spec fn has_pixel(self, pixel: Rgba) -> bool {
        exists|x: int, y: int|
            0 <= x < self.width && 0 <= y < self.height && #[trigger] self.pixel(x, y) == pixel
    }

    /// Whether every pixel of the image is a pixel of `source`.
    pub open spec fn taken_from(self, source: ImageView) -> bool {
        forall|x: int, y: int|
            0 <= x < self.width && 0 <= y < self.height ==> source.has_pixel(
                #[trigger] self.pixel(x, y),
            )
    }
}

/// The image of `width` by `height` pixels with the samples `data`.
pub open spec fn grid(width: u32, height: u32, data: Seq<u8>) -> ImageView {
    ImageView { width: width as nat, height: height as nat, data }
}

/// The samples of the pixel in column `x` of row `y` lie inside the data of a
/// well-formed image.
pub proof fn lemma_offset_in_bounds(image: ImageView, x: int, y: int)
    requires
        image.wf(),
        0 <= x < image.width,
        0 <= y < image.height,
    ensures
        0 <= y * image.width,
        y * image.width + x < image.width * image.height,
        4 * (image.width * image.height) == image.data.len(),
        0 <= image.offset(x, y),
        image.offset(x, y) + 4 <= image.data.len(),
{
    let w = image.width as int;
    let h = image.height as int;
    assert(0 <= y * w) by (nonlinear_arith)
        requires
            0 <= y,
            0 <= w,
    ;
    assert(y * w + w <= h * w) by (nonlinear_arith)
        requires
            0 <= y < h,
            0 <= w,
    ;
    assert(h * w == w * h) by (nonlinear_arith);
    assert(4 * w * h == 4 * (w * h)) by (nonlinear_arith);
}

/// An image held in memory as eight-bit RGBA samples.
#[derive(Debug, PartialEq, Eq)]
pub struct Image {
    width: u32,
    height: u32,
    data: Vec<u8>,
}

impl View for Image {
    type V = ImageView;

    closed spec fn view(&self) -> ImageView {
        grid(self.width, self.height, self.data@)
    }
}

impl Clone for Image {
    /// A second image of the same dimensions and samples.
    fn clone(&self) -> (copy: Image)
        ensures
            copy@ == self@,
    {
        proof {
            use_type_invariant(self);
        }
        Image { width: self.width, height: self.height, data: self.data.clone() }
    }
}

impl Image {
    #[verifier::type_invariant]
    spec fn well_formed(self) -> bool {
        self@.wf()
    }

    /// Makes an image of the given dimensions from its samples. The samples
    /// are accepted exactly when there are four of them for each pixel.
    pub fn from_raw(width: u32, height: u32, data: Vec<u8>) -> (image: Option<Image>)
        ensures
            image is Some <==> data@.len() == 4 * width * height,
            image matches Some(made) ==> made@ == grid(width, height, data@),
    {
        assert(4 * width * height <= 4 * 0xffff_ffff * 0xffff_ffff) by (nonlinear_arith)
            requires
                width <= 0xffff_ffff,
                height <= 0xffff_ffff,
        ;
        let wanted: u128 = 4u128 * (width as u128) * (height as u128);
        if data.len() as u128 == wanted {
            Some(Image { width, height, data })
        } else {
            None
        }
    }

    /// Gives back the samples the image is made of.
    pub fn into_raw(self) -> (data: Vec<u8>)
        ensures
            data@ == self@.data,
            self@.wf(),
    {
        proof {
            use_type_invariant(&self);
        }
        self.data
    }

    /// Width and height of the image, in pixels.
    pub fn dimensions(&self) -> (size: (u32, u32))
        ensures
            size.0 == self@.width,
            size.1 == self@.height,
            self@.wf(),
    {
        proof {
            use_type_invariant(self);
        }
        (self.width, self.height)
    }

    /// The pixel in column `x` of row `y`, counted from the top left.
    pub fn get_pixel(&self, x: u32, y: u32) -> (pixel: Rgba)
        requires
            x < self@.width,
            y < self@.height,
        ensures
            pixel == self@.pixel(x as int, y as int),
    {
        proof {
            use_type_invariant(self);
            lemma_offset_in_bounds(self@, x as int, y as int);
            assert(self.data@.len() == self.data.len());
        }
        let at: usize = 4 * (y as usize * self.width as usize + x as usize);
        Rgba([self.data[at], self.data[at + 1], self.data[at + 2], self.data[at + 3]])
    }
}

} // verus!
