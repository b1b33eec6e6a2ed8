//! Rendering an image as lines of characters.

use crate::pixel::{get_char, glyph, lemma_alpha_ignored};
use crate::raster::{Image, ImageView};
use vstd::arithmetic::div_mod::lemma_fundamental_div_mod_converse;
use vstd::prelude::*;

verus! {

/// `String::push` of the standard library appends one character to the end of
/// the string and leaves the characters before it as they were.
pub assume_specification[ String::push ](text: &mut String, ch: char)
    ensures
        final(text)@ == old(text)@.push(ch),
;

/// The text of an image: its rows from top to bottom, each row the characters
/// of its pixels from left to right followed by a line feed. The character at
/// position `at` belongs to row `at / (width + 1)`; it is the line feed when
/// `at % (width + 1)` is the width, else the character of the pixel in that
/// column.
pub open spec fn rendered(image: ImageView) -> Seq<char> {
    let stride = image.width as int + 1;
    Seq::new(
        (image.height * stride) as nat,
        |at: int|
            if at % stride == image.width {
                '\n'
            } else {
                glyph(image.pixel(at % stride, at / stride))
            },
    )
}

/// Whether `c` is the character of the pixel at some place of the image.
pub open spec fn has_glyph(image: ImageView, c: char) -> bool {
    exists|x: int, y: int|
        0 <= x < image.width && 0 <= y < image.height && glyph(#[trigger] image.pixel(x, y)) == c
}

/// The text of an image has one character for each pixel and one line feed
/// for each row.
pub proof fn lemma_rendered_len(image: ImageView)
    ensures
        rendered(image).len() == image.height * (image.width + 1),
{
    let stride = image.width as int + 1;
    let h = image.height as int;
    assert(0 <= h * stride) by (nonlinear_arith)
        requires
            0 <= h,
            0 <= stride,
    ;
}

/// Where column `x` of row `y` stands in the text, `x == width` being the
/// place of the row's line feed.
pub proof fn lemma_text_position(image: ImageView, x: int, y: int)
    requires
        0 <= x <= image.width,
        0 <= y < image.height,
    ensures
        rendered(image).len() == image.height * (image.width + 1),
        0 <= y * (image.width + 1) + x < rendered(image).len(),
        (y + 1) * (image.width + 1) == y * (image.width + 1) + image.width + 1,
        (y * (image.width + 1) + x) % (image.width as int + 1) == x,
        (y * (image.width + 1) + x) / (image.width as int + 1) == y,
{
    let stride = image.width as int + 1;
    let h = image.height as int;
    assert(0 <= y * stride) by (nonlinear_arith)
        requires
            0 <= y,
            0 <= stride,
    ;
    assert((y + 1) * stride == y * stride + stride) by (nonlinear_arith);
    assert((y + 1) * stride <= h * stride) by (nonlinear_arith)
        requires
            y + 1 <= h,
            0 <= stride,
    ;
    lemma_fundamental_div_mod_converse(y * stride + x, stride, y, x);
}

/// Row and column of the character at position `at` of the text.
pub proof fn lemma_grid_position(image: ImageView, at: int)
    requires
        0 <= at < rendered(image).len(),
    ensures
        0 <= at / (image.width as int + 1) < image.height,
        0 <= at % (image.width as int + 1) <= image.width,
{
    let stride = image.width as int + 1;
    let h = image.height as int;
    lemma_rendered_len(image);
    assert(0 <= at / stride < h && 0 <= at % stride < stride) by (nonlinear_arith)
        requires
            0 <= at < h * stride,
            0 < stride,
    ;
}

/// Every character of the text of an image is a line feed or the character
/// of one of its pixels.
pub proof fn lemma_rendered_characters(image: ImageView, at: int)
    requires
        0 <= at < rendered(image).len(),
    ensures
        rendered(image)[at] == '\n' || has_glyph(image, rendered(image)[at]),
{
    let stride = image.width as int + 1;
    lemma_grid_position(image, at);
    if at % stride != image.width {
        assert(glyph(image.pixel(at % stride, at / stride)) == rendered(image)[at]);
    }
}

/// Images of the same dimensions whose pixels agree in red, green and blue
/// have the same text, whatever their alpha channels hold.
pub proof fn lemma_render_ignores_alpha(first: ImageView, second: ImageView)
    requires
        first.width == second.width,
        first.height == second.height,
        forall|x: int, y: int|
            #![trigger first.pixel(x, y)]
            #![trigger second.pixel(x, y)]
            0 <= x < first.width && 0 <= y < first.height ==> {
                &&& first.pixel(x, y).0[0] == second.pixel(x, y).0[0]
                &&& first.pixel(x, y).0[1] == second.pixel(x, y).0[1]
                &&& first.pixel(x, y).0[2] == second.pixel(x, y).0[2]
            },
    ensures
        rendered(first) == rendered(second),
{
    let stride = first.width as int + 1;
    assert forall|at: int| 0 <= at < rendered(first).len() implies rendered(first)[at]
        == rendered(second)[at] by {
        lemma_grid_position(first, at);
        if at % stride != first.width {
            lemma_alpha_ignored(
                first.pixel(at % stride, at / stride),
                second.pixel(at % stride, at / stride),
            );
        }
    }
    assert(rendered(first) =~= rendered(second));
}

/// The text of an image without rows is empty, and only of such an image;
/// an image with rows but without columns has one line feed for each row.
pub proof fn lemma_render_without_pixels(image: ImageView)
    ensures
        rendered(image).len() == 0 <==> image.height == 0,
        image.height == 0 ==> rendered(image) == Seq::<char>::empty(),
        image.width == 0 ==> rendered(image) == Seq::new(image.height, |at: int| '\n'),
{
    let stride = image.width as int + 1;
    let h = image.height as int;
    assert(h * stride == 0 <==> h == 0) by (nonlinear_arith)
        requires
            0 <= h,
            0 < stride,
    ;
    assert(rendered(image).len() == 0 <==> image.height == 0);
    if image.height == 0 {
        assert(rendered(image) =~= Seq::<char>::empty());
    }
    if image.width == 0 {
        assert(h * stride == h) by (nonlinear_arith)
            requires
                stride == 1,
        ;
        assert(rendered(image) =~= Seq::new(image.height, |at: int| '\n'));
    }
}

/// Renders an image as text: one character for each pixel, row by row, and a
/// line feed after each row, the last one too.
pub fn render(image: &Image) -> (text: String)
    ensures
        text@ == rendered(image@),
        text@.len() == image@.height * (image@.width + 1),
{
    let (width, height) = image.dimensions();
    let ghost whole = rendered(image@);
    let ghost stride = width as int + 1;
    let mut text = String::new();

    for y in 0..height
        invariant
            width == image@.width,
            height == image@.height,
            whole == rendered(image@),
            stride == width + 1,
            text@ == whole.take(y * stride),
    {
        for x in 0..width
            invariant
                y < height,
                width == image@.width,
                height == image@.height,
                whole == rendered(image@),
                stride == width + 1,
                text@ == whole.take(y * stride + x),
        {
            let pixel = image.get_pixel(x, y);
            text.push(get_char(&pixel));
            proof {
                lemma_text_position(image@, x as int, y as int);
                assert(whole.take(y * stride + x).push(whole[y * stride + x]) =~= whole.take(
                    y * stride + x + 1,
                ));
            }
        }
        text.push('\n');
        proof {
            lemma_text_position(image@, width as int, y as int);
            assert(whole.take(y * stride + width).push(whole[y * stride + width]) =~= whole.take(
                (y + 1) * stride,
            ));
        }
    }
    proof {
        assert(text@ =~= whole);
    }
    text
}

} // verus!
