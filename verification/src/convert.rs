//! The whole conversion: resize, then render.

use crate::config::{scaled_height, scaled_width, Config};
use crate::pixel::glyph;
use crate::raster::{Image, ImageView};
use crate::render::{
    has_glyph, lemma_render_without_pixels, lemma_rendered_characters, render, rendered,
};
use crate::resize::{prepared, scalable, scale_image};
use vstd::prelude::*;

verus! {

/// The text of an image under a configuration: the resized image, rendered.
pub open spec fn converted(image: ImageView, config: Config) -> Seq<char> {
    rendered(prepared(image, config))
}

/// Converts an image into character art: resizes it as `config` asks and
/// renders the result, one line of text for each row of pixels.
pub fn convert_image_to_ascii(image: Image, config: &Config) -> (text: String)
    requires
        config.wf(),
        scalable(image@, *config),
    ensures
        text@ == converted(image@, *config),
        text@.len() == scaled_height(image@.height, *config) * (scaled_width(
            image@.width,
            *config,
        ) + 1),
        forall|at: int|
            0 <= at < text@.len() ==> #[trigger] text@[at] == '\n' || has_glyph(image@, text@[at]),
{
    let ghost source = image@;
    let scaled = scale_image(image, config);
    let text = render(&scaled);
    proof {
        assert forall|at: int| 0 <= at < text@.len() implies #[trigger] text@[at] == '\n'
            || has_glyph(source, text@[at]) by {
            lemma_rendered_characters(scaled@, at);
            if text@[at] != '\n' {
                let (x, y) = choose|x: int, y: int|
                    0 <= x < scaled@.width && 0 <= y < scaled@.height && glyph(
                        #[trigger] scaled@.pixel(x, y),
                    ) == text@[at];
                assert(source.has_pixel(scaled@.pixel(x, y)));
            }
        }
    }
    text
}

/// Where the resized image has no rows, the text is empty.
pub proof fn lemma_convert_to_no_rows(image: ImageView, config: Config)
    requires
        scaled_height(image.height, config) == 0,
    ensures
        converted(image, config) == Seq::<char>::empty(),
{
    lemma_render_without_pixels(prepared(image, config));
}

/// Converting is deterministic: whatever two conversions of one image under
/// one configuration return, they return the same text.
pub proof fn lemma_convert_deterministic(
    image: ImageView,
    config: Config,
    first: Seq<char>,
    second: Seq<char>,
)
    requires
        first == converted(image, config),
        second == converted(image, config),
    ensures
        first == second,
{
}

} // verus!
