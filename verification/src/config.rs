//! How an image is to be resized before it is rendered.

use vstd::arithmetic::div_mod::lemma_div_by_multiple;
use vstd::prelude::*;

verus! {

/// A scale factor, held exactly as the fraction `num / den`.
#[derive(Clone, Copy, Debug, PartialEq, Eq)]
pub struct Scale {
    pub num: u32,
    pub den: u32,
}

impl Scale {
    /// The fraction is defined and greater than zero.
    pub open spec fn wf(self) -> bool {
        self.num > 0 && self.den > 0
    }

    /// The scale factor `num / den`.
    pub fn new(num: u32, den: u32) -> (scale: Scale)
        ensures
            scale == (Scale { num, den }),
    {
        Scale { num, den }
    }
}

/// Parameters of a conversion: the scale factor and the width and height of
/// one character cell of the terminal, whose ratio corrects for cells that
/// are not square.
#[derive(Clone, Copy, Debug, PartialEq, Eq)]
pub struct Config {
    pub scale: Scale,
    pub char_width: u32,
    pub char_height: u32,
}

impl Config {
    /// The scale is positive and the character cell is at least one unit
    /// wide and one unit high.
    pub open spec fn wf(self) -> bool {
        self.scale.wf() && self.char_width >= 1 && self.char_height >= 1
    }

    /// A configuration of the given parts, which are taken as they are.
    pub fn new(scale: Scale, char_width: u32, char_height: u32) -> (config: Config)
        ensures
            config == (Config { scale, char_width, char_height }),
    {
        Config { scale, char_width, char_height }
    }

    /// Tells whether the configuration can be used for a conversion.
    pub fn is_valid(&self) -> (valid: bool)
        ensures
            valid == self.wf(),
    {
        self.scale.num > 0 && self.scale.den > 0 && self.char_width >= 1 && self.char_height >= 1
    }
}

impl Default for Config {
    /// Scale 1 and a square character cell: the image keeps its dimensions.
    fn default() -> (config: Config)
        ensures
            config == (Config { scale: Scale { num: 1, den: 1 }, char_width: 1, char_height: 1 }),
    {
        Config { scale: Scale { num: 1, den: 1 }, char_width: 1, char_height: 1 }
    }
}

/// The largest dimension an image can have.
pub open spec fn max_dimension() -> int {
    u32::MAX as int
}

/// `value`, or the largest dimension where `value` is beyond it.
pub open spec fn capped(value: int) -> nat {
    if value > max_dimension() {
        max_dimension() as nat
    } else {
        value as nat
    }
}

/// Width of the resized image: `width * scale`, rounded down.
pub open spec fn scaled_width(width: nat, config: Config) -> nat {
    capped((width * config.scale.num) / (config.scale.den as int))
}

/// Height of the resized image: `height * scale * char_width / char_height`,
/// rounded down once, after the exact product and quotient.
pub open spec fn scaled_height(height: nat, config: Config) -> nat {
    capped(
        (height * config.scale.num * config.char_width) / (config.scale.den
            * config.char_height),
    )
}

/// At scale one, with a character cell as wide as it is high, an image keeps
/// its dimensions.
pub proof fn lemma_unit_scale_keeps_dimensions(width: nat, height: nat, config: Config)
    requires
        config.wf(),
        config.scale.num == config.scale.den,
        config.char_width == config.char_height,
        width <= max_dimension(),
        height <= max_dimension(),
    ensures
        scaled_width(width, config) == width,
        scaled_height(height, config) == height,
{
    let unit = config.scale.num as int;
    let cell = config.char_width as int;
    lemma_div_by_multiple(width as int, unit);
    assert(height * unit * cell == height * (unit * cell)) by (nonlinear_arith);
    assert(0 < unit * cell) by (nonlinear_arith)
        requires
            0 < unit,
            0 < cell,
    ;
    lemma_div_by_multiple(height as int, unit * cell);
}

/// At a whole scale, with a character cell as wide as it is high, both
/// dimensions are multiplied by the scale.
pub proof fn lemma_whole_scale_multiplies_dimensions(width: nat, height: nat, config: Config)
    requires
        config.wf(),
        config.scale.den == 1,
        config.char_width == config.char_height,
    ensures
        scaled_width(width, config) == capped(width * config.scale.num),
        scaled_height(height, config) == capped(height * config.scale.num),
{
    let times = config.scale.num as int;
    let cell = config.char_width as int;
    assert(height * times * cell == (height * times) * cell) by (nonlinear_arith);
    assert(0 <= height * times) by (nonlinear_arith)
        requires
            0 <= height,
            0 <= times,
    ;
    assert(1 * cell == cell) by (nonlinear_arith);
    lemma_div_by_multiple(height * times, cell);
}

/// Computes the dimensions to which an image of `width` by `height` pixels is
/// resized.
pub fn scaled_dimensions(width: u32, height: u32, config: &Config) -> (size: (u32, u32))
    requires
        config.wf(),
    ensures
        size.0 == scaled_width(width as nat, *config),
        size.1 == scaled_height(height as nat, *config),
{
    let num = config.scale.num;
    let den = config.scale.den;
    let cell_width = config.char_width;
    let cell_height = config.char_height;

    assert(width * num <= 0xffff_ffff * 0xffff_ffff) by (nonlinear_arith)
        requires
            width <= 0xffff_ffff,
            num <= 0xffff_ffff,
    ;
    let across: u64 = (width as u64 * num as u64) / (den as u64);
    let new_width: u32 = if across > u32::MAX as u64 {
        u32::MAX
    } else {
        across as u32
    };

    assert(height * num * cell_width <= 0xffff_ffff * 0xffff_ffff * 0xffff_ffff
        && height * num <= 0xffff_ffff * 0xffff_ffff) by (nonlinear_arith)
        requires
            height <= 0xffff_ffff,
            num <= 0xffff_ffff,
            cell_width <= 0xffff_ffff,
    ;
    assert(0 < den * cell_height <= 0xffff_ffff * 0xffff_ffff) by (nonlinear_arith)
        requires
            0 < den <= 0xffff_ffff,
            0 < cell_height <= 0xffff_ffff,
    ;
    let down: u128 = (height as u128 * num as u128 * cell_width as u128) / (den as u128
        * cell_height as u128);
    let new_height: u32 = if down > u32::MAX as u128 {
        u32::MAX
    } else {
        down as u32
    };
    (new_width, new_height)
}

} // verus!
