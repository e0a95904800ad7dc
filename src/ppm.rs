use vstd::prelude::*;

verus! {

/// ASCII code of the digit zero.
pub const DIGIT_ZERO: u8 = 48;

/// ASCII code of a space.
pub const SPACE: u8 = 32;

/// ASCII code of a line feed.
pub const NEWLINE: u8 = 10;

/// The decimal digits of `n`, most significant first, without leading zeros.
pub open spec fn decimal(n: nat) -> Seq<u8>
    decreases n,
{
    if n < 10 {
        seq![(DIGIT_ZERO + n) as u8]
    } else {
        decimal(n / 10).push((DIGIT_ZERO + n % 10) as u8)
    }
}

/// Appends the decimal digits of `n` to `out`.
pub fn push_decimal(out: &mut Vec<u8>, n: u32)
    ensures
        final(out)@ == old(out)@ + decimal(n as nat),
    decreases n,
{
    if n >= 10 {
        push_decimal(out, n / 10);
    }
    out.push(DIGIT_ZERO + (n % 10) as u8);
    assert(out@ =~= old(out)@ + decimal(n as nat));
}

/// One quantized pixel: red, green and blue channels, each in `[0, 255]`.
#[derive(Clone, Copy, Debug, PartialEq, Eq, Structural)]
pub struct Rgb {
    pub r: u8,
    pub g: u8,
    pub b: u8,
}

impl Rgb {
    pub fn new(r: u8, g: u8, b: u8) -> (px: Rgb)
        ensures
            px == (Rgb { r, g, b }),
    {
        Rgb { r, g, b }
    }
}

/// The text line of one pixel: its three channels in decimal, separated by
/// single spaces, ended by a line feed.
pub open spec fn pixel_line(px: Rgb) -> Seq<u8> {
    decimal(px.r as nat) + seq![SPACE] + decimal(px.g as nat) + seq![SPACE] + decimal(
        px.b as nat,
    ) + seq![NEWLINE]
}

/// The lines of all pixels of `pixels`, in order.
pub open spec fn pixel_lines(pixels: Seq<Rgb>) -> Seq<u8>
    decreases pixels.len(),
{
    if pixels.len() == 0 {
        Seq::empty()
    } else {
        pixel_lines(pixels.drop_last()) + pixel_line(pixels.last())
    }
}

/// The header of a plain-text PPM image of the given size with 255 as the
/// largest channel value: `P3`, the width and height, and `255`, each on a
/// line of its own.
pub open spec fn header(width: nat, height: nat) -> Seq<u8> {
    seq![80u8, 51u8, NEWLINE] + decimal(width) + seq![SPACE] + decimal(height) + seq![NEWLINE]
        + decimal(255) + seq![NEWLINE]
}

/// A whole plain-text PPM image: the header, then one line per pixel,
/// row-major, top row first.
pub open spec fn image(width: nat, height: nat, pixels: Seq<Rgb>) -> Seq<u8> {
    header(width, height) + pixel_lines(pixels)
}

/// The lines of two runs of pixels, one after the other, are the lines of
/// the two runs joined.
pub proof fn lemma_pixel_lines_append(a: Seq<Rgb>, b: Seq<Rgb>)
    ensures
        pixel_lines(a + b) == pixel_lines(a) + pixel_lines(b),
    decreases b.len(),
{
    if b.len() == 0 {
        assert(a + b =~= a);
        assert(pixel_lines(b) =~= Seq::<u8>::empty());
        assert(pixel_lines(a) + pixel_lines(b) =~= pixel_lines(a));
    } else {
        let ab = a + b;
        assert(ab.drop_last() =~= a + b.drop_last());
        assert(ab.last() == b.last());
        lemma_pixel_lines_append(a, b.drop_last());
        assert(pixel_lines(a + b) =~= pixel_lines(a) + pixel_lines(b));
    }
}

/// Appends the text line of `px` to `out`.
pub fn push_pixel_line(out: &mut Vec<u8>, px: Rgb)
    ensures
        final(out)@ == old(out)@ + pixel_line(px),
{
    push_decimal(out, px.r as u32);
    out.push(SPACE);
    push_decimal(out, px.g as u32);
    out.push(SPACE);
    push_decimal(out, px.b as u32);
    out.push(NEWLINE);
    assert(out@ =~= old(out)@ + pixel_line(px));
}

/// The header of a plain-text PPM image of `width` by `height` pixels.
pub fn encode_header(width: u32, height: u32) -> (bytes: Vec<u8>)
    ensures
        bytes@ == header(width as nat, height as nat),
{
    let mut out: Vec<u8> = Vec::new();
    out.push(80u8);
    out.push(51u8);
    out.push(NEWLINE);
    push_decimal(&mut out, width);
    out.push(SPACE);
    push_decimal(&mut out, height);
    out.push(NEWLINE);
    push_decimal(&mut out, 255);
    out.push(NEWLINE);
    assert(out@ =~= header(width as nat, height as nat));
    out
}

} // verus!
