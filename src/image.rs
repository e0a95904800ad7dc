use vstd::prelude::*;
use crate::ppm::{Rgb, encode_header, header, image, lemma_pixel_lines_append, pixel_lines};
use crate::raster::{RasterSettings, RenderError};
use crate::row::RowBuffer;

verus! {

/// The output stream of one render: the header, then each scanline's pixel
/// lines, top row first. It takes a row only when the row is complete and
/// as wide as the image, and no more rows than the image has.
pub struct ImageStream {
    width: u32,
    height: u32,
    rows: u32,
    pixels: Ghost<Seq<Rgb>>,
    emitted: Ghost<Seq<u8>>,
}

impl ImageStream {
    pub closed spec fn spec_width(&self) -> nat {
        self.width as nat
    }

    pub closed spec fn spec_height(&self) -> nat {
        self.height as nat
    }

    /// The number of rows written so far.
    pub closed spec fn spec_rows(&self) -> nat {
        self.rows as nat
    }

    /// The pixels written so far, row-major.
    pub closed spec fn written_pixels(&self) -> Seq<Rgb> {
        self.pixels@
    }

    /// Every byte handed out so far: the header, then the rows.
    pub closed spec fn emitted(&self) -> Seq<u8> {
        self.emitted@
    }

    /// What was handed out is the image's header and the lines of the rows
    /// written, each row as wide as the image.
    pub open spec fn wf(&self) -> bool {
        &&& self.spec_width() >= 1
        &&& self.spec_height() >= 1
        &&& self.spec_rows() <= self.spec_height()
        &&& self.written_pixels().len() == self.spec_rows() * self.spec_width()
        &&& self.emitted() == image(self.spec_width(), self.spec_height(), self.written_pixels())
    }

    /// A stream for an image of the settings' size, with the header bytes
    /// that open it.
    pub fn begin(settings: &RasterSettings) -> (r: (ImageStream, Vec<u8>))
        requires
            settings.wf(),
        ensures
            r.0.wf(),
            r.0.spec_width() == settings.image_width as nat,
            r.0.spec_height() == settings.image_height as nat,
            r.0.spec_rows() == 0,
            r.0.written_pixels() == Seq::<Rgb>::empty(),
            r.1@ == header(settings.image_width as nat, settings.image_height as nat),
            r.0.emitted() == r.1@,
    {
        let width = settings.image_width as u32;
        let height = settings.image_height as u32;
        let bytes = encode_header(width, height);
        let stream = ImageStream {
            width,
            height,
            rows: 0,
            pixels: Ghost(Seq::empty()),
            emitted: Ghost(bytes@),
        };
        assert(pixel_lines(Seq::<Rgb>::empty()) =~= Seq::<u8>::empty());
        assert(bytes@ =~= image(width as nat, height as nat, Seq::<Rgb>::empty()));
        (stream, bytes)
    }

    /// The number of rows still to be written.
    pub fn remaining_rows(&self) -> (n: u32)
        requires
            self.wf(),
        ensures
            n as nat == self.spec_height() - self.spec_rows(),
    {
        self.height - self.rows
    }

    /// Whether every row has been written. Once it has, the bytes handed out
    /// are the whole image: its header and one line per pixel.
    pub fn is_finished(&self) -> (r: bool)
        requires
            self.wf(),
        ensures
            r == (self.spec_rows() == self.spec_height()),
            r ==> self.written_pixels().len() == self.spec_width() * self.spec_height(),
            r ==> self.emitted() == image(
                self.spec_width(),
                self.spec_height(),
                self.written_pixels(),
            ),
    {
        proof {
            vstd::arithmetic::mul::lemma_mul_is_commutative(
                self.spec_rows() as int,
                self.spec_width() as int,
            );
        }
        self.rows == self.height
    }

    /// The bytes of the next row: the lines of its pixels, left to right.
    /// `RenderError` where every row is written already, or the row is not
    /// as wide as the image, or a slot of it is empty; the stream is then
    /// left as it was.
    pub fn write_row(&mut self, row: &RowBuffer) -> (r: Result<Vec<u8>, RenderError>)
        requires
            old(self).wf(),
        ensures
            final(self).wf(),
            r is Ok <==> old(self).spec_rows() < old(self).spec_height() && row@.len()
                == old(self).spec_width() && row.complete(),
            r matches Ok(bytes) ==> {
                &&& bytes@ == pixel_lines(row.pixels())
                &&& final(self).spec_width() == old(self).spec_width()
                &&& final(self).spec_height() == old(self).spec_height()
                &&& final(self).spec_rows() == old(self).spec_rows() + 1
                &&& final(self).written_pixels() == old(self).written_pixels() + row.pixels()
                &&& final(self).emitted() == old(self).emitted() + bytes@
            },
            r is Err ==> *final(self) == *old(self),
    {
        if self.rows >= self.height || row.len() != self.width as usize {
            return Err(RenderError);
        }
        match row.encode() {
            None => Err(RenderError),
            Some(bytes) => {
                let ghost old_pixels = self.pixels@;
                proof {
                    lemma_pixel_lines_append(old_pixels, row.pixels());
                    assert(self.rows + 1 <= self.height);
                    assert((self.rows as nat + 1) * self.width as nat == self.rows as nat
                        * self.width as nat + self.width as nat) by (nonlinear_arith);
                }
                self.rows = self.rows + 1;
                self.pixels = Ghost(old_pixels + row.pixels());
                self.emitted = Ghost(self.emitted@ + bytes@);
                assert(self.emitted@ =~= image(
                    self.width as nat,
                    self.height as nat,
                    self.pixels@,
                ));
                Ok(bytes)
            },
        }
    }
}

} // verus!
