use vstd::prelude::*;
use crate::ppm::{Rgb, pixel_lines, push_pixel_line};

verus! {

/// The pixels of one scanline as workers finish them: one slot per column,
/// empty until that column's pixel is stored.
pub struct RowBuffer {
    slots: Vec<Option<Rgb>>,
}

impl View for RowBuffer {
    type V = Seq<Option<Rgb>>;

    closed spec fn view(&self) -> Seq<Option<Rgb>> {
        self.slots@
    }
}

impl RowBuffer {
    /// Every slot holds a pixel.
    pub open spec fn complete(&self) -> bool {
        forall|i: int| 0 <= i < self@.len() ==> (#[trigger] self@[i]) is Some
    }

    /// The stored pixels, left to right.
    pub open spec fn pixels(&self) -> Seq<Rgb> {
        self@.map_values(|o: Option<Rgb>| o->0)
    }

    /// A row of `width` empty slots.
    pub fn new(width: usize) -> (row: RowBuffer)
        ensures
            row@ == Seq::new(width as nat, |i: int| None::<Rgb>),
    {
        let mut slots: Vec<Option<Rgb>> = Vec::new();
        let mut i: usize = 0;
        while i < width
            invariant
                i <= width,
                slots@ == Seq::new(i as nat, |k: int| None::<Rgb>),
            decreases width - i,
        {
            slots.push(None);
            i = i + 1;
            assert(slots@ =~= Seq::new(i as nat, |k: int| None::<Rgb>));
        }
        RowBuffer { slots }
    }

    /// The number of slots.
    pub fn len(&self) -> (n: usize)
        ensures
            n == self@.len(),
    {
        self.slots.len()
    }

    /// Stores the pixel of `column`, replacing what the slot held.
    pub fn store(&mut self, column: usize, px: Rgb)
        requires
            column < old(self)@.len(),
        ensures
            final(self)@ == old(self)@.update(column as int, Some(px)),
    {
        self.slots.set(column, Some(px));
    }

    /// Whether every slot holds a pixel.
    pub fn is_complete(&self) -> (r: bool)
        ensures
            r == self.complete(),
    {
        let mut i: usize = 0;
        while i < self.slots.len()
            invariant
                i <= self@.len(),
                forall|k: int| 0 <= k < i ==> (#[trigger] self@[k]) is Some,
            decreases self.slots.len() - i,
        {
            if self.slots[i].is_none() {
                return false;
            }
            i = i + 1;
        }
        true
    }

    /// The text lines of the row's pixels, left to right, or `None` while a
    /// slot is still empty.
    pub fn encode(&self) -> (r: Option<Vec<u8>>)
        ensures
            r is Some <==> self.complete(),
            r matches Some(bytes) ==> bytes@ == pixel_lines(self.pixels()),
    {
        let mut out: Vec<u8> = Vec::new();
        let mut i: usize = 0;
        while i < self.slots.len()
            invariant
                i <= self@.len(),
                forall|k: int| 0 <= k < i ==> (#[trigger] self@[k]) is Some,
                out@ == pixel_lines(self.pixels().take(i as int)),
            decreases self.slots.len() - i,
        {
            match self.slots[i] {
                None => {
                    return None;
                },
                Some(px) => {
                    let ghost before = self.pixels().take(i as int);
                    push_pixel_line(&mut out, px);
                    i = i + 1;
                    assert(self.pixels().take(i as int).drop_last() =~= before);
                },
            }
        }
        assert(self.pixels().take(i as int) =~= self.pixels());
        Some(out)
    }
}

} // verus!
