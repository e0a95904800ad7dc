use vstd::prelude::*;

verus! {

/// The columns of one scanline that are still to be rendered. Workers take
/// columns from it one at a time, left to right; each column is handed out
/// exactly once.
pub struct ColumnQueue {
    next: i32,
    width: i32,
}

impl ColumnQueue {
    /// Every column lies in `[0, width)`, and the columns handed out so far
    /// are exactly those left of `next`.
    pub open spec fn wf(&self) -> bool {
        0 <= self.spec_next() <= self.spec_width()
    }

    pub closed spec fn spec_width(&self) -> int {
        self.width as int
    }

    pub closed spec fn spec_next(&self) -> int {
        self.next as int
    }

    /// The columns already handed out.
    pub open spec fn claimed(&self) -> Set<int> {
        Set::new(|c: int| 0 <= c < self.spec_next())
    }

    /// All columns of the scanline.
    pub open spec fn columns(&self) -> Set<int> {
        Set::new(|c: int| 0 <= c < self.spec_width())
    }

    /// A queue over the columns `0 .. width` of which none is handed out yet.
    pub fn new(width: i32) -> (q: ColumnQueue)
        requires
            width >= 0,
        ensures
            q.wf(),
            q.spec_width() == width as int,
            q.spec_next() == 0,
            q.claimed() == Set::<int>::empty(),
    {
        let q = ColumnQueue { next: 0, width };
        assert(q.claimed() =~= Set::<int>::empty());
        q
    }

    /// The number of columns in the scanline.
    pub fn width(&self) -> (w: i32)
        ensures
            w as int == self.spec_width(),
    {
        self.width
    }

    /// The number of columns not handed out yet.
    pub fn remaining(&self) -> (n: i32)
        requires
            self.wf(),
        ensures
            n as int == self.spec_width() - self.spec_next(),
    {
        self.width - self.next
    }

    /// Hands out the leftmost column not handed out yet, or `None` once every
    /// column has been handed out.
    pub fn claim(&mut self) -> (r: Option<i32>)
        requires
            old(self).wf(),
        ensures
            final(self).wf(),
            final(self).spec_width() == old(self).spec_width(),
            old(self).spec_next() < old(self).spec_width() ==> r == Some(
                old(self).spec_next() as i32,
            ) && final(self).spec_next() == old(self).spec_next() + 1,
            old(self).spec_next() == old(self).spec_width() ==> r is None && *final(self)
                == *old(self),
            r matches Some(c) ==> {
                &&& 0 <= c < old(self).spec_width()
                &&& !old(self).claimed().contains(c as int)
                &&& final(self).claimed() == old(self).claimed().insert(c as int)
            },
            r is None ==> old(self).claimed() == old(self).columns(),
    {
        if self.next < self.width {
            let c = self.next;
            self.next = self.next + 1;
            assert(self.claimed() =~= old(self).claimed().insert(c as int));
            Some(c)
        } else {
            assert(self.claimed() =~= self.columns());
            None
        }
    }
}

} // verus!
