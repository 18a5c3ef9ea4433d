//! A bounds-checked view of a run of objects in memory, such as the pixels
//! of a framebuffer.
use vstd::prelude::*;

verus! {

/// An index that lies outside a region of `len` elements.
#[derive(Clone, Copy, Debug, PartialEq, Eq)]
pub struct OutOfBounds {
    pub index: usize,
    pub len: usize,
}

/// A memory region that holds an array of objects, reached by index.
#[derive(Debug, PartialEq)]
pub struct Region<T: 'static>(&'static mut [T]);

impl<T> View for Region<T> {
    type V = Seq<T>;

    closed spec fn view(&self) -> Seq<T> {
        self.0@
    }
}

impl<T> Region<T> {
    /// A region over the elements of `data`.
    pub fn from_slice(data: &'static mut [T]) -> (r: Region<T>)
        ensures
            r@ == old(data)@,
    {
        Region(data)
    }

    /// The number of elements in the region.
    pub fn len(&self) -> (n: usize)
        ensures
            n == self@.len(),
    {
        self.0.len()
    }

    /// The object at index `i`, or the refusal of an index past the end.
    pub fn read_index(&self, i: usize) -> (r: Result<&T, OutOfBounds>)
        ensures
            match r {
                Ok(x) => i < self@.len() && *x == self@[i as int],
                Err(e) => i >= self@.len() && e == (OutOfBounds { index: i, len: self@.len() as usize }),
            },
    {
        if i < self.0.len() {
            Ok(&self.0[i])
        } else {
            Err(OutOfBounds { index: i, len: self.0.len() })
        }
    }

    /// Puts `v` at index `i` and leaves the other elements alone; an index
    /// past the end is refused and nothing is written.
    pub fn write_index(&mut self, i: usize, v: T) -> (r: Result<(), OutOfBounds>)
        ensures
            match r {
                Ok(_) => i < old(self)@.len() && final(self)@ == old(self)@.update(i as int, v),
                Err(e) => {
                    &&& i >= old(self)@.len()
                    &&& e == (OutOfBounds { index: i, len: old(self)@.len() as usize })
                    &&& final(self)@ == old(self)@
                },
            },
    {
        if i < self.0.len() {
            self.0[i] = v;
            Ok(())
        } else {
            Err(OutOfBounds { index: i, len: self.0.len() })
        }
    }
}

} // verus!
