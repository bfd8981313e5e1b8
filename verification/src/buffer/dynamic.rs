//! The growable buffer: heap-backed, bounded only by the address space.

use vstd::prelude::*;

use crate::buffer::zeros;
use crate::buffer::Buffer;
use crate::error::Error;

verus! {

/// A heap-backed buffer whose store grows on demand; `next` and `more` fail
/// only when the total size would pass `usize::MAX`.
pub struct Dynamic {
    inner: Vec<u8>,
    offset: usize,
}

/// Append `size` zero bytes to `v`.
fn grow_zeros(v: &mut Vec<u8>, size: usize)
    requires
        old(v)@.len() + size <= usize::MAX,
    ensures
        final(v)@ == old(v)@ + zeros(size as nat),
{
    let ghost orig = v@;
    let mut k: usize = 0;
    while k < size
        invariant
            0 <= k <= size,
            orig.len() + size <= usize::MAX,
            v@ == orig + zeros(k as nat),
        decreases size - k,
    {
        v.push(0u8);
        assert(v@ =~= orig + zeros((k + 1) as nat));
        k = k + 1;
    }
}

impl Default for Dynamic {
    /// An empty growable buffer with an empty first layer.
    fn default() -> (r: Self)
        ensures
            r.wf(),
            r.store() == Seq::<u8>::empty(),
            r.committed() == 0,
            r.layer() == 0,
            forall|e: int| 0 <= e ==> (r.can_grow(e) <==> e <= usize::MAX),
    {
        Dynamic { inner: Vec::new(), offset: 0 }
    }
}

impl Dynamic {
    /// A growable store holds no uncommitted tail: every byte of the
    /// backing store belongs to a sealed layer or the current one.
    pub proof fn lemma_all_committed(&self)
        requires
            self.wf(),
        ensures
            self.committed() == self.store().len(),
    {
    }
}

impl Buffer for Dynamic {
    closed spec fn store(&self) -> Seq<u8> {
        self.inner@
    }

    closed spec fn committed(&self) -> int {
        self.inner@.len() as int
    }

    closed spec fn layer(&self) -> int {
        self.offset as int
    }

    closed spec fn can_grow(&self, size: int) -> bool {
        self.inner@.len() + size <= usize::MAX
    }

    closed spec fn wf(&self) -> bool {
        self.offset <= self.inner@.len() <= usize::MAX
    }

    proof fn lemma_wf_bounds(&self) {
    }

    proof fn lemma_can_grow_mono(&self, a: int, b: int) {
    }

    fn next(&mut self, size: usize) -> (r: Result<(), Error>) {
        let used = self.inner.len();
        match used.checked_add(size) {
            Some(_total) => {
                self.offset = used;
                grow_zeros(&mut self.inner, size);
                proof {
                    assert(self.inner@.subrange(0, old(self).committed()) =~= old(
                        self,
                    ).inner@.subrange(0, old(self).committed()));
                    assert(self.inner@.subrange(
                        old(self).committed(),
                        old(self).committed() + size,
                    ) =~= zeros(size as nat));
                }
                Ok(())
            },
            None => Err(Error::SmallBuffer),
        }
    }

    fn more(&mut self, size: usize) -> (r: Result<(), Error>) {
        let used = self.inner.len();
        match used.checked_add(size) {
            Some(_total) => {
                grow_zeros(&mut self.inner, size);
                proof {
                    assert(self.inner@.subrange(0, old(self).committed()) =~= old(
                        self,
                    ).inner@.subrange(0, old(self).committed()));
                    assert(self.inner@.subrange(
                        old(self).committed(),
                        old(self).committed() + size,
                    ) =~= zeros(size as nat));
                }
                Ok(())
            },
            None => Err(Error::SmallBuffer),
        }
    }

    fn used(&self) -> (r: usize) {
        self.inner.len()
    }

    fn data(&self) -> (r: &[u8]) {
        let n = self.inner.len();
        &self.inner.as_slice()[self.offset..n]
    }

    fn data_mut(&mut self) -> (r: &mut [u8]) {
        let off = self.offset;
        let s = self.inner.as_mut_slice();
        let (head, window) = s.split_at_mut(off);
        proof {
            assert(head@ =~= old(self).store().subrange(0, old(self).layer()));
        }
        window
    }

    fn into_inner(self) -> (r: Vec<u8>) {
        proof {
            assert(self.inner@.subrange(0, self.inner@.len() as int) =~= self.inner@);
        }
        self.inner
    }
}

} // verus!
