//! The fixed-capacity buffer: externally supplied storage that never grows.

use vstd::prelude::*;

use crate::buffer::zeros;
use crate::buffer::Buffer;
use crate::error::Error;

verus! {

/// A buffer over caller-supplied storage of fixed size.  `next` and `more`
/// fail deterministically once the storage is exhausted, and a failed call
/// leaves every committed byte exactly as it was.
pub struct Slice {
    inner: Vec<u8>,
    offset: usize,
    used: usize,
}

/// Overwrite `v[start..end)` with zeroes.
fn zero_range(v: &mut Vec<u8>, start: usize, end: usize)
    requires
        start <= end <= old(v)@.len(),
    ensures
        final(v)@.len() == old(v)@.len(),
        final(v)@.subrange(0, start as int) == old(v)@.subrange(0, start as int),
        final(v)@.subrange(start as int, end as int) == zeros((end - start) as nat),
        final(v)@.subrange(end as int, old(v)@.len() as int) == old(v)@.subrange(
            end as int,
            old(v)@.len() as int,
        ),
{
    let ghost orig = v@;
    let mut k: usize = start;
    while k < end
        invariant
            start <= k <= end <= orig.len(),
            v@.len() == orig.len(),
            forall|j: int| 0 <= j < start ==> v@[j] == orig[j],
            forall|j: int| start <= j < k ==> v@[j] == 0u8,
            forall|j: int| k <= j < orig.len() ==> v@[j] == orig[j],
        decreases end - k,
    {
        v[k] = 0u8;
        k = k + 1;
    }
    proof {
        assert(v@.subrange(0, start as int) =~= orig.subrange(0, start as int));
        assert(v@.subrange(start as int, end as int) =~= zeros((end - start) as nat));
        assert(v@.subrange(end as int, orig.len() as int) =~= orig.subrange(
            end as int,
            orig.len() as int,
        ));
    }
}

impl Slice {
    /// Wrap externally supplied storage; its length is the fixed capacity.
    pub fn new(backing: Vec<u8>) -> (r: Slice)
        ensures
            r.wf(),
            r.store() == backing@,
            r.committed() == 0,
            r.layer() == 0,
            forall|e: int| 0 <= e ==> (r.can_grow(e) <==> e <= backing@.len()),
    {
        Slice { inner: backing, offset: 0, used: 0 }
    }
}

impl Buffer for Slice {
    closed spec fn store(&self) -> Seq<u8> {
        self.inner@
    }

    closed spec fn committed(&self) -> int {
        self.used as int
    }

    closed spec fn layer(&self) -> int {
        self.offset as int
    }

    closed spec fn can_grow(&self, size: int) -> bool {
        self.used + size <= self.inner@.len()
    }

    closed spec fn wf(&self) -> bool {
        self.offset <= self.used <= self.inner@.len()
    }

    proof fn lemma_wf_bounds(&self) {
    }

    proof fn lemma_can_grow_mono(&self, a: int, b: int) {
    }

    fn next(&mut self, size: usize) -> (r: Result<(), Error>) {
        if size <= self.inner.len() - self.used {
            let start = self.used;
            let end = self.used + size;
            zero_range(&mut self.inner, start, end);
            self.offset = start;
            self.used = end;
            proof {
                assert(self.inner@.subrange(0, start as int) == old(self).inner@.subrange(
                    0,
                    start as int,
                ));
                crate::buffer::lemma_tail_pointwise(
                    old(self).inner@,
                    self.inner@,
                    end as int,
                    old(self).inner@.len() as int,
                );
            }
            Ok(())
        } else {
            Err(Error::SmallBuffer)
        }
    }

    fn more(&mut self, size: usize) -> (r: Result<(), Error>) {
        if size <= self.inner.len() - self.used {
            let start = self.used;
            let end = self.used + size;
            zero_range(&mut self.inner, start, end);
            self.used = end;
            proof {
                crate::buffer::lemma_tail_pointwise(
                    old(self).inner@,
                    self.inner@,
                    end as int,
                    old(self).inner@.len() as int,
                );
            }
            Ok(())
        } else {
            Err(Error::SmallBuffer)
        }
    }

    fn used(&self) -> (r: usize) {
        self.used
    }

    fn data(&self) -> (r: &[u8]) {
        &self.inner.as_slice()[self.offset..self.used]
    }

    fn data_mut(&mut self) -> (r: &mut [u8]) {
        let off = self.offset;
        let used = self.used;
        let s = self.inner.as_mut_slice();
        let (head, tail) = s.split_at_mut(used);
        let (front, window) = head.split_at_mut(off);
        proof {
            assert(front@ =~= old(self).store().subrange(0, old(self).layer()));
            assert(tail@ =~= old(self).store().subrange(
                old(self).committed(),
                old(self).store().len() as int,
            ));
        }
        window
    }

    fn into_inner(self) -> (r: Vec<u8>) {
        let used = self.used;
        let mut out = self.inner;
        out.truncate(used);
        out
    }
}

} // verus!
