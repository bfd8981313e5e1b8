//! The layered byte store every builder writes into.
//!
//! One contiguous backing store carries all protocol layers.  The current
//! layer is the window `[layer(), committed())`; everything before it is
//! sealed history that `data`/`data_mut` never expose, and `next` seals the
//! window and opens a fresh one after it.

use vstd::prelude::*;

use crate::error::Error;

verus! {

/// A sequence of `n` zero bytes: what a freshly opened region holds.
pub open spec fn zeros(n: nat) -> Seq<u8> {
    Seq::new(n, |_i: int| 0u8)
}

/// A growable or fixed-capacity backing store with a moving current-layer
/// window.
///
/// `store()` is every byte of the backing store, `committed()` how many of
/// them belong to sealed layers plus the current one, and `layer()` where the
/// current layer begins.  `can_grow(n)` says whether `n` more bytes fit;
/// `next` and `more` succeed exactly when they do, and on failure leave the
/// buffer untouched.
pub trait Buffer: Sized {
    /// All bytes of the backing store.
    spec fn store(&self) -> Seq<u8>;

    /// Total committed bytes: sealed layers plus the current one.
    spec fn committed(&self) -> int;

    /// Start offset of the current layer.
    spec fn layer(&self) -> int;

    /// Whether `size` more bytes fit in the backing store.
    spec fn can_grow(&self, size: int) -> bool;

    /// The store's internal consistency.
    spec fn wf(&self) -> bool;

    /// A well-formed store keeps its window inside the committed range.
    proof fn lemma_wf_bounds(&self)
        requires
            self.wf(),
        ensures
            0 <= self.layer() <= self.committed() <= self.store().len(),
            self.can_grow(0),
    ;

    /// Room for `a` bytes is room for any fewer.
    proof fn lemma_can_grow_mono(&self, a: int, b: int)
        requires
            self.wf(),
            self.can_grow(a),
            0 <= b <= a,
        ensures
            self.can_grow(b),
    ;

    /// Seal the current layer and open a new zeroed layer of `size` bytes
    /// immediately after it.
    fn next(&mut self, size: usize) -> (r: Result<(), Error>)
        requires
            old(self).wf(),
        ensures
            final(self).wf(),
            r is Ok <==> old(self).can_grow(size as int),
            r is Err ==> r == Err::<(), Error>(Error::SmallBuffer) && *final(self) == *old(self),
            r is Ok ==> ({
                &&& final(self).layer() == old(self).committed()
                &&& final(self).committed() == old(self).committed() + size
                &&& final(self).store().subrange(0, old(self).committed())
                    == old(self).store().subrange(0, old(self).committed())
                &&& final(self).store().subrange(
                    old(self).committed(),
                    old(self).committed() + size,
                ) == zeros(size as nat)
                &&& final(self).store().len() == (if old(self).committed() + size
                    <= old(self).store().len() {
                    old(self).store().len() as int
                } else {
                    old(self).committed() + size
                })
                &&& forall|j: int|
                    old(self).committed() + size <= j < old(self).store().len()
                        ==> final(self).store()[j] == old(self).store()[j]
                &&& forall|e: int|
                    0 <= e ==> (final(self).can_grow(e) <==> old(self).can_grow(size + e))
            }),
    ;

    /// Grow the current layer by `size` zeroed bytes at its end.
    fn more(&mut self, size: usize) -> (r: Result<(), Error>)
        requires
            old(self).wf(),
        ensures
            final(self).wf(),
            r is Ok <==> old(self).can_grow(size as int),
            r is Err ==> r == Err::<(), Error>(Error::SmallBuffer) && *final(self) == *old(self),
            r is Ok ==> ({
                &&& final(self).layer() == old(self).layer()
                &&& final(self).committed() == old(self).committed() + size
                &&& final(self).store().subrange(0, old(self).committed())
                    == old(self).store().subrange(0, old(self).committed())
                &&& final(self).store().subrange(
                    old(self).committed(),
                    old(self).committed() + size,
                ) == zeros(size as nat)
                &&& final(self).store().len() == (if old(self).committed() + size
                    <= old(self).store().len() {
                    old(self).store().len() as int
                } else {
                    old(self).committed() + size
                })
                &&& forall|j: int|
                    old(self).committed() + size <= j < old(self).store().len()
                        ==> final(self).store()[j] == old(self).store()[j]
                &&& forall|e: int|
                    0 <= e ==> (final(self).can_grow(e) <==> old(self).can_grow(size + e))
            }),
    ;

    /// Total committed bytes so far: the size of the eventual packet.
    fn used(&self) -> (r: usize)
        requires
            self.wf(),
        ensures
            r == self.committed(),
    ;

    /// The current layer's bytes, and nothing of any sealed layer.
    fn data(&self) -> (r: &[u8])
        requires
            self.wf(),
        ensures
            r@ == self.store().subrange(self.layer(), self.committed()),
    ;

    /// The current layer's bytes for writing, and nothing of any sealed
    /// layer: every write through the window lands inside it.
    fn data_mut(&mut self) -> (r: &mut [u8])
        requires
            old(self).wf(),
        ensures
            r@ == old(self).store().subrange(old(self).layer(), old(self).committed()),
            final(self).store() == old(self).store().subrange(0, old(self).layer()) + final(r)@
                + old(self).store().subrange(
                old(self).committed(),
                old(self).store().len() as int,
            ),
            final(self).layer() == old(self).layer(),
            final(r)@.len() == r@.len() ==> ({
                &&& final(self).wf()
                &&& final(self).committed() == old(self).committed()
                &&& forall|e: int|
                    0 <= e ==> (final(self).can_grow(e) <==> old(self).can_grow(e))
            }),
    ;

    /// Give up the committed bytes: the packet built so far, without any
    /// uncommitted spare capacity.
    fn into_inner(self) -> (r: Vec<u8>)
        requires
            self.wf(),
        ensures
            r@ == self.store().subrange(0, self.committed()),
    ;
}

/// A range agreement stated over subranges holds byte for byte.
pub proof fn lemma_tail_pointwise(pre: Seq<u8>, post: Seq<u8>, from: int, upto: int)
    requires
        0 <= from <= upto <= pre.len(),
        upto <= post.len(),
        post.subrange(from, upto) == pre.subrange(from, upto),
    ensures
        forall|j: int| from <= j < upto ==> post[j] == pre[j],
{
    assert forall|j: int| from <= j < upto implies post[j] == pre[j] by {
        assert(post.subrange(from, upto)[j - from] == post[j]);
        assert(pre.subrange(from, upto)[j - from] == pre[j]);
    }
}

/// The sealed history of `b`: every byte before the current layer.
pub open spec fn sealed_of<B: Buffer>(b: B) -> Seq<u8> {
    b.store().subrange(0, b.layer())
}

/// The current layer of `b`: the window `[layer(), committed())`.
pub open spec fn window_of<B: Buffer>(b: B) -> Seq<u8> {
    b.store().subrange(b.layer(), b.committed())
}

/// Write one byte at offset `at` inside the current layer.
pub fn write_layer_u8<B: Buffer>(buffer: &mut B, at: usize, v: u8)
    requires
        old(buffer).wf(),
        at < old(buffer).committed() - old(buffer).layer(),
    ensures
        final(buffer).wf(),
        final(buffer).layer() == old(buffer).layer(),
        final(buffer).committed() == old(buffer).committed(),
        sealed_of(*final(buffer)) == sealed_of(*old(buffer)),
        window_of(*final(buffer)) == window_of(*old(buffer)).update(at as int, v),
        final(buffer).store().len() == old(buffer).store().len(),
        final(buffer).store().subrange(old(buffer).committed(), old(buffer).store().len() as int)
            == old(buffer).store().subrange(
            old(buffer).committed(),
            old(buffer).store().len() as int,
        ),
        forall|e: int| 0 <= e ==> (final(buffer).can_grow(e) <==> old(buffer).can_grow(e)),
{
    proof {
        old(buffer).lemma_wf_bounds();
    }
    let d = buffer.data_mut();
    d[at] = v;
    proof {
        lemma_window_split(*old(buffer), *buffer, window_of(*old(buffer)).update(at as int, v));
    }
}

/// Write a 16-bit big-endian field at offset `at` inside the current layer.
pub fn write_layer_u16<B: Buffer>(buffer: &mut B, at: usize, v: u16)
    requires
        old(buffer).wf(),
        at + 2 <= old(buffer).committed() - old(buffer).layer(),
    ensures
        final(buffer).wf(),
        final(buffer).layer() == old(buffer).layer(),
        final(buffer).committed() == old(buffer).committed(),
        sealed_of(*final(buffer)) == sealed_of(*old(buffer)),
        window_of(*final(buffer)) == crate::wire::spec_write16(
            window_of(*old(buffer)),
            at as int,
            v,
        ),
        final(buffer).store().len() == old(buffer).store().len(),
        final(buffer).store().subrange(old(buffer).committed(), old(buffer).store().len() as int)
            == old(buffer).store().subrange(
            old(buffer).committed(),
            old(buffer).store().len() as int,
        ),
        forall|e: int| 0 <= e ==> (final(buffer).can_grow(e) <==> old(buffer).can_grow(e)),
{
    proof {
        old(buffer).lemma_wf_bounds();
    }
    let d = buffer.data_mut();
    crate::wire::write_u16_be(d, at, v);
    proof {
        lemma_window_split(
            *old(buffer),
            *buffer,
            crate::wire::spec_write16(window_of(*old(buffer)), at as int, v),
        );
    }
}

/// Write a 32-bit big-endian field at offset `at` inside the current layer.
pub fn write_layer_u32<B: Buffer>(buffer: &mut B, at: usize, v: u32)
    requires
        old(buffer).wf(),
        at + 4 <= old(buffer).committed() - old(buffer).layer(),
    ensures
        final(buffer).wf(),
        final(buffer).layer() == old(buffer).layer(),
        final(buffer).committed() == old(buffer).committed(),
        sealed_of(*final(buffer)) == sealed_of(*old(buffer)),
        window_of(*final(buffer)) == crate::wire::spec_write32(
            window_of(*old(buffer)),
            at as int,
            v,
        ),
        final(buffer).store().len() == old(buffer).store().len(),
        final(buffer).store().subrange(old(buffer).committed(), old(buffer).store().len() as int)
            == old(buffer).store().subrange(
            old(buffer).committed(),
            old(buffer).store().len() as int,
        ),
        forall|e: int| 0 <= e ==> (final(buffer).can_grow(e) <==> old(buffer).can_grow(e)),
{
    proof {
        old(buffer).lemma_wf_bounds();
    }
    let d = buffer.data_mut();
    crate::wire::write_u32_be(d, at, v);
    proof {
        lemma_window_split(
            *old(buffer),
            *buffer,
            crate::wire::spec_write32(window_of(*old(buffer)), at as int, v),
        );
    }
}

/// Grow the current layer by one byte holding `v`.
pub fn push_layer_byte<B: Buffer>(buffer: &mut B, v: u8) -> (r: Result<(), Error>)
    requires
        old(buffer).wf(),
    ensures
        final(buffer).wf(),
        r is Ok <==> old(buffer).can_grow(1),
        r is Err ==> r == Err::<(), Error>(Error::SmallBuffer),
        r is Err ==> *final(buffer) == *old(buffer),
        r is Ok ==> ({
            &&& final(buffer).layer() == old(buffer).layer()
            &&& final(buffer).committed() == old(buffer).committed() + 1
            &&& sealed_of(*final(buffer)) == sealed_of(*old(buffer))
            &&& window_of(*final(buffer)) == window_of(*old(buffer)).push(v)
            &&& final(buffer).store().len() == (if old(buffer).committed() + 1
                <= old(buffer).store().len() {
                old(buffer).store().len() as int
            } else {
                old(buffer).committed() + 1
            })
            &&& forall|j: int|
                old(buffer).committed() + 1 <= j < old(buffer).store().len()
                    ==> final(buffer).store()[j] == old(buffer).store()[j]
            &&& forall|e: int|
                0 <= e ==> (final(buffer).can_grow(e) <==> old(buffer).can_grow(1 + e))
        }),
{
    proof {
        old(buffer).lemma_wf_bounds();
    }
    match buffer.more(1) {
        Ok(()) => {
            let ghost grown = *buffer;
            proof {
                buffer.lemma_wf_bounds();
                let ghost pre = *old(buffer);
                assert forall|j: int| 0 <= j < grown.committed() - grown.layer() implies window_of(
                    grown,
                )[j] == window_of(pre).push(0u8)[j] by {
                    if pre.layer() + j < pre.committed() {
                        assert(grown.store().subrange(0, pre.committed())[pre.layer() + j]
                            == pre.store().subrange(0, pre.committed())[pre.layer() + j]);
                    } else {
                        assert(grown.store().subrange(pre.committed(), pre.committed() + 1)[0]
                            == zeros(1)[0]);
                    }
                }
                assert(window_of(grown) =~= window_of(*old(buffer)).push(0u8));
            }
            let d = buffer.data_mut();
            let n = d.len();
            d[n - 1] = v;
            proof {
                lemma_window_split(
                    grown,
                    *buffer,
                    window_of(grown).update(window_of(grown).len() - 1, v),
                );
                assert(window_of(grown).update(window_of(grown).len() - 1, v) =~= window_of(
                    *old(buffer),
                ).push(v));
            }
            Ok(())
        },
        Err(e) => Err(e),
    }
}

/// A store that splits into the old sealed prefix, a window of the right
/// length, and the old tail has that window as its current layer.
proof fn lemma_window_split<B: Buffer>(pre: B, post: B, w: Seq<u8>)
    requires
        0 <= pre.layer() <= pre.committed() <= pre.store().len(),
        post.layer() == pre.layer(),
        post.committed() == pre.committed(),
        w.len() == pre.committed() - pre.layer(),
        post.store() == pre.store().subrange(0, pre.layer()) + w + pre.store().subrange(
            pre.committed(),
            pre.store().len() as int,
        ),
    ensures
        sealed_of(post) == sealed_of(pre),
        window_of(post) == w,
        post.store().len() == pre.store().len(),
        post.store().subrange(pre.committed(), pre.store().len() as int) == pre.store().subrange(
            pre.committed(),
            pre.store().len() as int,
        ),
{
    assert(sealed_of(post) =~= sealed_of(pre));
    assert(window_of(post) =~= w);
    assert(post.store().subrange(pre.committed(), pre.store().len() as int)
        =~= pre.store().subrange(pre.committed(), pre.store().len() as int));
}

} // verus!

mod dynamic;
pub use self::dynamic::Dynamic;

mod fixed;
pub use self::fixed::Slice;
