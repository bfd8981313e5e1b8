//! Deferred finalization: the fixups a builder registers and the discipline
//! that runs them.
//!
//! Each protocol layer registers a one-shot fixup — a checksum or length
//! write whose value only exists once the whole packet is complete.  The
//! accumulated list runs in reverse registration order: the innermost layer
//! registers last and runs first, so every fixup sees final bytes for
//! everything inside it.

use vstd::prelude::*;

use crate::buffer::Buffer;
use crate::checksum::fold_buffer;
use crate::checksum::spec_checksum;
use crate::error::Error;
use crate::wire::spec_write16;
use crate::wire::write_u16_be;

verus! {

/// One deferred fixup, carrying only the layer offsets it captured.
#[derive(Clone, Copy, Debug, PartialEq, Eq, Structural)]
pub enum Fixup {
    /// Write the ICMP checksum of the bytes from `layer` to the end into the
    /// checksum field at `layer + 2`.
    IcmpChecksum { layer: usize },
    /// Write the IPv4 header checksum of the twenty bytes at `layer` into
    /// the checksum field at `layer + 10`.
    V4Checksum { layer: usize },
    /// Write the total length of the packet from `layer` on into the length
    /// field at `layer + 2`.
    V4Length { layer: usize },
    /// Append a marker byte, making the execution order observable.
    Append { value: u8 },
}

/// Whether `f` can run on `b` at all.
pub open spec fn fixup_ok(f: Fixup, b: Seq<u8>) -> bool {
    match f {
        Fixup::IcmpChecksum { layer } => layer + 4 <= b.len(),
        Fixup::V4Checksum { layer } => layer + 20 <= b.len(),
        Fixup::V4Length { layer } => layer + 4 <= b.len() && b.len() - layer <= 0xffff,
        Fixup::Append { value } => b.len() + 1 <= usize::MAX,
    }
}

/// The error `f` reports when it cannot run on `b`.
pub open spec fn fixup_err(f: Fixup, b: Seq<u8>) -> Error {
    match f {
        Fixup::V4Length { layer } => if layer + 4 <= b.len() {
            Error::InvalidPacket
        } else {
            Error::SmallBuffer
        },
        _ => Error::SmallBuffer,
    }
}

/// The bytes `f` leaves behind when it runs on `b`.
pub open spec fn fixup_apply(f: Fixup, b: Seq<u8>) -> Seq<u8> {
    match f {
        Fixup::IcmpChecksum { layer } => spec_write16(
            b,
            layer + 2,
            spec_checksum(b.subrange(layer as int, b.len() as int), 1),
        ),
        Fixup::V4Checksum { layer } => spec_write16(
            b,
            layer + 10,
            spec_checksum(b.subrange(layer as int, layer + 20), 5),
        ),
        Fixup::V4Length { layer } => spec_write16(b, layer + 2, (b.len() - layer) as u16),
        Fixup::Append { value } => b.push(value),
    }
}

/// The bytes left after running `fs` on `b` last-registered first, stopping
/// at the first fixup that cannot run.
pub open spec fn run_bytes(fs: Seq<Fixup>, b: Seq<u8>) -> Seq<u8>
    decreases fs.len(),
{
    if fs.len() == 0 {
        b
    } else if !fixup_ok(fs.last(), b) {
        b
    } else {
        run_bytes(fs.drop_last(), fixup_apply(fs.last(), b))
    }
}

/// Whether running `fs` on `b` completes, and if not, with which error.
pub open spec fn run_result(fs: Seq<Fixup>, b: Seq<u8>) -> Result<(), Error>
    decreases fs.len(),
{
    if fs.len() == 0 {
        Ok(())
    } else if !fixup_ok(fs.last(), b) {
        Err(fixup_err(fs.last(), b))
    } else {
        run_result(fs.drop_last(), fixup_apply(fs.last(), b))
    }
}

/// Registration is a stack: the fixup registered last runs first, on the
/// untouched bytes, and the rest run on what it left behind.
pub proof fn lemma_finalize_lifo(fs: Seq<Fixup>, f: Fixup, b: Seq<u8>)
    requires
        fixup_ok(f, b),
    ensures
        run_bytes(fs.push(f), b) == run_bytes(fs, fixup_apply(f, b)),
        run_result(fs.push(f), b) == run_result(fs, fixup_apply(f, b)),
{
    assert(fs.push(f).drop_last() =~= fs);
}

/// An outer layer's marker registered before an inner layer's marker comes
/// out after it: the inner fixup ran first.
pub proof fn lemma_marker_order(outer: u8, inner: u8, b: Seq<u8>)
    requires
        b.len() + 2 <= usize::MAX,
    ensures
        run_bytes(seq![Fixup::Append { value: outer }, Fixup::Append { value: inner }], b)
            == b.push(inner).push(outer),
{
    let fs = seq![Fixup::Append { value: outer }, Fixup::Append { value: inner }];
    lemma_finalize_lifo(seq![Fixup::Append { value: outer }], Fixup::Append { value: inner }, b);
    assert(fs =~= seq![Fixup::Append { value: outer }].push(Fixup::Append { value: inner }));
    lemma_finalize_lifo(Seq::empty(), Fixup::Append { value: outer }, b.push(inner));
    assert(seq![Fixup::Append { value: outer }] =~= Seq::empty().push(
        Fixup::Append { value: outer },
    ));
}

/// The ICMP checksum fixup makes its layer verify: recomputing the
/// checksum over the finished bytes, the field now included, gives zero.
pub proof fn lemma_icmp_fixup_verifies(b: Seq<u8>)
    requires
        4 <= b.len(),
    ensures
        ({
            let out = fixup_apply(Fixup::IcmpChecksum { layer: 0 }, b);
            spec_checksum(out, out.len() as int) == 0
        }),
{
    assert(b.subrange(0, b.len() as int) =~= b);
    crate::checksum::lemma_checksum_verifies(b, 1);
}

/// The IPv4 fixups cooperate in the right order: the length fixup records
/// the layer's total length first, and the checksum fixup then makes the
/// twenty-byte header verify, the length field included.
pub proof fn lemma_v4_fixups_verify(b: Seq<u8>)
    requires
        20 <= b.len() <= 0xffff,
    ensures
        ({
            let out = run_bytes(
                seq![Fixup::V4Checksum { layer: 0 }, Fixup::V4Length { layer: 0 }],
                b,
            );
            &&& out.len() == b.len()
            &&& crate::wire::spec_be16(out[2], out[3]) == b.len()
            &&& spec_checksum(out.subrange(0, 20), 20) == 0
        }),
{
    let fs = seq![Fixup::V4Checksum { layer: 0 }, Fixup::V4Length { layer: 0 }];
    let b1 = fixup_apply(Fixup::V4Length { layer: 0 }, b);
    let h1 = b1.subrange(0, 20);
    let ck = spec_checksum(h1, 5);
    let out = fixup_apply(Fixup::V4Checksum { layer: 0 }, b1);
    assert(fixup_ok(Fixup::V4Length { layer: 0 }, b));
    assert(b1.len() == b.len());
    assert(fixup_ok(Fixup::V4Checksum { layer: 0 }, b1));
    assert(fs =~= seq![Fixup::V4Checksum { layer: 0 }].push(Fixup::V4Length { layer: 0 }));
    lemma_finalize_lifo(seq![Fixup::V4Checksum { layer: 0 }], Fixup::V4Length { layer: 0 }, b);
    assert(seq![Fixup::V4Checksum { layer: 0 }] =~= Seq::<Fixup>::empty().push(
        Fixup::V4Checksum { layer: 0 },
    ));
    lemma_finalize_lifo(Seq::empty(), Fixup::V4Checksum { layer: 0 }, b1);
    assert(run_bytes(fs, b) == out);
    crate::wire::lemma_be16_round((b.len() - 0) as u16);
    crate::checksum::lemma_checksum_verifies(h1, 5);
    assert(out.subrange(0, 20) =~= crate::checksum::patch_word(h1, 5, ck));
    assert(crate::checksum::patch_word(h1, 5, ck).len() as int == 20);
    assert(spec_checksum(out.subrange(0, 20), 20) == 0);
}

/// Run one fixup on the complete byte sequence.
fn run_fixup(f: Fixup, buffer: &mut Vec<u8>) -> (r: Result<(), Error>)
    ensures
        fixup_ok(f, old(buffer)@) ==> r is Ok && final(buffer)@ == fixup_apply(f, old(buffer)@),
        !fixup_ok(f, old(buffer)@) ==> r == Err::<(), Error>(fixup_err(f, old(buffer)@))
            && final(buffer)@ == old(buffer)@,
{
    match f {
        Fixup::IcmpChecksum { layer } => {
            let n = buffer.len();
            if n >= 4 && layer <= n - 4 {
                let folded = fold_buffer(0xffff, &buffer.as_slice()[layer..n], 1);
                let ck = (0xffff - folded) as u16;
                write_u16_be(buffer.as_mut_slice(), layer + 2, ck);
                Ok(())
            } else {
                Err(Error::SmallBuffer)
            }
        },
        Fixup::V4Checksum { layer } => {
            let n = buffer.len();
            if n >= 20 && layer <= n - 20 {
                let folded = fold_buffer(0xffff, &buffer.as_slice()[layer..layer + 20], 5);
                let ck = (0xffff - folded) as u16;
                write_u16_be(buffer.as_mut_slice(), layer + 10, ck);
                Ok(())
            } else {
                Err(Error::SmallBuffer)
            }
        },
        Fixup::V4Length { layer } => {
            let n = buffer.len();
            if n >= 4 && layer <= n - 4 {
                if n - layer <= 0xffff {
                    write_u16_be(buffer.as_mut_slice(), layer + 2, (n - layer) as u16);
                    Ok(())
                } else {
                    Err(Error::InvalidPacket)
                }
            } else {
                Err(Error::SmallBuffer)
            }
        },
        Fixup::Append { value } => {
            if buffer.len() < usize::MAX {
                buffer.push(value);
                Ok(())
            } else {
                Err(Error::SmallBuffer)
            }
        },
    }
}

/// The ordered list of deferred fixups a builder chain accumulates.
#[derive(Debug)]
pub struct Finalization {
    fixups: Vec<Fixup>,
}

impl View for Finalization {
    type V = Seq<Fixup>;

    closed spec fn view(&self) -> Seq<Fixup> {
        self.fixups@
    }
}

impl Default for Finalization {
    /// An empty fixup list.
    fn default() -> (r: Self)
        ensures
            r@ == Seq::<Fixup>::empty(),
    {
        Finalization { fixups: Vec::new() }
    }
}

impl Finalization {
    /// Register one more fixup, to run before all those already here.
    pub fn add(&mut self, fixup: Fixup)
        ensures
            final(self)@ == old(self)@.push(fixup),
    {
        self.fixups.push(fixup);
    }

    /// Take over a chain's fixups: they will run after all of `self`'s.
    pub fn extend(&mut self, other: Finalization)
        ensures
            final(self)@ == old(self)@ + other@,
    {
        let mut incoming = other.fixups;
        self.fixups.append(&mut incoming);
    }

    /// Run every fixup over the complete packet bytes, last registered
    /// first; a failing fixup aborts the rest of the chain.
    pub fn finalize(self, buffer: &mut Vec<u8>) -> (r: Result<(), Error>)
        ensures
            final(buffer)@ == run_bytes(self@, old(buffer)@),
            r == run_result(self@, old(buffer)@),
    {
        let ghost orig_fs = self@;
        let ghost orig_b = old(buffer)@;
        let mut work: Vec<u8> = Vec::new();
        core::mem::swap(buffer, &mut work);
        let mut fixups = self.fixups;
        let mut outcome: Result<(), Error> = Ok(());
        loop
            invariant
                outcome is Ok ==> outcome == Ok::<(), Error>(()),
                outcome is Ok ==> ({
                    &&& run_bytes(orig_fs, orig_b) == run_bytes(fixups@, work@)
                    &&& run_result(orig_fs, orig_b) == run_result(fixups@, work@)
                }),
                outcome is Err ==> run_bytes(orig_fs, orig_b) == work@ && run_result(
                    orig_fs,
                    orig_b,
                ) == outcome,
            ensures
                run_bytes(orig_fs, orig_b) == work@,
                run_result(orig_fs, orig_b) == outcome,
            decreases fixups@.len(),
        {
            if outcome.is_err() {
                break ;
            }
            let ghost pre_fs = fixups@;
            let ghost pre_b = work@;
            let f = match fixups.pop() {
                Some(f) => f,
                None => {
                    break ;
                },
            };
            proof {
                assert(pre_fs =~= fixups@.push(f));
                assert(pre_fs.last() == f);
                assert(pre_fs.drop_last() =~= fixups@);
            }
            match run_fixup(f, &mut work) {
                Ok(()) => {
                    proof {
                        assert(run_bytes(pre_fs, pre_b) == run_bytes(fixups@, work@));
                        assert(run_result(pre_fs, pre_b) == run_result(fixups@, work@));
                    }
                },
                Err(e) => {
                    outcome = Err(e);
                    proof {
                        assert(work@ == pre_b);
                        assert(!fixup_ok(f, pre_b));
                        assert(run_bytes(pre_fs, pre_b) == pre_b);
                        assert(run_result(pre_fs, pre_b) == Err::<(), Error>(e));
                    }
                },
            }
        }
        core::mem::swap(buffer, &mut work);
        outcome
    }
}

/// A packet builder: reserves its header layer from a buffer, exposes the
/// shared fixup list, and seals the packet.
pub trait Builder<B: Buffer>: Sized {
    /// Whether the builder's state is consistent.
    spec fn wf(&self) -> bool;

    /// The fixups registered so far.
    spec fn fins(&self) -> Seq<Fixup>;

    /// Wrap a buffer, reserving this protocol's header layer.
    fn with(buffer: B) -> (r: Result<Self, Error>)
        requires
            buffer.wf(),
        ensures
            r matches Ok(b) ==> b.wf() && b.fins() == Seq::<Fixup>::empty(),
    ;

    /// The shared deferred-fixup list, open for extension by an enclosing
    /// or enclosed builder.
    fn finalizer(&mut self) -> (r: &mut Finalization)
        requires
            old(self).wf(),
        ensures
            r@ == old(self).fins(),
            final(self).fins() == final(r)@,
            final(self).wf(),
    ;

    /// Seal the packet: register this layer's own fixups, run the whole
    /// chain over the complete bytes, and hand them out.
    fn build(self) -> (r: Result<Vec<u8>, Error>)
        requires
            self.wf(),
    ;
}

} // verus!
