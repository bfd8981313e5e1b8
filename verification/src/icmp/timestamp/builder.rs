//! The Timestamp Request/Reply packet builder: a twenty-byte header of
//! kind, code, checksum, identifier, sequence and three timestamps.

use vstd::prelude::*;

use crate::buffer::sealed_of;
use crate::buffer::window_of;
use crate::buffer::write_layer_u16;
use crate::buffer::write_layer_u32;
use crate::buffer::write_layer_u8;
use crate::buffer::zeros;
use crate::buffer::Buffer;
use crate::buffer::Dynamic;
use crate::builder::run_bytes;
use crate::builder::run_result;
use crate::builder::Builder as Build;
use crate::builder::Finalization;
use crate::builder::Fixup;
use crate::error::Error;
use crate::icmp::builder::prepare;
use crate::icmp::Kind;
use crate::wire::spec_be16;
use crate::wire::spec_be32;
use crate::wire::spec_write16;
use crate::wire::spec_write32;

verus! {

/// The layer a fresh timestamp builder holds after choosing kind byte `k`
/// and writing identifier, sequence and the three timestamps.
pub open spec fn spec_layer_bytes(k: u8, i: u16, s: u16, o: u32, rv: u32, t: u32) -> Seq<u8> {
    spec_write32(
        spec_write32(
            spec_write32(
                spec_write16(spec_write16(zeros(20).update(0, k), 4, i), 6, s),
                8,
                o,
            ),
            12,
            rv,
        ),
        16,
        t,
    )
}

/// Round trip, build side: after the checksum fixup runs, every field the
/// timestamp builder wrote can be read back from the finished bytes, and
/// the checksum field holds the layer's own checksum.
pub proof fn lemma_timestamp_build_bytes(k: u8, i: u16, s: u16, o: u32, rv: u32, t: u32)
    ensures
        ({
            let layer = spec_layer_bytes(k, i, s, o, rv, t);
            let out = crate::builder::fixup_apply(Fixup::IcmpChecksum { layer: 0 }, layer);
            &&& out.len() == 20
            &&& out[0] == k
            &&& spec_be16(out[2], out[3]) == crate::checksum::spec_checksum(layer, 1)
            &&& spec_be16(out[4], out[5]) == i
            &&& spec_be16(out[6], out[7]) == s
            &&& spec_be32(out[8], out[9], out[10], out[11]) == o
            &&& spec_be32(out[12], out[13], out[14], out[15]) == rv
            &&& spec_be32(out[16], out[17], out[18], out[19]) == t
        }),
{
    let layer = spec_layer_bytes(k, i, s, o, rv, t);
    assert(layer.subrange(0, layer.len() as int) =~= layer);
    let ck = crate::checksum::spec_checksum(layer, 1);
    crate::wire::lemma_be16_round(ck);
    crate::wire::lemma_be16_round(i);
    crate::wire::lemma_be16_round(s);
    crate::wire::lemma_be32_round(o);
    crate::wire::lemma_be32_round(rv);
    crate::wire::lemma_be32_round(t);
}

/// Timestamp Request/Reply packet builder.
pub struct Builder<B: Buffer = Dynamic> {
    buffer: B,
    finalizer: Finalization,
    kind: bool,
}

impl<B: Buffer> Builder<B> {
    /// The owned buffer.
    pub closed spec fn buf(&self) -> B {
        self.buffer
    }

    /// Whether request or reply was chosen.
    pub closed spec fn kind_set(&self) -> bool {
        self.kind
    }

    /// The sealed outer layers: this builder never touches them.
    pub open spec fn sealed(&self) -> Seq<u8> {
        sealed_of(self.buf())
    }

    /// This builder's own layer.
    pub open spec fn layer_bytes(&self) -> Seq<u8> {
        window_of(self.buf())
    }
}

impl<B: Buffer> Build<B> for Builder<B> {
    closed spec fn wf(&self) -> bool {
        &&& self.buffer.wf()
        &&& self.buffer.committed() - self.buffer.layer() >= 20
    }

    closed spec fn fins(&self) -> Seq<Fixup> {
        self.finalizer@
    }

    fn with(mut buffer: B) -> (r: Result<Self, Error>)
        ensures
            r is Ok <==> buffer.can_grow(20),
            r matches Err(e) ==> e == Error::SmallBuffer,
            r matches Ok(b) ==> ({
                &&& b.sealed() == buffer.store().subrange(0, buffer.committed())
                &&& b.layer_bytes() == zeros(20)
                &&& b.buf().layer() == buffer.committed()
                &&& b.buf().committed() == buffer.committed() + 20
                &&& b.buf().wf()
                &&& b.buf().store().len() == (if buffer.committed() + 20 <= buffer.store().len() {
                    buffer.store().len() as int
                } else {
                    buffer.committed() + 20
                })
                &&& forall|j: int|
                    buffer.committed() + 20 <= j < buffer.store().len() ==> b.buf().store()[j]
                        == buffer.store()[j]
                &&& !b.kind_set()
                &&& forall|e: int| 0 <= e ==> (b.buf().can_grow(e) <==> buffer.can_grow(20 + e))
            }),
    {
        match buffer.next(20) {
            Ok(()) => Ok(Builder { buffer, finalizer: Default::default(), kind: false }),
            Err(e) => Err(e),
        }
    }

    fn finalizer(&mut self) -> (r: &mut Finalization)
        ensures
            final(self).buf() == old(self).buf(),
            final(self).kind_set() == old(self).kind_set(),
    {
        &mut self.finalizer
    }

    fn build(self) -> (r: Result<Vec<u8>, Error>)
        ensures
            !self.kind_set() ==> r == Err::<Vec<u8>, Error>(Error::InvalidPacket),
            self.kind_set() ==> ({
                let fs = self.fins().push(
                    Fixup::IcmpChecksum { layer: self.buf().layer() as usize },
                );
                let st = self.sealed() + self.layer_bytes();
                &&& (r is Ok <==> run_result(fs, st) is Ok)
                &&& (r matches Ok(v) ==> v@ == run_bytes(fs, st))
                &&& (r matches Err(e) ==> run_result(fs, st) == Err::<(), Error>(e))
            }),
    {
        let mut this = self;
        if !this.kind {
            return Err(Error::InvalidPacket);
        }
        prepare(&mut this.finalizer, &this.buffer);
        let ghost g = this.buffer;
        let mut out = this.buffer.into_inner();
        proof {
            g.lemma_wf_bounds();
            assert(out@ =~= sealed_of(g) + window_of(g));
        }
        match this.finalizer.finalize(&mut out) {
            Ok(()) => Ok(out),
            Err(e) => Err(e),
        }
    }
}

impl Default for Builder<Dynamic> {
    /// A builder over a fresh growable buffer.
    fn default() -> (r: Self)
        ensures
            r.wf(),
            r.fins() == Seq::<Fixup>::empty(),
            r.sealed() == Seq::<u8>::empty(),
            r.layer_bytes() == zeros(20),
            r.buf().wf(),
            r.buf().store() == zeros(20),
            !r.kind_set(),
    {
        let r = Builder::with(Dynamic::default()).unwrap();
        proof {
            assert(r.sealed() =~= Seq::<u8>::empty());
            r.buf().lemma_all_committed();
            assert(r.buf().store() =~= zeros(20));
        }
        r
    }
}

impl<B: Buffer> Builder<B> {
    /// Make it a request.
    pub fn request(self) -> (r: Result<Self, Error>)
        requires
            self.wf(),
        ensures
            r is Ok,
            r matches Ok(b) ==> ({
                &&& b.wf()
                &&& b.kind_set()
                &&& b.fins() == self.fins()
                &&& b.sealed() == self.sealed()
                &&& b.buf().layer() == self.buf().layer()
                &&& b.buf().committed() == self.buf().committed()
                &&& b.buf().wf()
                &&& b.buf().store().len() == self.buf().store().len()
                &&& b.buf().store().subrange(
                    self.buf().committed(),
                    self.buf().store().len() as int,
                ) == self.buf().store().subrange(
                    self.buf().committed(),
                    self.buf().store().len() as int,
                )
                &&& b.layer_bytes() == self.layer_bytes().update(0, 13u8)
                &&& forall|e: int| 0 <= e ==> (b.buf().can_grow(e) <==> self.buf().can_grow(e))
            }),
    {
        let mut this = self;
        this.kind = true;
        let v: u8 = Kind::TimestampRequest.into();
        write_layer_u8(&mut this.buffer, 0, v);
        Ok(this)
    }

    /// Make it a reply.
    pub fn reply(self) -> (r: Result<Self, Error>)
        requires
            self.wf(),
        ensures
            r is Ok,
            r matches Ok(b) ==> ({
                &&& b.wf()
                &&& b.kind_set()
                &&& b.fins() == self.fins()
                &&& b.sealed() == self.sealed()
                &&& b.buf().layer() == self.buf().layer()
                &&& b.buf().committed() == self.buf().committed()
                &&& b.buf().wf()
                &&& b.buf().store().len() == self.buf().store().len()
                &&& b.buf().store().subrange(
                    self.buf().committed(),
                    self.buf().store().len() as int,
                ) == self.buf().store().subrange(
                    self.buf().committed(),
                    self.buf().store().len() as int,
                )
                &&& b.layer_bytes() == self.layer_bytes().update(0, 14u8)
                &&& forall|e: int| 0 <= e ==> (b.buf().can_grow(e) <==> self.buf().can_grow(e))
            }),
    {
        let mut this = self;
        this.kind = true;
        let v: u8 = Kind::TimestampReply.into();
        write_layer_u8(&mut this.buffer, 0, v);
        Ok(this)
    }

    /// Packet identifier.
    pub fn identifier(self, value: u16) -> (r: Result<Self, Error>)
        requires
            self.wf(),
        ensures
            r is Ok,
            r matches Ok(b) ==> ({
                &&& b.wf()
                &&& b.kind_set() == self.kind_set()
                &&& b.fins() == self.fins()
                &&& b.sealed() == self.sealed()
                &&& b.buf().layer() == self.buf().layer()
                &&& b.buf().committed() == self.buf().committed()
                &&& b.buf().wf()
                &&& b.buf().store().len() == self.buf().store().len()
                &&& b.buf().store().subrange(
                    self.buf().committed(),
                    self.buf().store().len() as int,
                ) == self.buf().store().subrange(
                    self.buf().committed(),
                    self.buf().store().len() as int,
                )
                &&& b.layer_bytes() == spec_write16(self.layer_bytes(), 4, value)
                &&& forall|e: int| 0 <= e ==> (b.buf().can_grow(e) <==> self.buf().can_grow(e))
            }),
    {
        let mut this = self;
        write_layer_u16(&mut this.buffer, 4, value);
        Ok(this)
    }

    /// Packet sequence.
    pub fn sequence(self, value: u16) -> (r: Result<Self, Error>)
        requires
            self.wf(),
        ensures
            r is Ok,
            r matches Ok(b) ==> ({
                &&& b.wf()
                &&& b.kind_set() == self.kind_set()
                &&& b.fins() == self.fins()
                &&& b.sealed() == self.sealed()
                &&& b.buf().layer() == self.buf().layer()
                &&& b.buf().committed() == self.buf().committed()
                &&& b.buf().wf()
                &&& b.buf().store().len() == self.buf().store().len()
                &&& b.buf().store().subrange(
                    self.buf().committed(),
                    self.buf().store().len() as int,
                ) == self.buf().store().subrange(
                    self.buf().committed(),
                    self.buf().store().len() as int,
                )
                &&& b.layer_bytes() == spec_write16(self.layer_bytes(), 6, value)
                &&& forall|e: int| 0 <= e ==> (b.buf().can_grow(e) <==> self.buf().can_grow(e))
            }),
    {
        let mut this = self;
        write_layer_u16(&mut this.buffer, 6, value);
        Ok(this)
    }

    /// Creation timestamp.
    pub fn originate(self, value: u32) -> (r: Result<Self, Error>)
        requires
            self.wf(),
        ensures
            r is Ok,
            r matches Ok(b) ==> ({
                &&& b.wf()
                &&& b.kind_set() == self.kind_set()
                &&& b.fins() == self.fins()
                &&& b.sealed() == self.sealed()
                &&& b.buf().layer() == self.buf().layer()
                &&& b.buf().committed() == self.buf().committed()
                &&& b.buf().wf()
                &&& b.buf().store().len() == self.buf().store().len()
                &&& b.buf().store().subrange(
                    self.buf().committed(),
                    self.buf().store().len() as int,
                ) == self.buf().store().subrange(
                    self.buf().committed(),
                    self.buf().store().len() as int,
                )
                &&& b.layer_bytes() == spec_write32(self.layer_bytes(), 8, value)
                &&& forall|e: int| 0 <= e ==> (b.buf().can_grow(e) <==> self.buf().can_grow(e))
            }),
    {
        let mut this = self;
        write_layer_u32(&mut this.buffer, 8, value);
        Ok(this)
    }

    /// Reception timestamp.
    pub fn receive(self, value: u32) -> (r: Result<Self, Error>)
        requires
            self.wf(),
        ensures
            r is Ok,
            r matches Ok(b) ==> ({
                &&& b.wf()
                &&& b.kind_set() == self.kind_set()
                &&& b.fins() == self.fins()
                &&& b.sealed() == self.sealed()
                &&& b.buf().layer() == self.buf().layer()
                &&& b.buf().committed() == self.buf().committed()
                &&& b.buf().wf()
                &&& b.buf().store().len() == self.buf().store().len()
                &&& b.buf().store().subrange(
                    self.buf().committed(),
                    self.buf().store().len() as int,
                ) == self.buf().store().subrange(
                    self.buf().committed(),
                    self.buf().store().len() as int,
                )
                &&& b.layer_bytes() == spec_write32(self.layer_bytes(), 12, value)
                &&& forall|e: int| 0 <= e ==> (b.buf().can_grow(e) <==> self.buf().can_grow(e))
            }),
    {
        let mut this = self;
        write_layer_u32(&mut this.buffer, 12, value);
        Ok(this)
    }

    /// Transmission timestamp.
    pub fn transmit(self, value: u32) -> (r: Result<Self, Error>)
        requires
            self.wf(),
        ensures
            r is Ok,
            r matches Ok(b) ==> ({
                &&& b.wf()
                &&& b.kind_set() == self.kind_set()
                &&& b.fins() == self.fins()
                &&& b.sealed() == self.sealed()
                &&& b.buf().layer() == self.buf().layer()
                &&& b.buf().committed() == self.buf().committed()
                &&& b.buf().wf()
                &&& b.buf().store().len() == self.buf().store().len()
                &&& b.buf().store().subrange(
                    self.buf().committed(),
                    self.buf().store().len() as int,
                ) == self.buf().store().subrange(
                    self.buf().committed(),
                    self.buf().store().len() as int,
                )
                &&& b.layer_bytes() == spec_write32(self.layer_bytes(), 16, value)
                &&& forall|e: int| 0 <= e ==> (b.buf().can_grow(e) <==> self.buf().can_grow(e))
            }),
    {
        let mut this = self;
        write_layer_u32(&mut this.buffer, 16, value);
        Ok(this)
    }
}

} // verus!
