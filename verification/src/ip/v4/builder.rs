//! The IPv4 packet builder: reserves a twenty-byte header and defers the
//! total-length and header-checksum writes to finalization.

use vstd::prelude::*;

use crate::buffer::sealed_of;
use crate::buffer::window_of;
use crate::buffer::write_layer_u16;
use crate::buffer::write_layer_u8;
use crate::buffer::zeros;
use crate::buffer::Buffer;
use crate::buffer::Dynamic;
use crate::builder::run_bytes;
use crate::builder::run_result;
use crate::builder::Builder as Build;
use crate::builder::Finalization;
use crate::builder::Fixup;
use crate::error::Error;
use crate::ip::Protocol;
use crate::wire::spec_write16;

verus! {

/// IPv4 packet builder.  `with` writes the version and header-length byte;
/// `build` registers the length and checksum fixups for this layer.
pub struct Builder<B: Buffer = Dynamic> {
    buffer: B,
    finalizer: Finalization,
}

impl<B: Buffer> Builder<B> {
    /// The owned buffer.
    pub closed spec fn buf(&self) -> B {
        self.buffer
    }

    /// The sealed outer layers: this builder never touches them.
    pub open spec fn sealed(&self) -> Seq<u8> {
        sealed_of(self.buf())
    }

    /// This builder's own layer.
    pub open spec fn layer_bytes(&self) -> Seq<u8> {
        window_of(self.buf())
    }
}

impl<B: Buffer> Build<B> for Builder<B> {
    closed spec fn wf(&self) -> bool {
        &&& self.buffer.wf()
        &&& self.buffer.committed() - self.buffer.layer() >= 20
    }

    closed spec fn fins(&self) -> Seq<Fixup> {
        self.finalizer@
    }

    fn with(mut buffer: B) -> (r: Result<Self, Error>)
        ensures
            r is Ok <==> buffer.can_grow(20),
            r matches Err(e) ==> e == Error::SmallBuffer,
            r matches Ok(b) ==> ({
                &&& b.sealed() == buffer.store().subrange(0, buffer.committed())
                &&& b.layer_bytes() == zeros(20).update(0, 0x45u8)
                &&& b.buf().layer() == buffer.committed()
                &&& b.buf().committed() == buffer.committed() + 20
                &&& b.buf().wf()
                &&& b.buf().store().len() == (if buffer.committed() + 20 <= buffer.store().len() {
                    buffer.store().len() as int
                } else {
                    buffer.committed() + 20
                })
                &&& forall|j: int|
                    buffer.committed() + 20 <= j < buffer.store().len() ==> b.buf().store()[j]
                        == buffer.store()[j]
                &&& forall|e: int| 0 <= e ==> (b.buf().can_grow(e) <==> buffer.can_grow(20 + e))
            }),
    {
        let ghost orig = buffer;
        match buffer.next(20) {
            Ok(()) => {
                let ghost grown = buffer;
                write_layer_u8(&mut buffer, 0, 0x45);
                proof {
                    grown.lemma_wf_bounds();
                    crate::buffer::lemma_tail_pointwise(
                        grown.store(),
                        buffer.store(),
                        grown.committed(),
                        grown.store().len() as int,
                    );
                    assert(window_of(buffer) =~= zeros(20).update(0, 0x45u8));
                }
                Ok(Builder { buffer, finalizer: Default::default() })
            },
            Err(e) => Err(e),
        }
    }

    fn finalizer(&mut self) -> (r: &mut Finalization)
        ensures
            final(self).buf() == old(self).buf(),
    {
        &mut self.finalizer
    }

    fn build(self) -> (r: Result<Vec<u8>, Error>)
        ensures
            ({
                let fs = self.fins().push(
                    Fixup::V4Checksum { layer: self.buf().layer() as usize },
                ).push(Fixup::V4Length { layer: self.buf().layer() as usize });
                let st = self.sealed() + self.layer_bytes();
                &&& (r is Ok <==> run_result(fs, st) is Ok)
                &&& (r matches Ok(v) ==> v@ == run_bytes(fs, st))
                &&& (r matches Err(e) ==> run_result(fs, st) == Err::<(), Error>(e))
            }),
    {
        let mut this = self;
        proof {
            this.buffer.lemma_wf_bounds();
        }
        let offset = this.buffer.used() - this.buffer.data().len();
        this.finalizer.add(Fixup::V4Checksum { layer: offset });
        this.finalizer.add(Fixup::V4Length { layer: offset });
        let ghost g = this.buffer;
        let mut out = this.buffer.into_inner();
        proof {
            assert(out@ =~= sealed_of(g) + window_of(g));
        }
        match this.finalizer.finalize(&mut out) {
            Ok(()) => Ok(out),
            Err(e) => Err(e),
        }
    }
}

impl Default for Builder<Dynamic> {
    /// A builder over a fresh growable buffer.
    fn default() -> (r: Self)
        ensures
            r.wf(),
            r.fins() == Seq::<Fixup>::empty(),
            r.sealed() == Seq::<u8>::empty(),
            r.layer_bytes() == zeros(20).update(0, 0x45u8),
            r.buf().wf(),
            r.buf().store() == zeros(20).update(0, 0x45u8),
    {
        let r = Builder::with(Dynamic::default()).unwrap();
        proof {
            assert(r.sealed() =~= Seq::<u8>::empty());
            r.buf().lemma_all_committed();
            assert(r.buf().store() =~= zeros(20).update(0, 0x45u8));
        }
        r
    }
}

impl<B: Buffer> Builder<B> {
    /// The identification field.
    pub fn id(self, value: u16) -> (r: Result<Self, Error>)
        requires
            self.wf(),
        ensures
            r is Ok,
            r matches Ok(b) ==> ({
                &&& b.wf()
                &&& b.fins() == self.fins()
                &&& b.sealed() == self.sealed()
                &&& b.buf().layer() == self.buf().layer()
                &&& b.buf().committed() == self.buf().committed()
                &&& b.buf().wf()
                &&& b.buf().store().len() == self.buf().store().len()
                &&& b.buf().store().subrange(
                    self.buf().committed(),
                    self.buf().store().len() as int,
                ) == self.buf().store().subrange(
                    self.buf().committed(),
                    self.buf().store().len() as int,
                )
                &&& b.layer_bytes() == spec_write16(self.layer_bytes(), 4, value)
                &&& forall|e: int| 0 <= e ==> (b.buf().can_grow(e) <==> self.buf().can_grow(e))
            }),
    {
        let mut this = self;
        write_layer_u16(&mut this.buffer, 4, value);
        Ok(this)
    }

    /// The time-to-live field.
    pub fn ttl(self, value: u8) -> (r: Result<Self, Error>)
        requires
            self.wf(),
        ensures
            r is Ok,
            r matches Ok(b) ==> ({
                &&& b.wf()
                &&& b.fins() == self.fins()
                &&& b.sealed() == self.sealed()
                &&& b.buf().layer() == self.buf().layer()
                &&& b.buf().committed() == self.buf().committed()
                &&& b.buf().wf()
                &&& b.buf().store().len() == self.buf().store().len()
                &&& b.buf().store().subrange(
                    self.buf().committed(),
                    self.buf().store().len() as int,
                ) == self.buf().store().subrange(
                    self.buf().committed(),
                    self.buf().store().len() as int,
                )
                &&& b.layer_bytes() == self.layer_bytes().update(8, value)
                &&& forall|e: int| 0 <= e ==> (b.buf().can_grow(e) <==> self.buf().can_grow(e))
            }),
    {
        let mut this = self;
        write_layer_u8(&mut this.buffer, 8, value);
        Ok(this)
    }

    /// The next-level protocol field.
    pub fn protocol(self, value: Protocol) -> (r: Result<Self, Error>)
        requires
            self.wf(),
        ensures
            r is Ok,
            r matches Ok(b) ==> ({
                &&& b.wf()
                &&& b.fins() == self.fins()
                &&& b.sealed() == self.sealed()
                &&& b.buf().layer() == self.buf().layer()
                &&& b.buf().committed() == self.buf().committed()
                &&& b.buf().wf()
                &&& b.buf().store().len() == self.buf().store().len()
                &&& b.buf().store().subrange(
                    self.buf().committed(),
                    self.buf().store().len() as int,
                ) == self.buf().store().subrange(
                    self.buf().committed(),
                    self.buf().store().len() as int,
                )
                &&& b.layer_bytes() == self.layer_bytes().update(
                    9,
                    crate::ip::spec_protocol_to(value),
                )
                &&& forall|e: int| 0 <= e ==> (b.buf().can_grow(e) <==> self.buf().can_grow(e))
            }),
    {
        let mut this = self;
        let v: u8 = value.into();
        write_layer_u8(&mut this.buffer, 9, v);
        Ok(this)
    }

    /// The source address.
    pub fn source(self, value: [u8; 4]) -> (r: Result<Self, Error>)
        requires
            self.wf(),
        ensures
            r is Ok,
            r matches Ok(b) ==> ({
                &&& b.wf()
                &&& b.fins() == self.fins()
                &&& b.sealed() == self.sealed()
                &&& b.buf().layer() == self.buf().layer()
                &&& b.buf().committed() == self.buf().committed()
                &&& b.buf().wf()
                &&& b.buf().store().len() == self.buf().store().len()
                &&& b.buf().store().subrange(
                    self.buf().committed(),
                    self.buf().store().len() as int,
                ) == self.buf().store().subrange(
                    self.buf().committed(),
                    self.buf().store().len() as int,
                )
                &&& b.layer_bytes() == self.layer_bytes().update(12, value@[0]).update(
                    13,
                    value@[1],
                ).update(14, value@[2]).update(15, value@[3])
                &&& forall|e: int| 0 <= e ==> (b.buf().can_grow(e) <==> self.buf().can_grow(e))
            }),
    {
        let mut this = self;
        write_layer_u8(&mut this.buffer, 12, value[0]);
        write_layer_u8(&mut this.buffer, 13, value[1]);
        write_layer_u8(&mut this.buffer, 14, value[2]);
        write_layer_u8(&mut this.buffer, 15, value[3]);
        Ok(this)
    }

    /// The destination address.
    pub fn destination(self, value: [u8; 4]) -> (r: Result<Self, Error>)
        requires
            self.wf(),
        ensures
            r is Ok,
            r matches Ok(b) ==> ({
                &&& b.wf()
                &&& b.fins() == self.fins()
                &&& b.sealed() == self.sealed()
                &&& b.buf().layer() == self.buf().layer()
                &&& b.buf().committed() == self.buf().committed()
                &&& b.buf().wf()
                &&& b.buf().store().len() == self.buf().store().len()
                &&& b.buf().store().subrange(
                    self.buf().committed(),
                    self.buf().store().len() as int,
                ) == self.buf().store().subrange(
                    self.buf().committed(),
                    self.buf().store().len() as int,
                )
                &&& b.layer_bytes() == self.layer_bytes().update(16, value@[0]).update(
                    17,
                    value@[1],
                ).update(18, value@[2]).update(19, value@[3])
                &&& forall|e: int| 0 <= e ==> (b.buf().can_grow(e) <==> self.buf().can_grow(e))
            }),
    {
        let mut this = self;
        write_layer_u8(&mut this.buffer, 16, value[0]);
        write_layer_u8(&mut this.buffer, 17, value[1]);
        write_layer_u8(&mut this.buffer, 18, value[2]);
        write_layer_u8(&mut this.buffer, 19, value[3]);
        Ok(this)
    }
}

} // verus!
