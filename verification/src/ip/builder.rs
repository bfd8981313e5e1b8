//! The generic IP packet builder: wraps a buffer and specializes into the
//! IPv4 or IPv6 builder, forwarding the accumulated fixups.

use vstd::prelude::*;

use crate::buffer::Buffer;
use crate::buffer::Dynamic;
use crate::builder::Builder as Build;
use crate::builder::Finalization;
use crate::builder::Fixup;
use crate::error::Error;
use crate::ip::v4;
use crate::ip::v6;

verus! {

/// Generic IP packet builder: holds the buffer and fixups until the caller
/// picks a version.
pub struct Builder<B: Buffer = Dynamic> {
    buffer: B,
    finalizer: Finalization,
}

impl<B: Buffer> Builder<B> {
    /// The owned buffer.
    pub closed spec fn buf(&self) -> B {
        self.buffer
    }
}

impl<B: Buffer> Build<B> for Builder<B> {
    closed spec fn wf(&self) -> bool {
        self.buffer.wf()
    }

    closed spec fn fins(&self) -> Seq<Fixup> {
        self.finalizer@
    }

    fn with(buffer: B) -> (r: Result<Self, Error>)
        ensures
            r is Ok,
            r matches Ok(b) ==> b.buf() == buffer,
    {
        Ok(Builder { buffer, finalizer: Default::default() })
    }

    fn finalizer(&mut self) -> (r: &mut Finalization)
        ensures
            final(self).buf() == old(self).buf(),
    {
        &mut self.finalizer
    }

    /// No version was picked, so there is nothing to build.
    fn build(self) -> (r: Result<Vec<u8>, Error>)
        ensures
            r == Err::<Vec<u8>, Error>(Error::InvalidPacket),
    {
        Err(Error::InvalidPacket)
    }
}

impl Default for Builder<Dynamic> {
    /// A builder over a fresh growable buffer.
    fn default() -> (r: Self)
        ensures
            r.wf(),
            r.fins() == Seq::<Fixup>::empty(),
    {
        Builder::with(Dynamic::default()).unwrap()
    }
}

impl<B: Buffer> Builder<B> {
    /// Specialize into an IPv4 builder, handing over the buffer and the
    /// fixups registered so far.
    pub fn v4(self) -> (r: Result<v4::Builder<B>, Error>)
        requires
            self.wf(),
        ensures
            r is Ok <==> self.buf().can_grow(20),
            r matches Err(e) ==> e == Error::SmallBuffer,
            r matches Ok(b) ==> ({
                &&& b.wf()
                &&& b.fins() == self.fins()
                &&& b.sealed() == self.buf().store().subrange(0, self.buf().committed())
                &&& b.layer_bytes() == crate::buffer::zeros(20).update(0, 0x45u8)
                &&& b.buf().layer() == self.buf().committed()
                &&& b.buf().committed() == self.buf().committed() + 20
                &&& b.buf().wf()
                &&& b.buf().store().len() == (if self.buf().committed() + 20
                    <= self.buf().store().len() {
                    self.buf().store().len() as int
                } else {
                    self.buf().committed() + 20
                })
                &&& forall|j: int|
                    self.buf().committed() + 20 <= j < self.buf().store().len()
                        ==> b.buf().store()[j] == self.buf().store()[j]
            }),
    {
        let mut inner = match v4::Builder::with(self.buffer) {
            Ok(b) => b,
            Err(e) => {
                return Err(e);
            },
        };
        inner.finalizer().extend(self.finalizer);
        Ok(inner)
    }

    /// Specialize into the IPv6 builder stub, handing over the buffer and
    /// the fixups registered so far.
    pub fn v6(self) -> (r: Result<v6::Builder<B>, Error>)
        requires
            self.wf(),
        ensures
            r is Ok,
            r matches Ok(b) ==> b.wf() && b.fins() == self.fins() && b.buf() == self.buf(),
    {
        let mut inner = match v6::Builder::with(self.buffer) {
            Ok(b) => b,
            Err(e) => {
                return Err(e);
            },
        };
        inner.finalizer().extend(self.finalizer);
        Ok(inner)
    }
}

} // verus!
