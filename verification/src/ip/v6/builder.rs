//! The IPv6 packet builder: building is not implemented, and `build` fails
//! loudly with an invalid-packet error.

use vstd::prelude::*;

use crate::buffer::Buffer;
use crate::buffer::Dynamic;
use crate::builder::Builder as Build;
use crate::builder::Finalization;
use crate::builder::Fixup;
use crate::error::Error;

verus! {

/// IPv6 packet builder stub.
pub struct Builder<B: Buffer = Dynamic> {
    buffer: B,
    finalizer: Finalization,
}

impl<B: Buffer> Builder<B> {
    /// The owned buffer.
    pub closed spec fn buf(&self) -> B {
        self.buffer
    }
}

impl<B: Buffer> Build<B> for Builder<B> {
    closed spec fn wf(&self) -> bool {
        self.buffer.wf()
    }

    closed spec fn fins(&self) -> Seq<Fixup> {
        self.finalizer@
    }

    fn with(buffer: B) -> (r: Result<Self, Error>)
        ensures
            r is Ok,
            r matches Ok(b) ==> b.buf() == buffer,
    {
        Ok(Builder { buffer, finalizer: Default::default() })
    }

    fn finalizer(&mut self) -> (r: &mut Finalization)
        ensures
            final(self).buf() == old(self).buf(),
    {
        &mut self.finalizer
    }

    fn build(self) -> (r: Result<Vec<u8>, Error>)
        ensures
            r == Err::<Vec<u8>, Error>(Error::InvalidPacket),
    {
        Err(Error::InvalidPacket)
    }
}

impl Default for Builder<Dynamic> {
    /// A builder over a fresh growable buffer.
    fn default() -> (r: Self)
        ensures
            r.wf(),
            r.fins() == Seq::<Fixup>::empty(),
    {
        Builder::with(Dynamic::default()).unwrap()
    }
}

} // verus!
