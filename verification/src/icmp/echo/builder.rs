//! The Echo Request/Reply packet builder.

use vstd::prelude::*;

use crate::buffer::push_layer_byte;
use crate::buffer::sealed_of;
use crate::buffer::window_of;
use crate::buffer::write_layer_u16;
use crate::buffer::write_layer_u8;
use crate::buffer::zeros;
use crate::buffer::Buffer;
use crate::buffer::Dynamic;
use crate::builder::run_bytes;
use crate::builder::run_result;
use crate::builder::Builder as Build;
use crate::builder::Finalization;
use crate::builder::Fixup;
use crate::error::Error;
use crate::icmp::builder::prepare;
use crate::icmp::echo::Packet;
use crate::icmp::Kind;
use crate::wire::spec_write16;

verus! {

/// Round trip, build side: the layer a fresh builder holds after choosing
/// the kind, writing identifier and sequence, and appending the payload is
/// turned by the checksum fixup into exactly the packet bytes the view
/// parses — with the layer's own checksum in the checksum field.
pub proof fn lemma_echo_build_bytes(req: bool, ident: u16, seqno: u16, pl: Seq<u8>)
    ensures
        ({
            let layer = spec_write16(
                spec_write16(
                    zeros(8).update(
                        0,
                        if req {
                            8u8
                        } else {
                            0u8
                        },
                    ),
                    4,
                    ident,
                ),
                6,
                seqno,
            ) + pl;
            crate::builder::fixup_apply(Fixup::IcmpChecksum { layer: 0 }, layer)
                == crate::icmp::echo::spec_packet_bytes(
                req,
                ident,
                seqno,
                pl,
                crate::checksum::spec_checksum(layer, 1),
            )
        }),
{
    let kind_byte: u8 = if req {
        8u8
    } else {
        0u8
    };
    let layer = spec_write16(spec_write16(zeros(8).update(0, kind_byte), 4, ident), 6, seqno) + pl;
    assert(layer.subrange(0, layer.len() as int) =~= layer);
    let ck = crate::checksum::spec_checksum(layer, 1);
    assert(crate::wire::spec_write16(layer, 2, ck) =~= crate::icmp::echo::spec_packet_bytes(
        req,
        ident,
        seqno,
        pl,
        ck,
    ));
}

/// Echo Request/Reply packet builder: owns one layer of the buffer, eight
/// header bytes reserved up front, payload grown behind them.
pub struct Builder<B: Buffer = Dynamic> {
    buffer: B,
    finalizer: Finalization,
    kind: bool,
    payload: bool,
}

impl<B: Buffer> Builder<B> {
    /// The owned buffer.
    pub closed spec fn buf(&self) -> B {
        self.buffer
    }

    /// Whether request or reply was chosen.
    pub closed spec fn kind_set(&self) -> bool {
        self.kind
    }

    /// Whether a payload was supplied.
    pub closed spec fn payload_set(&self) -> bool {
        self.payload
    }

    /// The sealed outer layers: this builder never touches them.
    pub open spec fn sealed(&self) -> Seq<u8> {
        sealed_of(self.buf())
    }

    /// This builder's own layer.
    pub open spec fn layer_bytes(&self) -> Seq<u8> {
        window_of(self.buf())
    }
}

impl<B: Buffer> Build<B> for Builder<B> {
    closed spec fn wf(&self) -> bool {
        &&& self.buffer.wf()
        &&& self.buffer.committed() - self.buffer.layer() >= 8
    }

    closed spec fn fins(&self) -> Seq<Fixup> {
        self.finalizer@
    }

    fn with(mut buffer: B) -> (r: Result<Self, Error>)
        ensures
            r is Ok <==> buffer.can_grow(8),
            r matches Err(e) ==> e == Error::SmallBuffer,
            r matches Ok(b) ==> ({
                &&& b.sealed() == buffer.store().subrange(0, buffer.committed())
                &&& b.layer_bytes() == zeros(8)
                &&& b.buf().layer() == buffer.committed()
                &&& b.buf().committed() == buffer.committed() + 8
                &&& b.buf().wf()
                &&& b.buf().store().len() == (if buffer.committed() + 8 <= buffer.store().len() {
                    buffer.store().len() as int
                } else {
                    buffer.committed() + 8
                })
                &&& forall|j: int|
                    buffer.committed() + 8 <= j < buffer.store().len() ==> b.buf().store()[j]
                        == buffer.store()[j]
                &&& !b.kind_set() && !b.payload_set()
                &&& forall|e: int| 0 <= e ==> (b.buf().can_grow(e) <==> buffer.can_grow(8 + e))
            }),
    {
        match buffer.next(8) {
            Ok(()) => Ok(
                Builder { buffer, finalizer: Default::default(), kind: false, payload: false },
            ),
            Err(e) => Err(e),
        }
    }

    fn finalizer(&mut self) -> (r: &mut Finalization)
        ensures
            final(self).buf() == old(self).buf(),
            final(self).kind_set() == old(self).kind_set(),
            final(self).payload_set() == old(self).payload_set(),
    {
        &mut self.finalizer
    }

    fn build(self) -> (r: Result<Vec<u8>, Error>)
        ensures
            !self.kind_set() ==> r == Err::<Vec<u8>, Error>(Error::InvalidPacket),
            self.kind_set() ==> ({
                let fs = self.fins().push(
                    Fixup::IcmpChecksum { layer: self.buf().layer() as usize },
                );
                let st = self.sealed() + self.layer_bytes();
                &&& (r is Ok <==> run_result(fs, st) is Ok)
                &&& (r matches Ok(v) ==> v@ == run_bytes(fs, st))
                &&& (r matches Err(e) ==> run_result(fs, st) == Err::<(), Error>(e))
            }),
    {
        let mut this = self;
        if !this.kind {
            return Err(Error::InvalidPacket);
        }
        prepare(&mut this.finalizer, &this.buffer);
        let ghost g = this.buffer;
        let mut out = this.buffer.into_inner();
        proof {
            g.lemma_wf_bounds();
            assert(out@ =~= sealed_of(g) + window_of(g));
        }
        match this.finalizer.finalize(&mut out) {
            Ok(()) => Ok(out),
            Err(e) => Err(e),
        }
    }
}

impl Default for Builder<Dynamic> {
    /// A builder over a fresh growable buffer.
    fn default() -> (r: Self)
        ensures
            r.wf(),
            r.fins() == Seq::<Fixup>::empty(),
            r.sealed() == Seq::<u8>::empty(),
            r.layer_bytes() == zeros(8),
            r.buf().wf(),
            r.buf().store() == zeros(8),
            !r.kind_set() && !r.payload_set(),
    {
        let r = Builder::with(Dynamic::default()).unwrap();
        proof {
            assert(r.sealed() =~= Seq::<u8>::empty());
            r.buf().lemma_all_committed();
            assert(r.buf().store() =~= zeros(8));
        }
        r
    }
}

impl<B: Buffer> Builder<B> {
    /// A packet view over the bytes written so far.
    pub fn as_packet(&self) -> (r: Result<Packet<&[u8]>, Error>)
        requires
            self.wf(),
        ensures
            r is Ok <==> crate::icmp::echo::spec_valid(self.layer_bytes()),
            r matches Ok(p) ==> p.bytes() == self.layer_bytes(),
    {
        Packet::new(self.buffer.data())
    }

    /// Make it a request.
    pub fn request(self) -> (r: Result<Self, Error>)
        requires
            self.wf(),
        ensures
            r is Ok,
            r matches Ok(b) ==> ({
                &&& b.wf()
                &&& b.kind_set()
                &&& b.payload_set() == self.payload_set()
                &&& b.fins() == self.fins()
                &&& b.sealed() == self.sealed()
                &&& b.buf().layer() == self.buf().layer()
                &&& b.buf().committed() == self.buf().committed()
                &&& b.buf().wf()
                &&& b.buf().store().len() == self.buf().store().len()
                &&& b.buf().store().subrange(
                    self.buf().committed(),
                    self.buf().store().len() as int,
                ) == self.buf().store().subrange(
                    self.buf().committed(),
                    self.buf().store().len() as int,
                )
                &&& b.layer_bytes() == self.layer_bytes().update(0, 8u8)
                &&& forall|e: int| 0 <= e ==> (b.buf().can_grow(e) <==> self.buf().can_grow(e))
            }),
    {
        let mut this = self;
        this.kind = true;
        let v: u8 = Kind::EchoRequest.into();
        write_layer_u8(&mut this.buffer, 0, v);
        Ok(this)
    }

    /// Make it a reply.
    pub fn reply(self) -> (r: Result<Self, Error>)
        requires
            self.wf(),
        ensures
            r is Ok,
            r matches Ok(b) ==> ({
                &&& b.wf()
                &&& b.kind_set()
                &&& b.payload_set() == self.payload_set()
                &&& b.fins() == self.fins()
                &&& b.sealed() == self.sealed()
                &&& b.buf().layer() == self.buf().layer()
                &&& b.buf().committed() == self.buf().committed()
                &&& b.buf().wf()
                &&& b.buf().store().len() == self.buf().store().len()
                &&& b.buf().store().subrange(
                    self.buf().committed(),
                    self.buf().store().len() as int,
                ) == self.buf().store().subrange(
                    self.buf().committed(),
                    self.buf().store().len() as int,
                )
                &&& b.layer_bytes() == self.layer_bytes().update(0, 0u8)
                &&& forall|e: int| 0 <= e ==> (b.buf().can_grow(e) <==> self.buf().can_grow(e))
            }),
    {
        let mut this = self;
        this.kind = true;
        let v: u8 = Kind::EchoReply.into();
        write_layer_u8(&mut this.buffer, 0, v);
        Ok(this)
    }

    /// Packet identifier.
    pub fn identifier(self, value: u16) -> (r: Result<Self, Error>)
        requires
            self.wf(),
        ensures
            r is Ok,
            r matches Ok(b) ==> ({
                &&& b.wf()
                &&& b.kind_set() == self.kind_set()
                &&& b.payload_set() == self.payload_set()
                &&& b.fins() == self.fins()
                &&& b.sealed() == self.sealed()
                &&& b.buf().layer() == self.buf().layer()
                &&& b.buf().committed() == self.buf().committed()
                &&& b.buf().wf()
                &&& b.buf().store().len() == self.buf().store().len()
                &&& b.buf().store().subrange(
                    self.buf().committed(),
                    self.buf().store().len() as int,
                ) == self.buf().store().subrange(
                    self.buf().committed(),
                    self.buf().store().len() as int,
                )
                &&& b.layer_bytes() == spec_write16(self.layer_bytes(), 4, value)
                &&& forall|e: int| 0 <= e ==> (b.buf().can_grow(e) <==> self.buf().can_grow(e))
            }),
    {
        let mut this = self;
        write_layer_u16(&mut this.buffer, 4, value);
        Ok(this)
    }

    /// Packet sequence.
    pub fn sequence(self, value: u16) -> (r: Result<Self, Error>)
        requires
            self.wf(),
        ensures
            r is Ok,
            r matches Ok(b) ==> ({
                &&& b.wf()
                &&& b.kind_set() == self.kind_set()
                &&& b.payload_set() == self.payload_set()
                &&& b.fins() == self.fins()
                &&& b.sealed() == self.sealed()
                &&& b.buf().layer() == self.buf().layer()
                &&& b.buf().committed() == self.buf().committed()
                &&& b.buf().wf()
                &&& b.buf().store().len() == self.buf().store().len()
                &&& b.buf().store().subrange(
                    self.buf().committed(),
                    self.buf().store().len() as int,
                ) == self.buf().store().subrange(
                    self.buf().committed(),
                    self.buf().store().len() as int,
                )
                &&& b.layer_bytes() == spec_write16(self.layer_bytes(), 6, value)
                &&& forall|e: int| 0 <= e ==> (b.buf().can_grow(e) <==> self.buf().can_grow(e))
            }),
    {
        let mut this = self;
        write_layer_u16(&mut this.buffer, 6, value);
        Ok(this)
    }

    /// Payload for the packet, appended behind the header; at most once.
    pub fn payload(self, value: &[u8]) -> (r: Result<Self, Error>)
        requires
            self.wf(),
        ensures
            r is Ok <==> !self.payload_set() && self.buf().can_grow(value@.len() as int),
            r matches Err(e) ==> e == (if self.payload_set() {
                Error::AlreadyDefined
            } else {
                Error::SmallBuffer
            }),
            r matches Ok(b) ==> ({
                &&& b.wf()
                &&& b.kind_set() == self.kind_set()
                &&& b.payload_set()
                &&& b.fins() == self.fins()
                &&& b.sealed() == self.sealed()
                &&& b.buf().layer() == self.buf().layer()
                &&& b.buf().committed() == self.buf().committed() + value@.len()
                &&& b.buf().wf()
                &&& b.buf().store().len() == (if self.buf().committed() + value@.len()
                    <= self.buf().store().len() {
                    self.buf().store().len() as int
                } else {
                    self.buf().committed() + value@.len()
                })
                &&& forall|j: int|
                    self.buf().committed() + value@.len() <= j < self.buf().store().len()
                        ==> b.buf().store()[j] == self.buf().store()[j]
                &&& b.layer_bytes() == self.layer_bytes() + value@
                &&& forall|e: int|
                    0 <= e ==> (b.buf().can_grow(e) <==> self.buf().can_grow(value@.len() + e))
            }),
    {
        let mut this = self;
        if this.payload {
            return Err(Error::AlreadyDefined);
        }
        this.payload = true;
        let ghost orig = this.buffer;
        let ghost pre_kind = this.kind;
        let ghost pre_fin = this.finalizer@;
        proof {
            orig.lemma_wf_bounds();
        }
        let mut i: usize = 0;
        while i < value.len()
            invariant
                i <= value@.len(),
                this.buffer.wf(),
                this.buffer.layer() == orig.layer(),
                this.buffer.committed() == orig.committed() + i,
                orig.wf(),
                orig.committed() - orig.layer() >= 8,
                orig == self.buf(),
                !self.payload_set(),
                pre_kind == self.kind_set(),
                pre_fin == self.fins(),
                sealed_of(this.buffer) == sealed_of(orig),
                window_of(this.buffer) == window_of(orig) + value@.subrange(0, i as int),
                this.buffer.store().len() == (if orig.committed() + i <= orig.store().len() {
                    orig.store().len() as int
                } else {
                    orig.committed() + i
                }),
                forall|j: int|
                    orig.committed() + i <= j < orig.store().len() ==> this.buffer.store()[j]
                        == orig.store()[j],
                forall|e: int| 0 <= e ==> (this.buffer.can_grow(e) <==> orig.can_grow(i + e)),
                this.kind == pre_kind,
                this.payload,
                this.finalizer@ == pre_fin,
            decreases value@.len() - i,
        {
            match push_layer_byte(&mut this.buffer, value[i]) {
                Ok(()) => {
                    proof {
                        assert((window_of(orig) + value@.subrange(0, i as int)).push(value@[i as int])
                            =~= window_of(orig) + value@.subrange(0, i as int + 1));
                    }
                    i = i + 1;
                },
                Err(e) => {
                    proof {
                        assert(!this.buffer.can_grow(1));
                        if orig.can_grow(value@.len() as int) {
                            orig.lemma_can_grow_mono(value@.len() as int, i + 1);
                            assert(orig.can_grow(i + 1));
                            assert(this.buffer.can_grow(1));
                            assert(false);
                        }
                    }
                    return Err(e);
                },
            }
        }
        proof {
            this.buffer.lemma_wf_bounds();
            assert(this.buffer.can_grow(0));
            assert(orig.can_grow(value@.len() as int));
            assert(value@.subrange(0, value@.len() as int) =~= value@);
        }
        Ok(this)
    }
}

} // verus!
