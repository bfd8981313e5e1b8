//! What every ICMP builder does on `build`: register the checksum fixup for
//! its own layer.

use vstd::prelude::*;

use crate::buffer::Buffer;
use crate::builder::Finalization;
use crate::builder::Fixup;

verus! {

/// Register the ICMP checksum fixup for the buffer's current layer.
pub(crate) fn prepare<B: Buffer>(finalizer: &mut Finalization, buffer: &B)
    requires
        buffer.wf(),
    ensures
        final(finalizer)@ == old(finalizer)@.push(
            Fixup::IcmpChecksum { layer: buffer.layer() as usize },
        ),
{
    proof {
        buffer.lemma_wf_bounds();
    }
    let offset = buffer.used() - buffer.data().len();
    finalizer.add(Fixup::IcmpChecksum { layer: offset });
}

} // verus!
