//! Format descriptors and the rule of format negotiation.

use vstd::prelude::*;
use crate::fault::Fault;

verus! {

/// A pixel encoding tag: a code of four characters, such as `MJPG`.
#[derive(Clone, Copy, Debug, PartialEq, Eq)]
pub struct FourCc {
    pub repr: [u8; 4],
}

impl View for FourCc {
    type V = Seq<u8>;

    open spec fn view(&self) -> Seq<u8> {
        self.repr@
    }
}

impl FourCc {
    /// The encoding with these four characters.
    pub fn new(repr: &[u8; 4]) -> (code: FourCc)
        ensures
            code@ == repr@,
    {
        FourCc { repr: *repr }
    }

    /// Whether two tags name the same encoding.
    pub fn same_as(&self, other: &FourCc) -> (same: bool)
        ensures
            same <==> self@ == other@,
    {
        let same = self.repr[0] == other.repr[0] && self.repr[1] == other.repr[1]
            && self.repr[2] == other.repr[2] && self.repr[3] == other.repr[3];
        proof {
            if same {
                assert(self@ =~= other@);
            }
        }
        same
    }
}

/// A format descriptor: a resolution and a pixel encoding.
#[derive(Clone, Copy, Debug, PartialEq, Eq)]
pub struct FormatDescriptor {
    pub width: u32,
    pub height: u32,
    pub encoding: FourCc,
}

impl FormatDescriptor {
    /// The descriptor of this resolution and encoding.
    pub fn new(width: u32, height: u32, encoding: FourCc) -> (format: FormatDescriptor)
        ensures
            format.width == width,
            format.height == height,
            format.encoding == encoding,
    {
        FormatDescriptor { width, height, encoding }
    }

    /// Whether both descriptors have the same encoding.
    pub open spec fn same_encoding(&self, other: &FormatDescriptor) -> bool {
        self.encoding@ == other.encoding@
    }

    /// Whether both descriptors have the same resolution.
    pub open spec fn same_size(&self, other: &FormatDescriptor) -> bool {
        self.width == other.width && self.height == other.height
    }
}

/// What the caller has decided to do when the device settles on another
/// encoding than the preferred one.
#[derive(Clone, Copy, Debug, PartialEq, Eq, Structural)]
pub enum OnMismatch {
    /// The mismatch is a fault.
    Abort,
    /// The device's encoding is accepted, and the result says so.
    Degrade,
}

/// The format a negotiation ended with.
#[derive(Clone, Copy, Debug, PartialEq, Eq)]
pub struct Negotiated {
    /// The format the device accepted, which is the one in force.
    pub format: FormatDescriptor,
    /// The device substituted another encoding, and the caller accepts it.
    pub degraded: bool,
    /// The device changed the resolution.
    pub resized: bool,
}

/// Compares the format the device accepted with the preferred one. A
/// substituted encoding is a fault unless the caller takes the degradation,
/// which the result then records; a changed resolution is recorded and is
/// no fault.
pub fn negotiate_format(
    preferred: &FormatDescriptor,
    accepted: &FormatDescriptor,
    on_mismatch: OnMismatch,
) -> (outcome: Result<Negotiated, Fault>)
    ensures
        outcome is Err <==> !preferred.same_encoding(accepted) && on_mismatch == OnMismatch::Abort,
        outcome matches Err(fault) ==> fault == Fault::FormatNegotiationMismatch,
        outcome matches Ok(negotiated) ==> {
            &&& negotiated.format == *accepted
            &&& negotiated.degraded == !preferred.same_encoding(accepted)
            &&& negotiated.resized == !preferred.same_size(accepted)
        },
{
    let same_encoding = preferred.encoding.same_as(&accepted.encoding);
    if !same_encoding {
        if let OnMismatch::Abort = on_mismatch {
            return Err(Fault::FormatNegotiationMismatch);
        }
    }
    let same_size = preferred.width == accepted.width && preferred.height == accepted.height;
    Ok(Negotiated { format: *accepted, degraded: !same_encoding, resized: !same_size })
}

} // verus!
