//! Response body representations and the size they report for
//! diagnostics and framing.

use vstd::prelude::*;

verus! {

/// Size that a body reports: absent, known zero, or a known byte count.
#[derive(Clone, Copy, PartialEq, Eq, Structural, Debug)]
pub enum BodySize {
    Absent,
    Zero,
    Sized(u64),
}

/// Concrete body representation: no body at all, a zero-length body, or
/// buffered bytes.
#[derive(Debug)]
pub enum Body {
    Absent,
    Empty,
    Bytes(Vec<u8>),
}

/// Capability of reporting a size, shared by every body representation.
pub trait MessageBody: Sized {
    /// The size the body reports, as a mathematical value.
    spec fn size_spec(&self) -> BodySize;

    /// Report the size of the body.
    fn size(&self) -> (r: BodySize)
        ensures
            r == self.size_spec(),
    ;
}

impl MessageBody for Body {
    open spec fn size_spec(&self) -> BodySize {
        match self {
            Body::Absent => BodySize::Absent,
            Body::Empty => BodySize::Zero,
            Body::Bytes(v) => BodySize::Sized(v@.len() as u64),
        }
    }

    fn size(&self) -> (r: BodySize) {
        match self {
            Body::Absent => BodySize::Absent,
            Body::Empty => BodySize::Zero,
            Body::Bytes(v) => BodySize::Sized(v.len() as u64),
        }
    }
}

/// Body slot of a response: either the generic representation the
/// handler produced, or an already-buffered replacement body.
#[derive(Debug)]
pub enum ResponseBody<B> {
    Body(B),
    Other(Body),
}

impl<B: MessageBody> MessageBody for ResponseBody<B> {
    open spec fn size_spec(&self) -> BodySize {
        match self {
            ResponseBody::Body(b) => b.size_spec(),
            ResponseBody::Other(b) => b.size_spec(),
        }
    }

    fn size(&self) -> (r: BodySize) {
        match self {
            ResponseBody::Body(b) => b.size(),
            ResponseBody::Other(b) => b.size(),
        }
    }
}

} // verus!
