//! Plain-value models of the protocol's base data: field elements, circle
//! points, digests, opaque replay hints, query sets and line domains.
//!
//! The pipeline never computes with field elements or hashes; it sequences,
//! checks and moves them. Each type therefore carries exactly the data the
//! orchestrator reads, and nothing of the external crates' machinery.

use vstd::prelude::*;

verus! {

/// A secure-field element: an element of the degree-four extension of the
/// Mersenne-31 base field, carried as its four base-field coordinates.
#[derive(Clone, Copy, PartialEq, Eq, Structural, Debug)]
pub struct QM31 {
    /// First base-field coordinate.
    pub a: u32,
    /// Second base-field coordinate.
    pub b: u32,
    /// Third base-field coordinate.
    pub c: u32,
    /// Fourth base-field coordinate.
    pub d: u32,
}

/// A point with secure-field coordinates, as drawn by the out-of-domain
/// sampler and returned by the AIR's mask-point computation.
#[derive(Clone, Copy, PartialEq, Eq, Structural, Debug)]
pub struct CirclePoint {
    /// The point's first coordinate.
    pub x: QM31,
    /// The point's second coordinate.
    pub y: QM31,
}

/// A hash digest: a commitment root read from the proof, or the transcript's
/// running digest. Opaque to the pipeline; it is only ever moved.
#[derive(PartialEq, Eq, Debug)]
pub struct Digest {
    /// The digest's bytes.
    pub bytes: Vec<u8>,
}

impl View for Digest {
    type V = Seq<u8>;

    open spec fn view(&self) -> Seq<u8> {
        self.bytes@
    }
}

impl Digest {
    /// A fresh digest holding the same bytes.
    pub fn duplicate(&self) -> (r: Digest)
        ensures
            r@ == self@,
    {
        let mut out: Vec<u8> = Vec::new();
        let mut i: usize = 0;
        while i < self.bytes.len()
            invariant
                i <= self.bytes.len(),
                out@ == self.bytes@.subrange(0, i as int),
            decreases self.bytes.len() - i,
        {
            out.push(self.bytes[i]);
            i = i + 1;
        }
        assert(out@ == self.bytes@);
        Digest { bytes: out }
    }
}

/// A fresh vector holding the same numbers.
pub fn copy_u32_vec(v: &Vec<u32>) -> (r: Vec<u32>)
    ensures
        r@ == v@,
{
    let mut out: Vec<u32> = Vec::new();
    let mut i: usize = 0;
    while i < v.len()
        invariant
            i <= v.len(),
            out@ == v@.subrange(0, i as int),
        decreases v.len() - i,
    {
        out.push(v[i]);
        i = i + 1;
    }
    assert(out@ == v@);
    out
}

/// A fresh vector holding the same field elements.
pub fn copy_qm31_vec(v: &Vec<QM31>) -> (r: Vec<QM31>)
    ensures
        r@ == v@,
{
    let mut out: Vec<QM31> = Vec::new();
    let mut i: usize = 0;
    while i < v.len()
        invariant
            i <= v.len(),
            out@ == v@.subrange(0, i as int),
        decreases v.len() - i,
    {
        out.push(v[i]);
        i = i + 1;
    }
    assert(out@ == v@);
    out
}

/// Opaque replay witness emitted by the transcript beside every challenge
/// draw. Passed through to the output bundle, never inspected.
#[derive(PartialEq, Eq, Debug)]
pub struct DrawHints {
    /// The witness payload.
    pub data: Vec<u8>,
}

impl View for DrawHints {
    type V = Seq<u8>;

    open spec fn view(&self) -> Seq<u8> {
        self.data@
    }
}

/// Opaque replay witness for the out-of-domain sampled point.
#[derive(PartialEq, Eq, Debug)]
pub struct OODSHint {
    /// The witness payload.
    pub data: Vec<u8>,
}

impl View for OODSHint {
    type V = Seq<u8>;

    open spec fn view(&self) -> Seq<u8> {
        self.data@
    }
}

/// The query-index set drawn by the external query sampler.
#[derive(PartialEq, Eq, Debug)]
pub struct Queries {
    /// Base-two logarithm of the domain the indices were drawn from.
    pub log_domain_size: u32,
    /// The sampled indices, pairwise distinct, each below
    /// `2^log_domain_size`.
    pub positions: Vec<usize>,
}

/// A line-polynomial evaluation domain, described by its size alone.
#[derive(Clone, Copy, PartialEq, Eq, Structural, Debug)]
pub struct LineDomain {
    /// Base-two logarithm of the number of points in the domain.
    pub log_size: u32,
}

} // verus!
