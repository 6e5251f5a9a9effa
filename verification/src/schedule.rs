//! The transcript schedule: the exact sequence of absorb, draw and check
//! operations the external transcript must perform for one verification
//! pass.
//!
//! Fiat-Shamir soundness rests on this order — absorbing each commitment
//! before drawing the challenge it binds — so the sequence is produced here,
//! verified, as data: the caller that owns the transcript executes the
//! operations one by one and collects the draws into a
//! [`crate::fiat_shamir::TranscriptTrace`].

use crate::fiat_shamir::{
    all_column_log_sizes, seq_u32_max, AirParams, FsConfig, StarkProof, COMPOSITION_SPLIT,
};
use crate::values::{copy_qm31_vec, copy_u32_vec, Digest, QM31};
use vstd::prelude::*;

verus! {

/// One operation of the external transcript, at specification level.
pub enum TranscriptOpSpec {
    /// Register a commitment, keyed by its column layout.
    AbsorbCommitment(Seq<u8>, Seq<u32>),
    /// Draw one challenge field element and its replay witness.
    DrawFelt,
    /// Draw the out-of-domain point and its replay witness.
    DrawOodsPoint,
    /// Absorb field values.
    MixFelts(Seq<QM31>),
    /// Absorb a digest.
    MixDigest(Seq<u8>),
    /// Check the nonce against the digest-derived difficulty.
    CheckProofOfWork(u64, u32),
    /// Draw the query indices and their replay witness.
    DrawQueries(u32, usize),
}

/// One operation of the external transcript.
#[derive(PartialEq, Eq, Debug)]
pub enum TranscriptOp {
    /// Register a commitment, keyed by its column layout.
    AbsorbCommitment(Digest, Vec<u32>),
    /// Draw one challenge field element and its replay witness.
    DrawFelt,
    /// Draw the out-of-domain point and its replay witness.
    DrawOodsPoint,
    /// Absorb field values.
    MixFelts(Vec<QM31>),
    /// Absorb a digest.
    MixDigest(Digest),
    /// Check the nonce against the digest-derived difficulty.
    CheckProofOfWork(u64, u32),
    /// Draw the query indices and their replay witness.
    DrawQueries(u32, usize),
}

impl View for TranscriptOp {
    type V = TranscriptOpSpec;

    open spec fn view(&self) -> TranscriptOpSpec {
        match self {
            TranscriptOp::AbsorbCommitment(d, sizes) => TranscriptOpSpec::AbsorbCommitment(
                d@,
                sizes@,
            ),
            TranscriptOp::DrawFelt => TranscriptOpSpec::DrawFelt,
            TranscriptOp::DrawOodsPoint => TranscriptOpSpec::DrawOodsPoint,
            TranscriptOp::MixFelts(vals) => TranscriptOpSpec::MixFelts(vals@),
            TranscriptOp::MixDigest(d) => TranscriptOpSpec::MixDigest(d@),
            TranscriptOp::CheckProofOfWork(nonce, bits) => TranscriptOpSpec::CheckProofOfWork(
                *nonce,
                *bits,
            ),
            TranscriptOp::DrawQueries(log_size, n) => TranscriptOpSpec::DrawQueries(*log_size, *n),
        }
    }
}

/// One column's sampled values after another, in column order.
pub open spec fn flat_cols(cols: Seq<Vec<QM31>>) -> Seq<QM31>
    decreases cols.len(),
{
    if cols.len() == 0 {
        Seq::empty()
    } else {
        flat_cols(cols.drop_last()) + cols.last()@
    }
}

/// One tree's flattened columns after another, in tree order: the order in
/// which the sampled values are absorbed.
pub open spec fn flat_trees(sv: Seq<Vec<Vec<QM31>>>) -> Seq<QM31>
    decreases sv.len(),
{
    if sv.len() == 0 {
        Seq::empty()
    } else {
        flat_trees(sv.drop_last()) + flat_cols(sv.last()@)
    }
}

/// Per-layer operations: absorb the layer's commitment, then draw its
/// folding challenge.
pub open spec fn layer_ops(cs: Seq<Digest>) -> Seq<TranscriptOpSpec>
    decreases cs.len(),
{
    if cs.len() == 0 {
        Seq::empty()
    } else {
        layer_ops(cs.drop_last()) + seq![
            TranscriptOpSpec::MixDigest(cs.last()@),
            TranscriptOpSpec::DrawFelt,
        ]
    }
}

/// The protocol's strict operation order for one verification pass.
pub open spec fn schedule_spec(p: StarkProof, air: AirParams, config: FsConfig) -> Seq<
    TranscriptOpSpec,
> {
    seq![
        TranscriptOpSpec::AbsorbCommitment(p.commitments@[0]@, air.column_log_sizes@),
        TranscriptOpSpec::DrawFelt,
        TranscriptOpSpec::AbsorbCommitment(
            p.commitments@[1]@,
            Seq::new(COMPOSITION_SPLIT as nat, |i: int| air.composition_log_degree_bound),
        ),
        TranscriptOpSpec::DrawOodsPoint,
        TranscriptOpSpec::MixFelts(flat_trees(p.sampled_values@)),
        TranscriptOpSpec::DrawFelt,
        TranscriptOpSpec::DrawFelt,
    ] + layer_ops(p.fri_layer_commitments@) + seq![
        TranscriptOpSpec::MixFelts(p.last_layer_poly@),
        TranscriptOpSpec::CheckProofOfWork(p.nonce, config.pow_bits),
        TranscriptOpSpec::DrawQueries(
            seq_u32_max(all_column_log_sizes(air)),
            config.n_queries,
        ),
    ]
}

/// The produced schedule matches the stated order operation for operation.
pub open spec fn schedule_matches(r: Seq<TranscriptOp>, w: Seq<TranscriptOpSpec>) -> bool {
    &&& r.len() == w.len()
    &&& forall|i: int| 0 <= i < w.len() ==> r[i]@ == w[i]
}

/// Each layer's two operations land at consecutive indices.
proof fn lemma_layer_ops_index(cs: Seq<Digest>, k: int)
    requires
        0 <= k < cs.len(),
    ensures
        layer_ops(cs).len() == 2 * cs.len(),
        layer_ops(cs)[2 * k] == TranscriptOpSpec::MixDigest(cs[k]@),
        layer_ops(cs)[2 * k + 1] == TranscriptOpSpec::DrawFelt,
    decreases cs.len(),
{
    lemma_layer_ops_len(cs);
    lemma_layer_ops_len(cs.drop_last());
    if k == cs.len() - 1 {
    } else {
        lemma_layer_ops_index(cs.drop_last(), k);
    }
}

/// `layer_ops` yields two operations per layer.
proof fn lemma_layer_ops_len(cs: Seq<Digest>)
    ensures
        layer_ops(cs).len() == 2 * cs.len(),
    decreases cs.len(),
{
    if cs.len() == 0 {
    } else {
        lemma_layer_ops_len(cs.drop_last());
    }
}

/// A longer column prefix flattens to the shorter prefix plus the next
/// column's values.
proof fn lemma_flat_cols_step(cols: Seq<Vec<QM31>>, i: int)
    requires
        0 <= i < cols.len(),
    ensures
        flat_cols(cols.subrange(0, i + 1)) == flat_cols(cols.subrange(0, i)) + cols[i]@,
{
    let p = cols.subrange(0, i + 1);
    assert(p.drop_last() =~= cols.subrange(0, i));
    assert(p.last() == cols[i]);
}

/// A longer tree prefix flattens to the shorter prefix plus the next tree's
/// flattened columns.
proof fn lemma_flat_trees_step(sv: Seq<Vec<Vec<QM31>>>, i: int)
    requires
        0 <= i < sv.len(),
    ensures
        flat_trees(sv.subrange(0, i + 1)) == flat_trees(sv.subrange(0, i)) + flat_cols(sv[i]@),
{
    let p = sv.subrange(0, i + 1);
    assert(p.drop_last() =~= sv.subrange(0, i));
    assert(p.last() == sv[i]);
}

/// Flatten one tree's columns into a single value list, in column order.
#[verifier::loop_isolation(false)]
fn flatten_one_tree(tree: &Vec<Vec<QM31>>) -> (r: Vec<QM31>)
    ensures
        r@ == flat_cols(tree@),
{
    let mut r: Vec<QM31> = Vec::new();
    let mut j: usize = 0;
    while j < tree.len()
        invariant
            j <= tree.len(),
            r@ == flat_cols(tree@.subrange(0, j as int)),
        decreases tree.len() - j,
    {
        let mut k: usize = 0;
        while k < tree[j].len()
            invariant
                j < tree.len(),
                k <= tree@[j as int]@.len(),
                r@ == flat_cols(tree@.subrange(0, j as int)) + tree@[j as int]@.subrange(
                    0,
                    k as int,
                ),
            decreases tree@[j as int]@.len() - k,
        {
            r.push(tree[j][k]);
            k = k + 1;
        }
        proof {
            assert(tree@[j as int]@.subrange(0, tree@[j as int]@.len() as int) =~= tree@[
                j as int
            ]@);
            lemma_flat_cols_step(tree@, j as int);
        }
        j = j + 1;
    }
    proof {
        assert(tree@.subrange(0, tree@.len() as int) =~= tree@);
    }
    r
}

/// Flatten the sampled-value table in absorb order: trees, then columns,
/// then values.
#[verifier::loop_isolation(false)]
fn flatten_sampled_values(sv: &Vec<Vec<Vec<QM31>>>) -> (r: Vec<QM31>)
    ensures
        r@ == flat_trees(sv@),
{
    let mut r: Vec<QM31> = Vec::new();
    let mut i: usize = 0;
    while i < sv.len()
        invariant
            i <= sv.len(),
            r@ == flat_trees(sv@.subrange(0, i as int)),
        decreases sv.len() - i,
    {
        let mut tree_flat = flatten_one_tree(&sv[i]);
        r.append(&mut tree_flat);
        proof {
            lemma_flat_trees_step(sv@, i as int);
        }
        i = i + 1;
    }
    proof {
        assert(sv@.subrange(0, sv@.len() as int) =~= sv@);
    }
    r
}

/// The largest element of a non-empty vector.
#[verifier::loop_isolation(false)]
fn vec_u32_max(v: &Vec<u32>) -> (m: u32)
    requires
        v@.len() > 0,
    ensures
        m == seq_u32_max(v@),
{
    let mut m: u32 = v[0];
    proof {
        let s1 = v@.subrange(0, 1);
        assert(s1.last() == v@[0]);
        assert(s1.drop_last() =~= Seq::<u32>::empty());
        assert(seq_u32_max(Seq::<u32>::empty()) == 0);
        assert(seq_u32_max(s1) == v@[0]);
    }
    let mut i: usize = 1;
    while i < v.len()
        invariant
            1 <= i <= v.len(),
            m == seq_u32_max(v@.subrange(0, i as int)),
        decreases v.len() - i,
    {
        proof {
            assert(v@.subrange(0, i as int + 1).drop_last() =~= v@.subrange(0, i as int));
            assert(v@.subrange(0, i as int + 1).last() == v@[i as int]);
        }
        if v[i] > m {
            m = v[i];
        }
        i = i + 1;
    }
    proof {
        assert(v@.subrange(0, v@.len() as int) =~= v@);
    }
    m
}

/// Produce the operation sequence the external transcript must execute for
/// this proof, in the protocol's strict order.
#[verifier::loop_isolation(false)]
pub fn transcript_schedule(p: &StarkProof, air: &AirParams, config: &FsConfig) -> (r: Vec<
    TranscriptOp,
>)
    ensures
        schedule_matches(r@, schedule_spec(*p, *air, *config)),
{
    let ghost w = schedule_spec(*p, *air, *config);
    let mut r: Vec<TranscriptOp> = Vec::new();
    r.push(TranscriptOp::AbsorbCommitment(
        p.commitments[0].duplicate(),
        copy_u32_vec(&air.column_log_sizes),
    ));
    r.push(TranscriptOp::DrawFelt);
    let comp_bound = air.composition_log_degree_bound;
    let comp_sizes = vec![comp_bound, comp_bound, comp_bound, comp_bound];
    proof {
        assert(comp_sizes@ =~= Seq::new(
            COMPOSITION_SPLIT as nat,
            |i: int| air.composition_log_degree_bound,
        ));
    }
    r.push(TranscriptOp::AbsorbCommitment(p.commitments[1].duplicate(), comp_sizes));
    r.push(TranscriptOp::DrawOodsPoint);
    r.push(TranscriptOp::MixFelts(flatten_sampled_values(&p.sampled_values)));
    r.push(TranscriptOp::DrawFelt);
    r.push(TranscriptOp::DrawFelt);
    let n_layers = p.fri_layer_commitments.len();
    let mut j: usize = 0;
    while j < n_layers
        invariant
            j <= n_layers,
            r@.len() == 7 + 2 * j,
            forall|k: int| 0 <= k < 7 ==> r@[k]@ == w[k],
            forall|k: int|
                0 <= k < 2 * j ==> r@[7 + k]@ == layer_ops(p.fri_layer_commitments@)[k],
        decreases n_layers - j,
    {
        proof {
            lemma_layer_ops_index(p.fri_layer_commitments@, j as int);
        }
        r.push(TranscriptOp::MixDigest(p.fri_layer_commitments[j].duplicate()));
        r.push(TranscriptOp::DrawFelt);
        j = j + 1;
    }
    proof {
        lemma_layer_ops_len(p.fri_layer_commitments@);
    }
    r.push(TranscriptOp::MixFelts(copy_qm31_vec(&p.last_layer_poly)));
    r.push(TranscriptOp::CheckProofOfWork(p.nonce, config.pow_bits));
    let mut all_sizes = copy_u32_vec(&air.column_log_sizes);
    all_sizes.push(comp_bound);
    all_sizes.push(comp_bound);
    all_sizes.push(comp_bound);
    all_sizes.push(comp_bound);
    proof {
        assert(all_sizes@ =~= all_column_log_sizes(*air));
    }
    let max_size = vec_u32_max(&all_sizes);
    r.push(TranscriptOp::DrawQueries(max_size, config.n_queries));
    proof {
        assert(r@.len() == w.len());
        assert forall|k: int| 0 <= k < w.len() implies r@[k]@ == w[k] by {
            let base = 7 + 2 * (n_layers as int);
            if 7 <= k < base {
                assert(r@[k]@ == layer_ops(p.fri_layer_commitments@)[k - 7]);
            }
        }
    }
    r
}

} // verus!
