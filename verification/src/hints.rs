//! The hint bundle handed to the constrained verifier, and its wire order.
//!
//! The order in which `FiatShamirHints` flattens onto the wire is a
//! serialization contract: any reordering, omission or duplication breaks the
//! downstream replay. `wire_spec` states that order once, and
//! `FiatShamirHints::wire_elements` is proved to produce exactly it.

use crate::values::{Digest, DrawHints, OODSHint, QM31};
use vstd::prelude::*;

verus! {

/// The two constraint-quotient contributions (boundary constraint, then
/// step/transition constraint) evaluated at the sampled point. They let the
/// constrained verifier recheck the composition value from the trace's mask
/// values alone.
#[derive(PartialEq, Eq, Debug)]
pub struct CompositionHint {
    /// Quotient evaluations, boundary constraint first.
    pub constraint_eval_quotients_by_mask: Vec<QM31>,
}

/// Replay witness tying the proof-of-work nonce to the transcript digest it
/// was checked against and the difficulty it had to meet.
#[derive(PartialEq, Eq, Debug)]
pub struct PoWHint {
    /// The transcript digest the nonce was checked against.
    pub channel_digest: Digest,
    /// The nonce carried by the proof.
    pub nonce: u64,
    /// The difficulty, in bits, the nonce had to meet.
    pub n_bits: u32,
}

/// Hints for replaying the Fiat-Shamir transform up to the final query draw.
///
/// Field order mirrors the wire order stated by [`wire_spec`].
#[derive(PartialEq, Eq, Debug)]
pub struct FiatShamirHints {
    /// The trace commitment and the composition-polynomial commitment, as
    /// read from the proof.
    pub commitments: [Digest; 2],
    /// Witness for the first random-coefficient draw, made after the trace
    /// commitment was absorbed.
    pub random_coeff_hint: DrawHints,
    /// Witness for the out-of-domain sampled point.
    pub oods_hint: OODSHint,
    /// The three trace mask values at the sampled point.
    pub trace_oods_values: [QM31; 3],
    /// The four composition-split values at the sampled point.
    pub composition_oods_values: [QM31; 4],
    /// The recomputable constraint-quotient contributions.
    pub composition_hint: CompositionHint,
    /// Witness for the second random-coefficient draw.
    pub random_coeff_hint2: DrawHints,
    /// Witness for the circle-to-line folding base challenge.
    pub circle_poly_alpha_hint: DrawHints,
    /// One (layer commitment, folding-challenge witness) pair per FRI inner
    /// layer, outermost first.
    pub fri_commitment_and_folding_hints: Vec<(Digest, DrawHints)>,
    /// The last-layer polynomial's first coefficient.
    pub last_layer: QM31,
    /// Witness for the proof-of-work check.
    pub pow_hint: PoWHint,
    /// Witness for the query-index draw.
    pub queries_hints: DrawHints,
}

/// One element of the flattened hint stream, at specification level.
pub enum WireItem {
    /// A hash digest's bytes.
    Hash(Seq<u8>),
    /// A secure-field element.
    Felt(QM31),
    /// A plain number.
    Num(u64),
    /// An opaque witness payload's bytes.
    Blob(Seq<u8>),
}

/// One element of the flattened hint stream.
#[derive(PartialEq, Eq, Debug)]
pub enum WireElem {
    /// A hash digest.
    Hash(Digest),
    /// A secure-field element.
    Felt(QM31),
    /// A plain number.
    Num(u64),
    /// An opaque witness payload.
    Blob(Vec<u8>),
}

impl View for WireElem {
    type V = WireItem;

    open spec fn view(&self) -> WireItem {
        match self {
            WireElem::Hash(d) => WireItem::Hash(d@),
            WireElem::Felt(f) => WireItem::Felt(*f),
            WireElem::Num(n) => WireItem::Num(*n),
            WireElem::Blob(b) => WireItem::Blob(b@),
        }
    }
}

/// Wire contribution of the constraint-quotient values, in order.
pub open spec fn felt_items(qs: Seq<QM31>) -> Seq<WireItem>
    decreases qs.len(),
{
    if qs.len() == 0 {
        Seq::empty()
    } else {
        felt_items(qs.drop_last()).push(WireItem::Felt(qs.last()))
    }
}

/// Wire contribution of the per-layer (commitment, fold witness) pairs:
/// each layer's commitment directly followed by its witness.
pub open spec fn pair_items(ps: Seq<(Digest, DrawHints)>) -> Seq<WireItem>
    decreases ps.len(),
{
    if ps.len() == 0 {
        Seq::empty()
    } else {
        pair_items(ps.drop_last()) + seq![
            WireItem::Hash(ps.last().0@),
            WireItem::Blob(ps.last().1@),
        ]
    }
}

/// The bundle's wire order: the serialization contract for a downstream
/// constrained verifier deserializing the flattened stream.
pub open spec fn wire_spec(h: FiatShamirHints) -> Seq<WireItem> {
    seq![
        WireItem::Hash(h.commitments@[0]@),
        WireItem::Blob(h.random_coeff_hint@),
        WireItem::Hash(h.commitments@[1]@),
        WireItem::Blob(h.oods_hint@),
        WireItem::Felt(h.trace_oods_values@[0]),
        WireItem::Felt(h.trace_oods_values@[1]),
        WireItem::Felt(h.trace_oods_values@[2]),
        WireItem::Felt(h.composition_oods_values@[0]),
        WireItem::Felt(h.composition_oods_values@[1]),
        WireItem::Felt(h.composition_oods_values@[2]),
        WireItem::Felt(h.composition_oods_values@[3]),
    ] + felt_items(h.composition_hint.constraint_eval_quotients_by_mask@) + seq![
        WireItem::Blob(h.random_coeff_hint2@),
        WireItem::Blob(h.circle_poly_alpha_hint@),
    ] + pair_items(h.fri_commitment_and_folding_hints@) + seq![
        WireItem::Felt(h.last_layer),
        WireItem::Hash(h.pow_hint.channel_digest@),
        WireItem::Num(h.pow_hint.nonce),
        WireItem::Num(h.pow_hint.n_bits as u64),
        WireItem::Blob(h.queries_hints@),
    ]
}

/// The produced stream matches the stated wire order element for element.
pub open spec fn wire_matches(r: Seq<WireElem>, w: Seq<WireItem>) -> bool {
    &&& r.len() == w.len()
    &&& forall|i: int| 0 <= i < w.len() ==> r[i]@ == w[i]
}

/// `felt_items` yields one stream element per value.
proof fn lemma_felt_items_len(qs: Seq<QM31>)
    ensures
        felt_items(qs).len() == qs.len(),
    decreases qs.len(),
{
    if qs.len() == 0 {
    } else {
        lemma_felt_items_len(qs.drop_last());
    }
}

/// `pair_items` yields two stream elements per layer.
proof fn lemma_pair_items_len(ps: Seq<(Digest, DrawHints)>)
    ensures
        pair_items(ps).len() == 2 * ps.len(),
    decreases ps.len(),
{
    if ps.len() == 0 {
    } else {
        lemma_pair_items_len(ps.drop_last());
    }
}

/// Each value lands at its own index of the stream.
proof fn lemma_felt_items_index(qs: Seq<QM31>, k: int)
    requires
        0 <= k < qs.len(),
    ensures
        felt_items(qs).len() == qs.len(),
        felt_items(qs)[k] == WireItem::Felt(qs[k]),
    decreases qs.len(),
{
    lemma_felt_items_len(qs);
    lemma_felt_items_len(qs.drop_last());
    if k == qs.len() - 1 {
    } else {
        lemma_felt_items_index(qs.drop_last(), k);
    }
}

/// Each layer's commitment and witness land at consecutive indices of the
/// stream.
proof fn lemma_pair_items_index(ps: Seq<(Digest, DrawHints)>, k: int)
    requires
        0 <= k < ps.len(),
    ensures
        pair_items(ps).len() == 2 * ps.len(),
        pair_items(ps)[2 * k] == WireItem::Hash(ps[k].0@),
        pair_items(ps)[2 * k + 1] == WireItem::Blob(ps[k].1@),
    decreases ps.len(),
{
    lemma_pair_items_len(ps);
    lemma_pair_items_len(ps.drop_last());
    if k == ps.len() - 1 {
    } else {
        lemma_pair_items_index(ps.drop_last(), k);
    }
}

/// Two layer lists whose commitments and witnesses agree byte for byte
/// contribute the same wire stream.
pub proof fn lemma_pair_items_congruence(ps1: Seq<(Digest, DrawHints)>, ps2: Seq<
    (Digest, DrawHints),
>)
    requires
        ps1.len() == ps2.len(),
        forall|k: int|
            0 <= k < ps1.len() ==> (#[trigger] ps1[k]).0@ == ps2[k].0@ && ps1[k].1@ == ps2[k].1@,
    ensures
        pair_items(ps1) == pair_items(ps2),
    decreases ps1.len(),
{
    if ps1.len() == 0 {
    } else {
        lemma_pair_items_congruence(ps1.drop_last(), ps2.drop_last());
        assert(ps1[ps1.len() - 1] == ps1.last());
        assert(ps2[ps2.len() - 1] == ps2.last());
    }
}

impl FiatShamirHints {
    /// Flatten the bundle into its wire stream, in the order the
    /// serialization contract fixes.
    #[verifier::loop_isolation(false)]
    pub fn wire_elements(self) -> (r: Vec<WireElem>)
        ensures
            wire_matches(r@, wire_spec(self)),
    {
        let ghost w = wire_spec(self);
        let FiatShamirHints {
            commitments,
            random_coeff_hint,
            oods_hint,
            trace_oods_values,
            composition_oods_values,
            composition_hint,
            random_coeff_hint2,
            circle_poly_alpha_hint,
            fri_commitment_and_folding_hints,
            last_layer,
            pow_hint,
            queries_hints,
        } = self;
        let mut r: Vec<WireElem> = Vec::new();
        r.push(WireElem::Hash(commitments[0].duplicate()));
        r.push(WireElem::Blob(random_coeff_hint.data));
        r.push(WireElem::Hash(commitments[1].duplicate()));
        r.push(WireElem::Blob(oods_hint.data));
        r.push(WireElem::Felt(trace_oods_values[0]));
        r.push(WireElem::Felt(trace_oods_values[1]));
        r.push(WireElem::Felt(trace_oods_values[2]));
        r.push(WireElem::Felt(composition_oods_values[0]));
        r.push(WireElem::Felt(composition_oods_values[1]));
        r.push(WireElem::Felt(composition_oods_values[2]));
        r.push(WireElem::Felt(composition_oods_values[3]));
        let quotients = composition_hint.constraint_eval_quotients_by_mask;
        let ghost qs = quotients@;
        let mut i: usize = 0;
        while i < quotients.len()
            invariant
                i <= quotients.len(),
                quotients@ == qs,
                r@.len() == 11 + i,
                forall|k: int| 0 <= k < 11 ==> r@[k]@ == w[k],
                forall|k: int| 0 <= k < i ==> r@[11 + k]@ == felt_items(qs)[k],
            decreases quotients.len() - i,
        {
            proof {
                lemma_felt_items_index(qs, i as int);
            }
            r.push(WireElem::Felt(quotients[i]));
            i = i + 1;
        }
        proof {
            lemma_felt_items_len(qs);
        }
        let ghost nq = qs.len() as int;
        r.push(WireElem::Blob(random_coeff_hint2.data));
        r.push(WireElem::Blob(circle_poly_alpha_hint.data));
        let mut pairs = fri_commitment_and_folding_hints;
        let ghost ps = pairs@;
        let n_pairs: usize = pairs.len();
        let ghost np = n_pairs as int;
        let mut j: usize = 0;
        while pairs.len() > 0
            invariant
                j + pairs.len() == np,
                pairs@ == ps.subrange(j as int, np),
                r@.len() == 13 + nq + 2 * j,
                forall|k: int| 0 <= k < 13 + nq ==> r@[k]@ == w[k],
                forall|k: int| 0 <= k < 2 * j ==> r@[13 + nq + k]@ == pair_items(ps)[k],
            decreases pairs.len(),
        {
            proof {
                lemma_pair_items_index(ps, j as int);
                assert(pairs@[0] == ps[j as int]);
            }
            let (c, h) = pairs.remove(0);
            r.push(WireElem::Hash(c));
            r.push(WireElem::Blob(h.data));
            proof {
                assert(pairs@ =~= ps.subrange(j as int + 1, np));
            }
            j = j + 1;
        }
        proof {
            lemma_pair_items_len(ps);
        }
        r.push(WireElem::Felt(last_layer));
        r.push(WireElem::Hash(pow_hint.channel_digest));
        r.push(WireElem::Num(pow_hint.nonce));
        r.push(WireElem::Num(pow_hint.n_bits as u64));
        r.push(WireElem::Blob(queries_hints.data));
        proof {
            assert(r@.len() == w.len());
            assert forall|k: int| 0 <= k < w.len() implies r@[k]@ == w[k] by {
                if 13 + nq <= k < 13 + nq + 2 * np {
                    assert(r@[k]@ == pair_items(ps)[k - (13 + nq)]);
                }
            }
        }
        r
    }
}

} // verus!
