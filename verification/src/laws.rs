//! Laws the orchestrator's contract entails, each stated and proved once so
//! a reader sees them rather than having to derive them.

use crate::bounds::{lemma_strictly_desc_same_elements, strictly_desc};
use crate::fiat_shamir::{
    all_column_log_sizes, max_line_bound, output_matches, verdict, AirEvals, AirParams, FSOutput,
    FsConfig, StarkProof, TranscriptTrace, FOLD_STEP,
};
use crate::hints::{lemma_pair_items_congruence, wire_spec};
use vstd::prelude::*;

verus! {

/// Determinism: for one proof, one transcript trace and one configuration,
/// any two outputs the orchestrator's contract admits carry byte-identical
/// hint streams and identical derived FRI parameters.
pub proof fn lemma_deterministic(
    p: StarkProof,
    air: AirParams,
    t: TranscriptTrace,
    e: AirEvals,
    c: FsConfig,
    out1: FSOutput,
    out2: FSOutput,
)
    requires
        output_matches(p, air, t, e, c, out1),
        output_matches(p, air, t, e, c, out2),
    ensures
        wire_spec(out1.fiat_shamir_hints) == wire_spec(out2.fiat_shamir_hints),
        out1.fri_input.fri_log_blowup_factor == out2.fri_input.fri_log_blowup_factor,
        out1.fri_input.max_column_log_degree_bound == out2.fri_input.max_column_log_degree_bound,
        out1.fri_input.column_log_sizes@ == out2.fri_input.column_log_sizes@,
        out1.fri_input.random_coeff == out2.fri_input.random_coeff,
        out1.fri_input.circle_poly_alpha == out2.fri_input.circle_poly_alpha,
        out1.fri_input.folding_alphas@ == out2.fri_input.folding_alphas@,
        out1.fri_input.last_layer_domain == out2.fri_input.last_layer_domain,
        out1.fri_input.queries == out2.fri_input.queries,
{
    let h1 = out1.fiat_shamir_hints;
    let h2 = out2.fiat_shamir_hints;
    assert(h1.trace_oods_values@ == h2.trace_oods_values@);
    assert(h1.composition_oods_values@ == h2.composition_oods_values@);
    assert(h1.composition_hint.constraint_eval_quotients_by_mask@
        == h2.composition_hint.constraint_eval_quotients_by_mask@);
    lemma_pair_items_congruence(
        h1.fri_commitment_and_folding_hints@,
        h2.fri_commitment_and_folding_hints@,
    );
    assert(wire_spec(h1) =~= wire_spec(h2));
    assert(out1.fri_input.folding_alphas@ =~= out2.fri_input.folding_alphas@);
    lemma_strictly_desc_same_elements(
        out1.fri_input.column_log_sizes@,
        out2.fri_input.column_log_sizes@,
    );
    assert(out1.fri_input.last_layer_domain.log_size
        == out2.fri_input.last_layer_domain.log_size);
}

/// Replay fidelity: the output bundles embed every drawn challenge and
/// witness verbatim, in draw order. That an independent replay of the
/// transcript reproduces those values is the external transcript's own
/// determinism contract.
pub proof fn lemma_replay_fidelity(
    p: StarkProof,
    air: AirParams,
    t: TranscriptTrace,
    e: AirEvals,
    c: FsConfig,
    out: FSOutput,
)
    requires
        output_matches(p, air, t, e, c, out),
        t.folding_draws@.len() == p.fri_layer_commitments@.len(),
    ensures
        out.fiat_shamir_hints.random_coeff_hint@ == t.random_coeff_hint@,
        out.fiat_shamir_hints.oods_hint@ == t.oods_hint@,
        out.fiat_shamir_hints.random_coeff_hint2@ == t.random_coeff_hint2@,
        out.fiat_shamir_hints.circle_poly_alpha_hint@ == t.circle_poly_alpha_hint@,
        out.fiat_shamir_hints.queries_hints@ == t.queries_hint@,
        forall|k: int|
            0 <= k < t.folding_draws@.len()
                ==> (#[trigger] out.fiat_shamir_hints.fri_commitment_and_folding_hints@[k]).1@
                == t.folding_draws@[k].1@,
        out.fri_input.random_coeff == t.random_coeff2,
        out.fri_input.circle_poly_alpha == t.circle_poly_alpha,
        out.fri_input.folding_alphas@.len() == t.folding_draws@.len(),
        forall|k: int|
            0 <= k < t.folding_draws@.len() ==> #[trigger] out.fri_input.folding_alphas@[k]
                == t.folding_draws@[k].0,
        out.fri_input.queries == t.queries,
{
}

/// Layer-count law: an accepted proof carries exactly
/// `(max_column_log_degree_bound - log_last_layer_degree_bound) / FOLD_STEP`
/// (commitment, fold-hint) pairs.
pub proof fn lemma_layer_count(
    p: StarkProof,
    air: AirParams,
    t: TranscriptTrace,
    e: AirEvals,
    c: FsConfig,
    out: FSOutput,
)
    requires
        verdict(p, air, t, e, c) is None,
        output_matches(p, air, t, e, c, out),
    ensures
        out.fiat_shamir_hints.fri_commitment_and_folding_hints@.len() == (max_line_bound(air, c)
            - c.log_last_layer_degree_bound) / (FOLD_STEP as int),
{
}

/// Layer-count rigidity: removing or duplicating layer proofs — changing
/// their number in any way while the rest of the proof stands — makes the
/// verdict `InvalidNumFriLayers`.
pub proof fn lemma_layer_count_rigid(
    p: StarkProof,
    air: AirParams,
    t: TranscriptTrace,
    e: AirEvals,
    c: FsConfig,
    q: StarkProof,
)
    requires
        verdict(p, air, t, e, c) is None,
        q.sampled_values == p.sampled_values,
        q.last_layer_poly == p.last_layer_poly,
        q.fri_layer_commitments@.len() != p.fri_layer_commitments@.len(),
    ensures
        verdict(q, air, t, e, c) == Some(
            crate::fiat_shamir::VerificationError::InvalidNumFriLayers,
        ),
{
}

/// Bound-ordering law: for every accepted output the per-column log-sizes
/// are strictly decreasing — so duplicate-free — and hold exactly the
/// committed columns' log-sizes, however many columns share a bound.
pub proof fn lemma_bound_ordering(
    p: StarkProof,
    air: AirParams,
    t: TranscriptTrace,
    e: AirEvals,
    c: FsConfig,
    out: FSOutput,
)
    requires
        output_matches(p, air, t, e, c, out),
    ensures
        strictly_desc(out.fri_input.column_log_sizes@),
        forall|x: u32|
            #[trigger] out.fri_input.column_log_sizes@.contains(x) <==> all_column_log_sizes(
                air,
            ).contains(x),
{
}

} // verus!
