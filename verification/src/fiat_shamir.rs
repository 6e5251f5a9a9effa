//! The Fiat-Shamir orchestrator: replays one verification pass over a proof
//! and the values its externally owned collaborators produced, checks every
//! structural and algebraic constraint in the protocol's fixed order, and
//! assembles the hint bundle and the FRI-phase parameters.
//!
//! The transcript, the AIR's algebra, the proof-of-work checker and the query
//! sampler live outside this crate. The caller runs them in the protocol's
//! strict absorb-before-draw order and hands their outputs in as a
//! [`TranscriptTrace`] and an [`AirEvals`]; the orchestrator's contract pins
//! the verdict and every field of the output as a function of those inputs.

use crate::bounds::{dedup_descending, strictly_desc};
use crate::hints::{CompositionHint, FiatShamirHints, PoWHint};
use crate::values::{copy_u32_vec, CirclePoint, Digest, DrawHints, LineDomain, OODSHint, QM31, Queries};
use vstd::arithmetic::power2::pow2;
use vstd::bits::{lemma_usize_pow2_no_overflow, lemma_usize_shl_is_mul};
use vstd::prelude::*;

verus! {

/// Per-layer reduction of the log-degree bound by one FRI fold.
pub const FOLD_STEP: u32 = 1;

/// Number of trace mask values sampled at the out-of-domain point, fixed by
/// this AIR instance's three-point mask.
pub const TRACE_MASK_WIDTH: usize = 3;

/// Number of sub-columns the composition polynomial is split into, fixed by
/// the secure field's extension degree.
pub const COMPOSITION_SPLIT: usize = 4;

/// The AIR-reported column layout: the log-sizes of the committed trace
/// columns and the log-degree bound of the composition polynomial.
pub struct AirParams {
    /// Log-sizes of the trace tree's columns.
    pub column_log_sizes: Vec<u32>,
    /// Log-degree bound shared by the four composition sub-columns.
    pub composition_log_degree_bound: u32,
}

/// The parts of a proof the orchestrator reads.
pub struct StarkProof {
    /// Trace commitment, then composition-polynomial commitment.
    pub commitments: [Digest; 2],
    /// Sampled values, indexed by tree, column, then mask row.
    pub sampled_values: Vec<Vec<Vec<QM31>>>,
    /// Per-FRI-layer commitment digests, outermost first.
    pub fri_layer_commitments: Vec<Digest>,
    /// Coefficients of the last-layer polynomial.
    pub last_layer_poly: Vec<QM31>,
    /// Proof-of-work nonce.
    pub nonce: u64,
}

/// What the external AIR computed at the sampled point.
pub struct AirEvals {
    /// The AIR's mask points relative to the sampled point, per trace column.
    pub mask_points: Vec<Vec<CirclePoint>>,
    /// The proof's four composition sub-values combined into one
    /// secure-field value.
    pub composition_value: QM31,
    /// The composition value recomputed from the AIR's constraint system,
    /// the trace mask values and the first random coefficient.
    pub composition_recomputed: QM31,
    /// Boundary-constraint quotient evaluation at the sampled point.
    pub boundary_quotient: QM31,
    /// Step-constraint quotient evaluation at the sampled point.
    pub step_quotient: QM31,
}

/// What the external transcript produced while the caller ran the protocol's
/// fixed absorb/draw sequence: challenges and replay witnesses, in draw
/// order, plus the proof-of-work verdict and the sampled queries.
pub struct TranscriptTrace {
    /// First random coefficient, drawn after the trace commitment was
    /// absorbed.
    pub random_coeff: QM31,
    /// Witness for that draw.
    pub random_coeff_hint: DrawHints,
    /// The out-of-domain point, drawn after the composition commitment was
    /// absorbed.
    pub oods_point: CirclePoint,
    /// Witness for the point draw.
    pub oods_hint: OODSHint,
    /// Second random coefficient, drawn after the sampled values were
    /// absorbed.
    pub random_coeff2: QM31,
    /// Witness for that draw.
    pub random_coeff_hint2: DrawHints,
    /// The circle-to-line folding base challenge, shared by all columns.
    pub circle_poly_alpha: QM31,
    /// Witness for that draw.
    pub circle_poly_alpha_hint: DrawHints,
    /// One (folding challenge, witness) pair per FRI inner layer, drawn
    /// after that layer's commitment was absorbed, outermost first.
    pub folding_draws: Vec<(QM31, DrawHints)>,
    /// The transcript digest after the last-layer coefficients were
    /// absorbed; the proof-of-work nonce is checked against it.
    pub pow_digest: Digest,
    /// Verdict of the external proof-of-work checker.
    pub pow_passed: bool,
    /// The query indices drawn by the external sampler.
    pub queries: Queries,
    /// Witness for the query draw.
    pub queries_hint: DrawHints,
}

/// Fixed protocol constants supplied by the surrounding configuration.
pub struct FsConfig {
    /// Log of the blowup factor between degree bound and committed domain.
    pub log_blowup_factor: u32,
    /// Log-degree bound the folding must reach at the last layer.
    pub log_last_layer_degree_bound: u32,
    /// Number of query indices the sampler draws.
    pub n_queries: usize,
    /// Difficulty, in bits, of the proof-of-work check.
    pub pow_bits: u32,
}

/// The typed failure taxonomy. Every kind means "reject the proof".
#[derive(Clone, Copy, PartialEq, Eq, Structural, Debug)]
pub enum VerificationError {
    /// The sampled-value table does not match the expected row/column shape.
    InvalidStructure,
    /// The recomputed composition value disagrees with the proof's value.
    OodsNotMatching,
    /// Folding stops short of, or runs past, the last-layer degree bound.
    InvalidNumFriLayers,
    /// The last-layer polynomial has more coefficients than its bound allows.
    LastLayerDegreeInvalid,
    /// The nonce does not meet the digest-derived difficulty.
    ProofOfWorkFailed,
}

/// The numeric parameters a downstream FRI-opening verifier needs.
#[derive(PartialEq, Eq, Debug)]
pub struct FriInput {
    /// Log of the blowup factor.
    pub fri_log_blowup_factor: u32,
    /// Largest per-column log-degree bound.
    pub max_column_log_degree_bound: u32,
    /// Per-column log-sizes, strictly descending and duplicate-free.
    pub column_log_sizes: Vec<u32>,
    /// Per-tree column log-sizes recorded by the commitment scheme.
    pub commitment_scheme_column_log_sizes: Vec<Vec<u32>>,
    /// Sampled points, indexed by tree, column, then mask row.
    pub sampled_points: Vec<Vec<Vec<CirclePoint>>>,
    /// The proof's sampled values, passed through unchanged.
    pub sample_values: Vec<Vec<Vec<QM31>>>,
    /// The second random coefficient, authoritative for the FRI phase.
    pub random_coeff: QM31,
    /// The circle-to-line folding base challenge.
    pub circle_poly_alpha: QM31,
    /// Per-layer folding challenges, outermost first.
    pub folding_alphas: Vec<QM31>,
    /// The last layer's evaluation domain.
    pub last_layer_domain: LineDomain,
    /// The sampled query indices.
    pub queries: Queries,
}

/// The orchestrator's sole success value: both output bundles.
#[derive(PartialEq, Eq, Debug)]
pub struct FSOutput {
    /// Hints for replaying the Fiat-Shamir transform.
    pub fiat_shamir_hints: FiatShamirHints,
    /// Inputs for the FRI-opening phase.
    pub fri_input: FriInput,
}

/// The sampled value of tree `t`, column `col`, mask row `row`.
pub open spec fn sampled_value(p: StarkProof, t: int, col: int, row: int) -> QM31 {
    p.sampled_values@[t]@[col]@[row]
}

/// The sampled-value table has the expected shape: one trace column holding
/// the full mask, and one single-value column per composition sub-column.
pub open spec fn structure_ok(p: StarkProof) -> bool {
    &&& p.sampled_values@.len() == 2
    &&& p.sampled_values@[0]@.len() == 1
    &&& p.sampled_values@[0]@[0]@.len() == TRACE_MASK_WIDTH
    &&& p.sampled_values@[1]@.len() == COMPOSITION_SPLIT
    &&& forall|i: int|
        0 <= i < COMPOSITION_SPLIT ==> #[trigger] p.sampled_values@[1]@[i]@.len() == 1
}

/// Log-sizes of every committed column: the trace columns followed by the
/// four composition sub-columns.
pub open spec fn all_column_log_sizes(air: AirParams) -> Seq<u32> {
    air.column_log_sizes@ + Seq::new(
        COMPOSITION_SPLIT as nat,
        |i: int| air.composition_log_degree_bound,
    )
}

/// The largest element of a sequence (zero when empty).
pub open spec fn seq_u32_max(s: Seq<u32>) -> u32
    decreases s.len(),
{
    if s.len() == 0 {
        0
    } else if s.last() >= seq_u32_max(s.drop_last()) {
        s.last()
    } else {
        seq_u32_max(s.drop_last())
    }
}

/// `seq_u32_max` is an element of the sequence and bounds every element.
pub proof fn lemma_seq_u32_max(s: Seq<u32>)
    requires
        s.len() > 0,
    ensures
        s.contains(seq_u32_max(s)),
        forall|x: u32| s.contains(x) ==> x <= seq_u32_max(s),
    decreases s.len(),
{
    let rest = s.drop_last();
    assert(s[s.len() - 1] == s.last());
    if s.len() == 1 {
        assert forall|x: u32| s.contains(x) implies x <= seq_u32_max(s) by {
            let i = choose|i: int| 0 <= i < s.len() && s[i] == x;
        }
    } else {
        lemma_seq_u32_max(rest);
        let m = seq_u32_max(rest);
        let i = choose|i: int| 0 <= i < rest.len() && rest[i] == m;
        assert(s[i] == m);
        assert(s.contains(m));
        assert forall|x: u32| s.contains(x) implies x <= seq_u32_max(s) by {
            let k = choose|k: int| 0 <= k < s.len() && s[k] == x;
            if k < s.len() - 1 {
                assert(rest[k] == x);
                assert(rest.contains(x));
            }
        }
    }
}

/// The largest per-column line-level log-degree bound.
pub open spec fn max_line_bound(air: AirParams, config: FsConfig) -> int {
    seq_u32_max(all_column_log_sizes(air)) - config.log_blowup_factor
}

/// The proof carries exactly the number of FRI inner layers needed to fold
/// the largest column bound down to the configured last-layer bound.
pub open spec fn layers_ok(p: StarkProof, air: AirParams, config: FsConfig) -> bool {
    p.fri_layer_commitments@.len() * (FOLD_STEP as int) == max_line_bound(air, config)
        - config.log_last_layer_degree_bound
}

/// The last-layer polynomial fits under its configured degree bound.
pub open spec fn last_layer_ok(p: StarkProof, config: FsConfig) -> bool {
    p.last_layer_poly@.len() <= pow2(config.log_last_layer_degree_bound as nat)
}

/// The query sampler's contract: the configured number of pairwise distinct
/// indices, each inside the sampled domain.
pub open spec fn queries_wf(q: Queries, n: usize) -> bool {
    &&& q.positions@.len() == n
    &&& forall|i: int, j: int|
        0 <= i < j < q.positions@.len() ==> q.positions@[i] != q.positions@[j]
    &&& forall|i: int|
        0 <= i < q.positions@.len() ==> (#[trigger] q.positions@[i] as nat) < pow2(
            q.log_domain_size as nat,
        )
}

/// The first violated check, in the protocol's fixed order; `None` when the
/// proof passes every check.
pub open spec fn verdict(
    p: StarkProof,
    air: AirParams,
    t: TranscriptTrace,
    e: AirEvals,
    config: FsConfig,
) -> Option<VerificationError> {
    if !structure_ok(p) {
        Some(VerificationError::InvalidStructure)
    } else if e.composition_value != e.composition_recomputed {
        Some(VerificationError::OodsNotMatching)
    } else if !layers_ok(p, air, config) {
        Some(VerificationError::InvalidNumFriLayers)
    } else if !last_layer_ok(p, config) {
        Some(VerificationError::LastLayerDegreeInvalid)
    } else if !t.pow_passed {
        Some(VerificationError::ProofOfWorkFailed)
    } else {
        None
    }
}

/// Every field of a successful output, pinned as a function of the inputs.
pub open spec fn output_matches(
    p: StarkProof,
    air: AirParams,
    t: TranscriptTrace,
    e: AirEvals,
    config: FsConfig,
    out: FSOutput,
) -> bool {
    let h = out.fiat_shamir_hints;
    let f = out.fri_input;
    &&& h.commitments@[0]@ == p.commitments@[0]@
    &&& h.commitments@[1]@ == p.commitments@[1]@
    &&& h.random_coeff_hint@ == t.random_coeff_hint@
    &&& h.oods_hint@ == t.oods_hint@
    &&& h.trace_oods_values@ == seq![
        sampled_value(p, 0, 0, 0),
        sampled_value(p, 0, 0, 1),
        sampled_value(p, 0, 0, 2),
    ]
    &&& h.composition_oods_values@ == seq![
        sampled_value(p, 1, 0, 0),
        sampled_value(p, 1, 1, 0),
        sampled_value(p, 1, 2, 0),
        sampled_value(p, 1, 3, 0),
    ]
    &&& h.composition_hint.constraint_eval_quotients_by_mask@ == seq![
        e.boundary_quotient,
        e.step_quotient,
    ]
    &&& h.random_coeff_hint2@ == t.random_coeff_hint2@
    &&& h.circle_poly_alpha_hint@ == t.circle_poly_alpha_hint@
    &&& h.fri_commitment_and_folding_hints@.len() == p.fri_layer_commitments@.len()
    &&& forall|k: int|
        0 <= k < p.fri_layer_commitments@.len()
            ==> (#[trigger] h.fri_commitment_and_folding_hints@[k]).0@
            == p.fri_layer_commitments@[k]@ && h.fri_commitment_and_folding_hints@[k].1@
            == t.folding_draws@[k].1@
    &&& h.last_layer == p.last_layer_poly@[0]
    &&& h.pow_hint.channel_digest@ == t.pow_digest@
    &&& h.pow_hint.nonce == p.nonce
    &&& h.pow_hint.n_bits == config.pow_bits
    &&& h.queries_hints@ == t.queries_hint@
    &&& f.fri_log_blowup_factor == config.log_blowup_factor
    &&& f.max_column_log_degree_bound as int == max_line_bound(air, config)
    &&& strictly_desc(f.column_log_sizes@)
    &&& forall|x: u32|
        #[trigger] f.column_log_sizes@.contains(x) <==> all_column_log_sizes(air).contains(x)
    &&& f.commitment_scheme_column_log_sizes@.len() == 2
    &&& f.commitment_scheme_column_log_sizes@[0]@ == air.column_log_sizes@
    &&& f.commitment_scheme_column_log_sizes@[1]@ == Seq::new(
        COMPOSITION_SPLIT as nat,
        |i: int| air.composition_log_degree_bound,
    )
    &&& f.sampled_points@.len() == 2
    &&& f.sampled_points@[0] == e.mask_points
    &&& f.sampled_points@[1]@.len() == COMPOSITION_SPLIT
    &&& forall|k: int|
        0 <= k < COMPOSITION_SPLIT ==> #[trigger] f.sampled_points@[1]@[k]@ == seq![t.oods_point]
    &&& f.sample_values == p.sampled_values
    &&& f.random_coeff == t.random_coeff2
    &&& f.circle_poly_alpha == t.circle_poly_alpha
    &&& f.folding_alphas@.len() == t.folding_draws@.len()
    &&& forall|k: int|
        0 <= k < t.folding_draws@.len() ==> #[trigger] f.folding_alphas@[k]
            == t.folding_draws@[k].0
    &&& f.last_layer_domain.log_size as int == config.log_last_layer_degree_bound
        + config.log_blowup_factor
    &&& f.queries == t.queries
}

/// Run one verification pass: check the proof against the values the
/// external collaborators produced, in the protocol's fixed order, and
/// either assemble both output bundles or return the first violated check.
///
/// The preconditions state the collaborators' own contracts (the AIR's fixed
/// mask layout, one folding draw per layer, the query sampler's guarantee)
/// and the machine limits under which the pipeline's arithmetic is defined.
#[verifier::loop_isolation(false)]
#[verifier::rlimit(50)]
pub fn generate_fs_hints(
    stark_proof: StarkProof,
    air: &AirParams,
    trace: TranscriptTrace,
    evals: AirEvals,
    config: &FsConfig,
) -> (r: Result<FSOutput, VerificationError>)
    requires
        forall|i: int|
            0 <= i < air.column_log_sizes@.len() ==> #[trigger] air.column_log_sizes@[i]
                >= config.log_blowup_factor,
        air.composition_log_degree_bound >= config.log_blowup_factor,
        evals.mask_points@.len() == 1,
        evals.mask_points@[0]@.len() == TRACE_MASK_WIDTH,
        trace.folding_draws@.len() == stark_proof.fri_layer_commitments@.len(),
        stark_proof.last_layer_poly@.len() >= 1,
        config.log_last_layer_degree_bound < usize::BITS,
        trace.queries.log_domain_size == seq_u32_max(all_column_log_sizes(*air)),
        queries_wf(trace.queries, config.n_queries),
    ensures
        match r {
            Ok(out) => verdict(stark_proof, *air, trace, evals, *config) is None
                && output_matches(stark_proof, *air, trace, evals, *config, out),
            Err(e) => verdict(stark_proof, *air, trace, evals, *config) == Some(e),
        },
{
    let ghost gproof = stark_proof;
    let ghost gtrace = trace;
    let ghost gevals = evals;

    // Step: the sampled-value table must have the expected shape — one
    // trace column carrying the full mask, one one-value column per
    // composition sub-column.
    if stark_proof.sampled_values.len() != 2 {
        return Err(VerificationError::InvalidStructure);
    }
    if stark_proof.sampled_values[0].len() != 1 {
        return Err(VerificationError::InvalidStructure);
    }
    if stark_proof.sampled_values[0][0].len() != TRACE_MASK_WIDTH {
        return Err(VerificationError::InvalidStructure);
    }
    if stark_proof.sampled_values[1].len() != COMPOSITION_SPLIT {
        return Err(VerificationError::InvalidStructure);
    }
    if stark_proof.sampled_values[1][0].len() != 1 || stark_proof.sampled_values[1][1].len() != 1
        || stark_proof.sampled_values[1][2].len() != 1
        || stark_proof.sampled_values[1][3].len() != 1 {
        return Err(VerificationError::InvalidStructure);
    }
    proof {
        assert forall|i: int|
            0 <= i < COMPOSITION_SPLIT implies #[trigger] gproof.sampled_values@[1]@[i]@.len()
            == 1 by {
            assert(i == 0 || i == 1 || i == 2 || i == 3);
        }
        assert(structure_ok(gproof));
    }

    // Step: the central algebraic soundness check — the composition value
    // carried by the proof must match the AIR's recomputation.
    if evals.composition_value.a != evals.composition_recomputed.a
        || evals.composition_value.b != evals.composition_recomputed.b
        || evals.composition_value.c != evals.composition_recomputed.c
        || evals.composition_value.d != evals.composition_recomputed.d {
        return Err(VerificationError::OodsNotMatching);
    }

    // Extract the trace mask values and the composition sub-values.
    let trace_oods_values: [QM31; 3] = [
        stark_proof.sampled_values[0][0][0],
        stark_proof.sampled_values[0][0][1],
        stark_proof.sampled_values[0][0][2],
    ];
    let composition_oods_values: [QM31; 4] = [
        stark_proof.sampled_values[1][0][0],
        stark_proof.sampled_values[1][1][0],
        stark_proof.sampled_values[1][2][0],
        stark_proof.sampled_values[1][3][0],
    ];

    // The recomputable constraint-quotient contributions, boundary first.
    let composition_hint = CompositionHint {
        constraint_eval_quotients_by_mask: vec![evals.boundary_quotient, evals.step_quotient],
    };

    // The column layout the commitment scheme recorded: the trace tree's
    // columns, then four composition sub-columns of the same bound.
    let tree0_sizes = copy_u32_vec(&air.column_log_sizes);
    let comp_bound = air.composition_log_degree_bound;
    let tree1_sizes = vec![comp_bound, comp_bound, comp_bound, comp_bound];
    proof {
        assert(tree1_sizes@ =~= Seq::new(
            COMPOSITION_SPLIT as nat,
            |i: int| air.composition_log_degree_bound,
        ));
    }
    let commitment_scheme_column_log_sizes = vec![tree0_sizes, tree1_sizes];

    // Step: one line-level degree bound per committed column, sorted
    // descending with duplicates dropped. This list defines the FRI
    // layering.
    let ghost sizes_seq = all_column_log_sizes(*air);
    let mut all_bounds: Vec<u32> = Vec::new();
    let n_cols = air.column_log_sizes.len();
    let mut i: usize = 0;
    while i < n_cols
        invariant
            i <= n_cols,
            all_bounds@.len() == i,
            forall|k: int|
                0 <= k < i ==> #[trigger] all_bounds@[k] + config.log_blowup_factor
                    == sizes_seq[k],
        decreases n_cols - i,
    {
        all_bounds.push(air.column_log_sizes[i] - config.log_blowup_factor);
        i = i + 1;
    }
    let comp_line_bound = air.composition_log_degree_bound - config.log_blowup_factor;
    all_bounds.push(comp_line_bound);
    all_bounds.push(comp_line_bound);
    all_bounds.push(comp_line_bound);
    all_bounds.push(comp_line_bound);
    proof {
        assert(all_bounds@.len() == sizes_seq.len());
        assert forall|k: int|
            0 <= k < sizes_seq.len() implies #[trigger] all_bounds@[k]
            + config.log_blowup_factor == sizes_seq[k] by {
            if k >= n_cols {
                assert(sizes_seq[k] == air.composition_log_degree_bound);
            }
        }
    }
    let ghost gbounds_in = all_bounds@;
    let bounds = dedup_descending(all_bounds);

    // The largest bound comes first and defines the layer count.
    proof {
        lemma_seq_u32_max(sizes_seq);
        assert(sizes_seq.len() > 0);
        assert(gbounds_in.len() > 0);
        assert(gbounds_in.contains(gbounds_in[0]));
    }
    let max_column_bound = bounds[0];
    proof {
        // The first element is the maximum of the input bounds, and the
        // bounds are exactly the sizes less the blowup factor.
        assert(bounds@.contains(bounds@[0]));
        assert(gbounds_in.contains(bounds@[0]));
        let m0 = choose|m: int| 0 <= m < gbounds_in.len() && gbounds_in[m] == bounds@[0];
        assert(gbounds_in[m0] + config.log_blowup_factor == sizes_seq[m0]);
        assert(sizes_seq.contains(sizes_seq[m0]));
        assert(max_column_bound as int <= max_line_bound(*air, *config));
        let mx = seq_u32_max(sizes_seq);
        let m1 = choose|m: int| 0 <= m < sizes_seq.len() && sizes_seq[m] == mx;
        assert(gbounds_in[m1] + config.log_blowup_factor == sizes_seq[m1]);
        assert(gbounds_in.contains(gbounds_in[m1]));
        assert(bounds@.contains(gbounds_in[m1]));
        assert(bounds@[0] >= gbounds_in[m1]);
        assert(max_column_bound as int == max_line_bound(*air, *config));
    }

    // Step: walk the FRI inner layers in order, pairing each layer's
    // commitment with its folding draw and folding the running bound.
    let StarkProof {
        commitments,
        sampled_values,
        fri_layer_commitments,
        last_layer_poly,
        nonce,
    } = stark_proof;
    let TranscriptTrace {
        random_coeff: _first_random_coeff,
        random_coeff_hint,
        oods_point,
        oods_hint,
        random_coeff2,
        random_coeff_hint2,
        circle_poly_alpha,
        circle_poly_alpha_hint,
        folding_draws,
        pow_digest,
        pow_passed,
        queries,
        queries_hint,
    } = trace;
    let AirEvals {
        mask_points,
        composition_value: _composition_value,
        composition_recomputed: _composition_recomputed,
        boundary_quotient: _boundary_quotient,
        step_quotient: _step_quotient,
    } = evals;

    let mut commits = fri_layer_commitments;
    let mut draws = folding_draws;
    let ghost cs0 = commits@;
    let ghost ds0 = draws@;
    let n_layers = commits.len();
    let mut pairs: Vec<(Digest, DrawHints)> = Vec::new();
    let mut folding_alphas: Vec<QM31> = Vec::new();
    let mut layer_bound: u32 = max_column_bound;
    let mut j: usize = 0;
    while j < n_layers
        invariant
            j <= n_layers,
            commits@ == cs0.subrange(j as int, n_layers as int),
            draws@ == ds0.subrange(j as int, n_layers as int),
            pairs@.len() == j,
            folding_alphas@.len() == j,
            forall|k: int|
                0 <= k < j ==> (#[trigger] pairs@[k]).0@ == cs0[k]@ && pairs@[k].1@ == ds0[k].1@,
            forall|k: int| 0 <= k < j ==> #[trigger] folding_alphas@[k] == ds0[k].0,
            layer_bound as int == max_column_bound - j * (FOLD_STEP as int),
        decreases n_layers - j,
    {
        proof {
            assert(commits@[0] == cs0[j as int]);
            assert(draws@[0] == ds0[j as int]);
        }
        let c = commits.remove(0);
        let (alpha, hint) = draws.remove(0);
        folding_alphas.push(alpha);
        pairs.push((c, hint));
        if layer_bound < FOLD_STEP {
            proof {
                // Folding is no longer possible, so the layer count cannot
                // match the distance from the maximal bound to the
                // last-layer bound.
                assert(max_column_bound < (j + 1) * (FOLD_STEP as int));
                assert(!layers_ok(gproof, *air, *config));
            }
            return Err(VerificationError::InvalidNumFriLayers);
        }
        layer_bound = layer_bound - FOLD_STEP;
        proof {
            assert(commits@ =~= cs0.subrange(j as int + 1, n_layers as int));
            assert(draws@ =~= ds0.subrange(j as int + 1, n_layers as int));
        }
        j = j + 1;
    }

    // Step: after the walk the running bound must sit exactly at the
    // configured last-layer bound.
    if layer_bound != config.log_last_layer_degree_bound {
        proof {
            assert(!layers_ok(gproof, *air, *config));
        }
        return Err(VerificationError::InvalidNumFriLayers);
    }
    proof {
        assert(layers_ok(gproof, *air, *config));
    }

    // Step: the last-layer polynomial must fit under its degree bound.
    let cap: usize = 1usize << (config.log_last_layer_degree_bound as usize);
    proof {
        lemma_usize_pow2_no_overflow(config.log_last_layer_degree_bound as nat);
        lemma_usize_shl_is_mul(1usize, config.log_last_layer_degree_bound as usize);
        assert(cap as nat == pow2(config.log_last_layer_degree_bound as nat));
    }
    if last_layer_poly.len() > cap {
        return Err(VerificationError::LastLayerDegreeInvalid);
    }
    let last_layer = last_layer_poly[0];

    // Step: the proof-of-work hint ties the nonce to the digest it was
    // checked against; the external checker's verdict decides.
    let pow_hint = PoWHint { channel_digest: pow_digest, nonce, n_bits: config.pow_bits };
    if !pow_passed {
        return Err(VerificationError::ProofOfWorkFailed);
    }

    // Step: the per-column log-sizes for query generation — the deduplicated
    // bounds with the blowup factor added back.
    let nb = bounds.len();
    let mut column_log_sizes: Vec<u32> = Vec::new();
    let mut k: usize = 0;
    while k < nb
        invariant
            k <= nb,
            column_log_sizes@.len() == k,
            forall|t: int|
                0 <= t < k ==> #[trigger] column_log_sizes@[t] == bounds@[t]
                    + config.log_blowup_factor,
        decreases nb - k,
    {
        proof {
            assert(bounds@.contains(bounds@[k as int]));
            assert(gbounds_in.contains(bounds@[k as int]));
            let m = choose|m: int| 0 <= m < gbounds_in.len() && gbounds_in[m] == bounds@[
                k as int
            ];
            assert(gbounds_in[m] + config.log_blowup_factor == sizes_seq[m]);
        }
        column_log_sizes.push(bounds[k] + config.log_blowup_factor);
        k = k + 1;
    }
    proof {
        assert forall|x: u32| #[trigger] column_log_sizes@.contains(x) implies sizes_seq.contains(
            x,
        ) by {
            let t = choose|t: int| 0 <= t < column_log_sizes@.len() && column_log_sizes@[t] == x;
            assert(bounds@.contains(bounds@[t]));
            assert(gbounds_in.contains(bounds@[t]));
            let m = choose|m: int| 0 <= m < gbounds_in.len() && gbounds_in[m] == bounds@[t];
            assert(sizes_seq[m] == x);
        }
        assert forall|x: u32| sizes_seq.contains(x) implies column_log_sizes@.contains(x) by {
            let m = choose|m: int| 0 <= m < sizes_seq.len() && sizes_seq[m] == x;
            assert(gbounds_in[m] + config.log_blowup_factor == x);
            assert(gbounds_in.contains(gbounds_in[m]));
            assert(bounds@.contains(gbounds_in[m]));
            let t = choose|t: int| 0 <= t < bounds@.len() && bounds@[t] == gbounds_in[m];
            assert(column_log_sizes@[t] == x);
        }
        assert forall|a: int, b: int|
            0 <= a < b < column_log_sizes@.len() implies column_log_sizes@[a]
            > column_log_sizes@[b] by {
            assert(bounds@[a] > bounds@[b]);
        }
    }

    // Step: assemble both bundles in wire order.
    let fiat_shamir_hints = FiatShamirHints {
        commitments,
        random_coeff_hint,
        oods_hint,
        trace_oods_values,
        composition_oods_values,
        composition_hint,
        random_coeff_hint2,
        circle_poly_alpha_hint,
        fri_commitment_and_folding_hints: pairs,
        last_layer,
        pow_hint,
        queries_hints: queries_hint,
    };

    let p0 = vec![oods_point];
    let p1 = vec![oods_point];
    let p2 = vec![oods_point];
    let p3 = vec![oods_point];
    proof {
        assert(p0@ =~= seq![gtrace.oods_point]);
        assert(p1@ =~= seq![gtrace.oods_point]);
        assert(p2@ =~= seq![gtrace.oods_point]);
        assert(p3@ =~= seq![gtrace.oods_point]);
    }
    let tree1_points = vec![p0, p1, p2, p3];
    let sampled_points = vec![mask_points, tree1_points];

    let fri_input = FriInput {
        fri_log_blowup_factor: config.log_blowup_factor,
        max_column_log_degree_bound: max_column_bound,
        column_log_sizes,
        commitment_scheme_column_log_sizes,
        sampled_points,
        sample_values: sampled_values,
        random_coeff: random_coeff2,
        circle_poly_alpha,
        folding_alphas,
        last_layer_domain: LineDomain {
            log_size: config.log_last_layer_degree_bound + config.log_blowup_factor,
        },
        queries,
    };

    let out = FSOutput { fiat_shamir_hints, fri_input };
    proof {
        assert forall|kk: int|
            0 <= kk < COMPOSITION_SPLIT implies #[trigger] out.fri_input.sampled_points@[1]@[kk]@
            == seq![gtrace.oods_point] by {
            assert(kk == 0 || kk == 1 || kk == 2 || kk == 3);
        }
        assert(output_matches(gproof, *air, gtrace, gevals, *config, out));
    }
    Ok(out)
}

} // verus!
