use fiat_shamir_hints::fiat_shamir::{
    generate_fs_hints, AirEvals, AirParams, FsConfig, StarkProof, TranscriptTrace,
    VerificationError,
};
use fiat_shamir_hints::hints::WireElem;
use fiat_shamir_hints::schedule::{transcript_schedule, TranscriptOp};
use fiat_shamir_hints::values::{CirclePoint, Digest, DrawHints, OODSHint, QM31, Queries};

fn felt(n: u32) -> QM31 {
    QM31 { a: n, b: n + 1, c: n + 2, d: n + 3 }
}

fn digest(tag: u8) -> Digest {
    Digest { bytes: vec![tag; 32] }
}

fn hint(tag: u8) -> DrawHints {
    DrawHints { data: vec![tag, tag] }
}

fn point(n: u32) -> CirclePoint {
    CirclePoint { x: felt(n), y: felt(n + 10) }
}

fn config() -> FsConfig {
    FsConfig { log_blowup_factor: 1, log_last_layer_degree_bound: 1, n_queries: 3, pow_bits: 12 }
}

// Columns of log-sizes 5, 3 and 4 plus four composition sub-columns of
// log-degree bound 5: line-level bounds {4, 2, 3, 4}, so three FRI layers
// fold the maximum bound 4 down to the configured last-layer bound 1.
fn air() -> AirParams {
    AirParams { column_log_sizes: vec![5, 3, 4], composition_log_degree_bound: 5 }
}

fn make_proof(n_layers: usize, last_layer_len: usize) -> StarkProof {
    StarkProof {
        commitments: [digest(1), digest(2)],
        sampled_values: vec![
            vec![vec![felt(100), felt(101), felt(102)]],
            vec![vec![felt(200)], vec![felt(201)], vec![felt(202)], vec![felt(203)]],
        ],
        fri_layer_commitments: (0..n_layers).map(|i| digest(10 + i as u8)).collect(),
        last_layer_poly: (0..last_layer_len).map(|i| felt(300 + i as u32)).collect(),
        nonce: 777,
    }
}

fn trace(n_layers: usize, pow_passed: bool) -> TranscriptTrace {
    TranscriptTrace {
        random_coeff: felt(400),
        random_coeff_hint: hint(40),
        oods_point: point(50),
        oods_hint: OODSHint { data: vec![5, 5, 5] },
        random_coeff2: felt(401),
        random_coeff_hint2: hint(41),
        circle_poly_alpha: felt(402),
        circle_poly_alpha_hint: hint(42),
        folding_draws: (0..n_layers)
            .map(|i| (felt(500 + i as u32), hint(60 + i as u8)))
            .collect(),
        pow_digest: digest(7),
        pow_passed,
        queries: Queries { log_domain_size: 5, positions: vec![0, 7, 31] },
        queries_hint: hint(43),
    }
}

fn evals(matching: bool) -> AirEvals {
    AirEvals {
        mask_points: vec![vec![point(60), point(61), point(62)]],
        composition_value: felt(700),
        composition_recomputed: if matching { felt(700) } else { felt(701) },
        boundary_quotient: felt(800),
        step_quotient: felt(801),
    }
}

#[test]
fn end_to_end_accepts_valid_proof() {
    let out = generate_fs_hints(make_proof(3, 1), &air(), trace(3, true), evals(true), &config())
        .expect("a well-formed proof is accepted");
    let h = &out.fiat_shamir_hints;
    assert_eq!(h.commitments[0], digest(1));
    assert_eq!(h.commitments[1], digest(2));
    assert_eq!(h.random_coeff_hint, hint(40));
    assert_eq!(h.trace_oods_values, [felt(100), felt(101), felt(102)]);
    assert_eq!(h.composition_oods_values, [felt(200), felt(201), felt(202), felt(203)]);
    assert_eq!(
        h.composition_hint.constraint_eval_quotients_by_mask,
        vec![felt(800), felt(801)]
    );
    assert_eq!(h.fri_commitment_and_folding_hints.len(), 3);
    assert_eq!(h.fri_commitment_and_folding_hints[0], (digest(10), hint(60)));
    assert_eq!(h.last_layer, felt(300));
    assert_eq!(h.pow_hint.channel_digest, digest(7));
    assert_eq!(h.pow_hint.nonce, 777);
    assert_eq!(h.pow_hint.n_bits, 12);
    assert_eq!(h.queries_hints, hint(43));

    let f = &out.fri_input;
    assert_eq!(f.fri_log_blowup_factor, 1);
    assert_eq!(f.max_column_log_degree_bound, 4);
    assert_eq!(f.column_log_sizes, vec![5, 4, 3]);
    assert_eq!(f.commitment_scheme_column_log_sizes, vec![vec![5, 3, 4], vec![5, 5, 5, 5]]);
    assert_eq!(f.sampled_points[0], vec![vec![point(60), point(61), point(62)]]);
    assert_eq!(
        f.sampled_points[1],
        vec![vec![point(50)], vec![point(50)], vec![point(50)], vec![point(50)]]
    );
    assert_eq!(f.sample_values, make_proof(3, 1).sampled_values);
    assert_eq!(f.random_coeff, felt(401));
    assert_eq!(f.circle_poly_alpha, felt(402));
    assert_eq!(f.folding_alphas, vec![felt(500), felt(501), felt(502)]);
    assert_eq!(f.last_layer_domain.log_size, 2);
    assert_eq!(f.queries.log_domain_size, 5);
    assert_eq!(f.queries.positions, vec![0, 7, 31]);
    assert_eq!(f.queries.positions.len(), config().n_queries);
}

#[test]
fn bound_ordering_strictly_decreasing() {
    // The air's column sizes arrive unsorted and with duplicates; the
    // derived list must come out strictly decreasing with none repeated.
    let out = generate_fs_hints(make_proof(3, 1), &air(), trace(3, true), evals(true), &config())
        .expect("accepted");
    let sizes = &out.fri_input.column_log_sizes;
    assert_eq!(sizes, &vec![5, 4, 3]);
    for w in sizes.windows(2) {
        assert!(w[0] > w[1]);
    }
}

#[test]
fn bound_ordering_collapses_shared_bounds() {
    // Every column shares one bound: a single entry remains.
    let flat_air = AirParams { column_log_sizes: vec![4, 4], composition_log_degree_bound: 4 };
    let mut t = trace(2, true);
    t.queries = Queries { log_domain_size: 4, positions: vec![0, 7, 15] };
    let out = generate_fs_hints(make_proof(2, 1), &flat_air, t, evals(true), &config())
        .expect("accepted");
    assert_eq!(out.fri_input.column_log_sizes, vec![4]);
    assert_eq!(out.fri_input.max_column_log_degree_bound, 3);
    assert_eq!(out.fiat_shamir_hints.fri_commitment_and_folding_hints.len(), 2);
}

#[test]
fn layer_count_matches_bound_distance() {
    // max line bound 4, last-layer bound 1, fold step 1: exactly 3 layers.
    let out = generate_fs_hints(make_proof(3, 1), &air(), trace(3, true), evals(true), &config())
        .expect("accepted");
    assert_eq!(out.fiat_shamir_hints.fri_commitment_and_folding_hints.len(), 3);
    assert_eq!(out.fri_input.folding_alphas.len(), 3);
}

#[test]
fn layer_removed_is_rejected() {
    let r = generate_fs_hints(make_proof(2, 1), &air(), trace(2, true), evals(true), &config());
    assert!(matches!(r, Err(VerificationError::InvalidNumFriLayers)));
}

#[test]
fn layer_duplicated_is_rejected() {
    let r = generate_fs_hints(make_proof(4, 1), &air(), trace(4, true), evals(true), &config());
    assert!(matches!(r, Err(VerificationError::InvalidNumFriLayers)));
}

#[test]
fn last_layer_at_exact_bound_is_accepted() {
    // 2^(log_last_layer_degree_bound) = 2 coefficients: still accepted.
    let out = generate_fs_hints(make_proof(3, 2), &air(), trace(3, true), evals(true), &config())
        .expect("accepted at the boundary");
    assert_eq!(out.fiat_shamir_hints.last_layer, felt(300));
}

#[test]
fn last_layer_over_bound_is_rejected() {
    let r = generate_fs_hints(make_proof(3, 3), &air(), trace(3, true), evals(true), &config());
    assert!(matches!(r, Err(VerificationError::LastLayerDegreeInvalid)));
}

#[test]
fn mask_shape_mismatch_is_rejected() {
    let mut p = make_proof(3, 1);
    p.sampled_values[0][0].pop();
    let r = generate_fs_hints(p, &air(), trace(3, true), evals(true), &config());
    assert!(matches!(r, Err(VerificationError::InvalidStructure)));
}

#[test]
fn composition_shape_mismatch_is_rejected() {
    let mut p = make_proof(3, 1);
    p.sampled_values[1].pop();
    let r = generate_fs_hints(p, &air(), trace(3, true), evals(true), &config());
    assert!(matches!(r, Err(VerificationError::InvalidStructure)));
}

#[test]
fn oods_mismatch_is_rejected() {
    let r = generate_fs_hints(make_proof(3, 1), &air(), trace(3, true), evals(false), &config());
    assert!(matches!(r, Err(VerificationError::OodsNotMatching)));
}

#[test]
fn failed_proof_of_work_is_rejected() {
    let r = generate_fs_hints(make_proof(3, 1), &air(), trace(3, false), evals(true), &config());
    assert!(matches!(r, Err(VerificationError::ProofOfWorkFailed)));
}

#[test]
fn first_violated_check_decides_the_error() {
    // A malformed table and a failed proof of work together report the
    // structural fault: checks run in the protocol's fixed order.
    let mut p = make_proof(3, 1);
    p.sampled_values[0][0].pop();
    let r = generate_fs_hints(p, &air(), trace(3, false), evals(false), &config());
    assert!(matches!(r, Err(VerificationError::InvalidStructure)));
}

#[test]
fn identical_inputs_give_identical_outputs() {
    let out1 = generate_fs_hints(make_proof(3, 1), &air(), trace(3, true), evals(true), &config())
        .expect("accepted");
    let out2 = generate_fs_hints(make_proof(3, 1), &air(), trace(3, true), evals(true), &config())
        .expect("accepted");
    assert_eq!(out1, out2);
    let w1 = out1.fiat_shamir_hints.wire_elements();
    let w2 = out2.fiat_shamir_hints.wire_elements();
    assert_eq!(w1, w2);
}

#[test]
fn wire_stream_follows_the_contractual_order() {
    let out = generate_fs_hints(make_proof(3, 1), &air(), trace(3, true), evals(true), &config())
        .expect("accepted");
    let w = out.fiat_shamir_hints.wire_elements();
    // 11 head elements, 2 quotients, 3 layer pairs, 5 tail elements.
    assert_eq!(w.len(), 26);
    assert_eq!(w[0], WireElem::Hash(digest(1)));
    assert_eq!(w[1], WireElem::Blob(vec![40, 40]));
    assert_eq!(w[2], WireElem::Hash(digest(2)));
    assert_eq!(w[3], WireElem::Blob(vec![5, 5, 5]));
    assert_eq!(w[4], WireElem::Felt(felt(100)));
    assert_eq!(w[5], WireElem::Felt(felt(101)));
    assert_eq!(w[6], WireElem::Felt(felt(102)));
    assert_eq!(w[7], WireElem::Felt(felt(200)));
    assert_eq!(w[8], WireElem::Felt(felt(201)));
    assert_eq!(w[9], WireElem::Felt(felt(202)));
    assert_eq!(w[10], WireElem::Felt(felt(203)));
    assert_eq!(w[11], WireElem::Felt(felt(800)));
    assert_eq!(w[12], WireElem::Felt(felt(801)));
    assert_eq!(w[13], WireElem::Blob(vec![41, 41]));
    assert_eq!(w[14], WireElem::Blob(vec![42, 42]));
    assert_eq!(w[15], WireElem::Hash(digest(10)));
    assert_eq!(w[16], WireElem::Blob(vec![60, 60]));
    assert_eq!(w[17], WireElem::Hash(digest(11)));
    assert_eq!(w[18], WireElem::Blob(vec![61, 61]));
    assert_eq!(w[19], WireElem::Hash(digest(12)));
    assert_eq!(w[20], WireElem::Blob(vec![62, 62]));
    assert_eq!(w[21], WireElem::Felt(felt(300)));
    assert_eq!(w[22], WireElem::Hash(digest(7)));
    assert_eq!(w[23], WireElem::Num(777));
    assert_eq!(w[24], WireElem::Num(12));
    assert_eq!(w[25], WireElem::Blob(vec![43, 43]));
}

#[test]
fn transcript_is_spent_even_when_rejecting() {
    // A rejection consumes the trace like a success does: reusing the same
    // drawn values for a corrected proof is the caller's decision, and a
    // fresh run over the same inputs reproduces the same verdict.
    let r1 = generate_fs_hints(make_proof(3, 3), &air(), trace(3, true), evals(true), &config());
    let r2 = generate_fs_hints(make_proof(3, 3), &air(), trace(3, true), evals(true), &config());
    assert_eq!(r1.is_err(), r2.is_err());
    assert!(matches!(r1, Err(VerificationError::LastLayerDegreeInvalid)));
}

#[test]
fn transcript_schedule_follows_the_protocol_order() {
    let p = make_proof(3, 1);
    let ops = transcript_schedule(&p, &air(), &config());
    assert_eq!(ops.len(), 16);
    assert_eq!(ops[0], TranscriptOp::AbsorbCommitment(digest(1), vec![5, 3, 4]));
    assert_eq!(ops[1], TranscriptOp::DrawFelt);
    assert_eq!(ops[2], TranscriptOp::AbsorbCommitment(digest(2), vec![5, 5, 5, 5]));
    assert_eq!(ops[3], TranscriptOp::DrawOodsPoint);
    assert_eq!(
        ops[4],
        TranscriptOp::MixFelts(vec![
            felt(100),
            felt(101),
            felt(102),
            felt(200),
            felt(201),
            felt(202),
            felt(203),
        ])
    );
    assert_eq!(ops[5], TranscriptOp::DrawFelt);
    assert_eq!(ops[6], TranscriptOp::DrawFelt);
    assert_eq!(ops[7], TranscriptOp::MixDigest(digest(10)));
    assert_eq!(ops[8], TranscriptOp::DrawFelt);
    assert_eq!(ops[9], TranscriptOp::MixDigest(digest(11)));
    assert_eq!(ops[10], TranscriptOp::DrawFelt);
    assert_eq!(ops[11], TranscriptOp::MixDigest(digest(12)));
    assert_eq!(ops[12], TranscriptOp::DrawFelt);
    assert_eq!(ops[13], TranscriptOp::MixFelts(vec![felt(300)]));
    assert_eq!(ops[14], TranscriptOp::CheckProofOfWork(777, 12));
    assert_eq!(ops[15], TranscriptOp::DrawQueries(5, 3));
}

#[test]
fn single_column_air_matches_the_reference_shape() {
    // The reference constraint system commits one trace column: two
    // commitments, a three-value mask, a four-value split, three layers,
    // a one-coefficient last layer and a passing nonce are accepted.
    let one_col_air = AirParams { column_log_sizes: vec![5], composition_log_degree_bound: 5 };
    let out = generate_fs_hints(make_proof(3, 1), &one_col_air, trace(3, true), evals(true), &config())
        .expect("accepted");
    assert_eq!(out.fri_input.column_log_sizes, vec![5]);
    assert_eq!(out.fri_input.max_column_log_degree_bound, 4);
    assert_eq!(out.fri_input.commitment_scheme_column_log_sizes, vec![vec![5], vec![5, 5, 5, 5]]);
    assert_eq!(out.fiat_shamir_hints.fri_commitment_and_folding_hints.len(), 3);
    assert_eq!(out.fiat_shamir_hints.commitments[0], digest(1));
    assert_eq!(out.fiat_shamir_hints.commitments[1], digest(2));
    assert_eq!(out.fri_input.queries.positions.len(), config().n_queries);
}

#[test]
fn wire_stream_length_tracks_the_layer_count() {
    // 11 head elements, 2 quotients, 2 blobs, two elements per layer and
    // 5 tail elements.
    let flat_air = AirParams { column_log_sizes: vec![4, 4], composition_log_degree_bound: 4 };
    let mut t = trace(2, true);
    t.queries = Queries { log_domain_size: 4, positions: vec![0, 7, 15] };
    let out = generate_fs_hints(make_proof(2, 1), &flat_air, t, evals(true), &config())
        .expect("accepted");
    let w = out.fiat_shamir_hints.wire_elements();
    assert_eq!(w.len(), 24);
    assert_eq!(w[15], WireElem::Hash(digest(10)));
    assert_eq!(w[17], WireElem::Hash(digest(11)));
    assert_eq!(w[23], WireElem::Blob(vec![43, 43]));
}
