//! Replay and validation of a succinct-proof verifier's Fiat-Shamir
//! transcript.
//!
//! The orchestrator consumes a proof object together with the values that the
//! externally owned transcript, AIR and samplers produced while the caller ran
//! the protocol's strict absorb/draw sequence, checks every structural and
//! algebraic constraint, and assembles the hint bundle (`FiatShamirHints`) and
//! the derived FRI-phase parameters (`FriInput`) for a downstream
//! resource-constrained verifier.
//!
//! The operation order the external transcript must follow is itself
//! produced, verified, by `schedule`; the laws the orchestrator's contract
//! entails — determinism, replay fidelity, the layer-count law and the
//! bound-ordering law — are stated and proved in `laws`.

pub mod bounds;
pub mod fiat_shamir;
pub mod hints;
pub mod laws;
pub mod schedule;
pub mod values;
