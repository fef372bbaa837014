//! Bridge from an arithmetic-circuit intermediate representation to the
//! rank-1 constraint system consumed by a Groth16 proving backend, with
//! fixed-format text serialization of the resulting artifacts.

mod assoc;
mod backend;
mod computation;
mod field;
mod ir;
mod r1cs;
mod serialize;
mod synthesis;

pub use serialize::{G1Coords, G2Coords, ProofCoords, VkCoords, g1_text, g1_text_quoted, g2_text,
    g2_text_quoted, proof_text, render_proof, render_vk, vk_text};

pub use backend::{ProofPoints, VerifyingKeyPoints, serialize_proof, serialize_vk};
pub use computation::{Computation, lemma_handles_positional, lemma_handles_unique,
    lemma_public_input_slot_agreement, lemma_public_inputs_statement_independent,
    self_verification_outcome};

pub use field::{FieldElement, dec_of, lemma_dec_of_no_leading_zero};
pub use ir::{Error, FlatVariable, Function, LinComb, Prog, QuadComb, Statement, Witness};
pub use r1cs::{CsConstraint, Handle, R1cs};
pub use synthesis::{constraint_count, lemma_constraint_count, prog_wf, spec_constraints,
    spec_input_values, spec_public_inputs, witness_covers};
