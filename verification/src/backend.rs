//! The trusted boundary to the proving backend's curve points.
//!
//! The backend's verifying keys and proofs are bags of opaque curve
//! points; the bridge never inspects or mutates a point beyond reading its
//! affine coordinates for serialization.  `VerifyingKeyPoints` and
//! `ProofPoints` mirror the backend's key and proof layout point for
//! point; the two wrappers below are the only reads of an opaque value,
//! and everything downstream of the extracted coordinates is verified in
//! `serialize`.

use vstd::prelude::*;
use bellman_ce::pairing::bn256::{Bn256, G1Affine, G2Affine};
use bellman_ce::pairing::CurveAffine;
use bellman_ce::pairing::ff::PrimeField;
use crate::field::FieldElement;
use crate::serialize::{proof_text, render_proof, render_vk, vk_text, G1Coords, G2Coords,
    ProofCoords, VkCoords};

verus! {

/// The backend's curve marker type, declared opaquely.
#[verifier::external_type_specification]
#[verifier::external_body]
pub struct ExBn256(Bn256);

/// The backend's affine G1 point type, declared opaquely; only the two
/// coordinate wrappers below ever look inside a value.
#[verifier::external_type_specification]
#[verifier::external_body]
pub struct ExG1Affine(G1Affine);

/// The backend's affine G2 point type, declared opaquely.
#[verifier::external_type_specification]
#[verifier::external_body]
pub struct ExG2Affine(G2Affine);

/// The points of a Groth16 verifying key, in the backend's layout: the
/// `alpha`, `beta`, `gamma` and `delta` points and one public-input basis
/// point per input slot, the constant-one slot included.
pub struct VerifyingKeyPoints {
    pub alpha_g1: G1Affine,
    pub beta_g2: G2Affine,
    pub gamma_g2: G2Affine,
    pub delta_g2: G2Affine,
    pub ic: Vec<G1Affine>,
}

/// The three points of a Groth16 proof, in the backend's layout.
pub struct ProofPoints {
    pub a: G1Affine,
    pub b: G2Affine,
    pub c: G1Affine,
}

/// Relies on pairing's `CurveAffine::into_xy_unchecked` and
/// `PrimeField::into_repr`: the affine coordinates of a G1 point, read out
/// as canonical little-endian 64-bit limbs.
#[verifier::external_body]
fn g1_coords(p: &G1Affine) -> (r: G1Coords) {
    let (x, y) = p.into_xy_unchecked();
    let xr = x.into_repr().0;
    let yr = y.into_repr().0;
    G1Coords {
        x: FieldElement { d0: xr[0], d1: xr[1], d2: xr[2], d3: xr[3] },
        y: FieldElement { d0: yr[0], d1: yr[1], d2: yr[2], d3: yr[3] },
    }
}

/// Relies on pairing's `CurveAffine::into_xy_unchecked` and
/// `PrimeField::into_repr`: the affine coordinates of a G2 point, each
/// extension-field coordinate as its `(c0, c1)` pair of limb values.
#[verifier::external_body]
fn g2_coords(p: &G2Affine) -> (r: G2Coords) {
    let (x, y) = p.into_xy_unchecked();
    let x0 = x.c0.into_repr().0;
    let x1 = x.c1.into_repr().0;
    let y0 = y.c0.into_repr().0;
    let y1 = y.c1.into_repr().0;
    G2Coords {
        x0: FieldElement { d0: x0[0], d1: x0[1], d2: x0[2], d3: x0[3] },
        x1: FieldElement { d0: x1[0], d1: x1[1], d2: x1[2], d3: x1[3] },
        y0: FieldElement { d0: y0[0], d1: y0[1], d2: y0[2], d3: y0[3] },
        y1: FieldElement { d0: y1[0], d1: y1[1], d2: y1[2], d3: y1[3] },
    }
}

/// Serialize a verifying key as the fixed external text: the coordinates
/// of each point are read out, and the text is the documented rendering of
/// those coordinates, with one basis-point line per `ic` entry.
#[verifier::loop_isolation(false)]
pub fn serialize_vk(vk: VerifyingKeyPoints) -> (r: String)
    ensures
        exists|c: VkCoords| r@ == vk_text(c) && c.ic@.len() == vk.ic@.len(),
{
    let alpha = g1_coords(&vk.alpha_g1);
    let beta = g2_coords(&vk.beta_g2);
    let gamma = g2_coords(&vk.gamma_g2);
    let delta = g2_coords(&vk.delta_g2);
    let n = vk.ic.len();
    let mut ic: Vec<G1Coords> = Vec::new();
    let mut k: usize = 0;
    while k < n
        invariant
            k <= n,
            ic@.len() == k,
        decreases n - k,
    {
        ic.push(g1_coords(&vk.ic[k]));
        k = k + 1;
    }
    let coords = VkCoords { alpha, beta, gamma, delta, ic };
    let r = render_vk(&coords);
    proof {
        assert(r@ == vk_text(coords));
    }
    r
}

/// Serialize a proof and its public-input vector as the fixed external
/// JSON text: the proof's coordinates are read out, and the text is the
/// documented rendering of those coordinates with exactly the given
/// inputs, quoted as decimals in order.
pub fn serialize_proof(p: &ProofPoints, inputs: &Vec<FieldElement>) -> (r: String)
    ensures
        exists|c: ProofCoords| r@ == proof_text(c, inputs@),
{
    let coords = ProofCoords {
        a: g1_coords(&p.a),
        b: g2_coords(&p.b),
        c: g1_coords(&p.c),
    };
    let r = render_proof(&coords, inputs);
    proof {
        assert(r@ == proof_text(coords, inputs@));
    }
    r
}

} // verus!
