//! Fixed-format text serialization of verifying keys and proofs.
//!
//! The text is produced directly from the structured affine-coordinate
//! representation of each curve point, never from a debug printer: a base
//! field point renders as `[x, y]`, a degree-2 extension point as
//! `[[x0, x1], [y0, y1]]`, every number as its canonical decimal.  Public
//! inputs render as quoted decimal strings, in public-input order.

use vstd::prelude::*;
use vstd::string::*;
use crate::field::{dec_of, FieldElement};

verus! {

/// A G1 point in affine coordinates over the base field.
#[derive(Clone, Copy, Debug)]
pub struct G1Coords {
    pub x: FieldElement,
    pub y: FieldElement,
}

/// A G2 point in affine coordinates over the degree-2 extension field;
/// each coordinate is its pair `(c0, c1)`, in that order.
#[derive(Clone, Copy, Debug)]
pub struct G2Coords {
    pub x0: FieldElement,
    pub x1: FieldElement,
    pub y0: FieldElement,
    pub y1: FieldElement,
}

/// The coordinates of a Groth16 verifying key: the four named points and
/// one public-input basis point per input slot, the constant-one slot
/// included.
#[derive(Clone, Debug)]
pub struct VkCoords {
    pub alpha: G1Coords,
    pub beta: G2Coords,
    pub gamma: G2Coords,
    pub delta: G2Coords,
    pub ic: Vec<G1Coords>,
}

/// The coordinates of a Groth16 proof's three points.
#[derive(Clone, Copy, Debug)]
pub struct ProofCoords {
    pub a: G1Coords,
    pub b: G2Coords,
    pub c: G1Coords,
}

/// `[x, y]`.
pub open spec fn g1_text(p: G1Coords) -> Seq<char> {
    "["@ + dec_of(p.x.value()) + ", "@ + dec_of(p.y.value()) + "]"@
}

/// `[[x0, x1], [y0, y1]]`.
pub open spec fn g2_text(p: G2Coords) -> Seq<char> {
    "[["@ + dec_of(p.x0.value()) + ", "@ + dec_of(p.x1.value()) + "], ["@ + dec_of(p.y0.value())
        + ", "@ + dec_of(p.y1.value()) + "]]"@
}

/// `["x", "y"]`: the JSON form, coordinates quoted.
pub open spec fn g1_text_quoted(p: G1Coords) -> Seq<char> {
    "[\""@ + dec_of(p.x.value()) + "\", \""@ + dec_of(p.y.value()) + "\"]"@
}

/// `[["x0", "x1"], ["y0", "y1"]]`: the JSON form, coordinates quoted.
pub open spec fn g2_text_quoted(p: G2Coords) -> Seq<char> {
    "[[\""@ + dec_of(p.x0.value()) + "\", \""@ + dec_of(p.x1.value()) + "\"], [\""@ + dec_of(
        p.y0.value(),
    ) + "\", \""@ + dec_of(p.y1.value()) + "\"]]"@
}

/// One basis-point line: `vk.gammaABC[k] = [x, y]`.
pub open spec fn ic_entry(ic: Seq<G1Coords>, k: int) -> Seq<char> {
    "vk.gammaABC["@ + dec_of(k as nat) + "] = "@ + g1_text(ic[k])
}

/// The first `i` basis-point lines, joined by newlines.
pub open spec fn ic_joined(ic: Seq<G1Coords>, i: int) -> Seq<char>
    decreases i,
{
    if i <= 0 {
        Seq::empty()
    } else if i == 1 {
        ic_entry(ic, 0)
    } else {
        ic_joined(ic, i - 1) + "\n"@ + ic_entry(ic, i - 1)
    }
}

/// The verifying-key text: one line per key component, then the count and
/// the enumerated public-input basis points.
pub open spec fn vk_text(vk: VkCoords) -> Seq<char> {
    "vk.alpha = "@ + g1_text(vk.alpha) + "\nvk.beta = "@ + g2_text(vk.beta) + "\nvk.gamma = "@
        + g2_text(vk.gamma) + "\nvk.delta = "@ + g2_text(vk.delta) + "\nvk.gammaABC.len() = "@
        + dec_of(vk.ic@.len()) + "\n"@ + ic_joined(vk.ic@, vk.ic@.len() as int)
}

/// `"v"`: a public input as a quoted decimal string.
pub open spec fn input_quoted(v: FieldElement) -> Seq<char> {
    "\""@ + dec_of(v.value()) + "\""@
}

/// The first `i` public inputs, quoted and joined by `, `.
pub open spec fn inputs_joined(vals: Seq<FieldElement>, i: int) -> Seq<char>
    decreases i,
{
    if i <= 0 {
        Seq::empty()
    } else if i == 1 {
        input_quoted(vals[0])
    } else {
        inputs_joined(vals, i - 1) + ", "@ + input_quoted(vals[i - 1])
    }
}

/// The proof text: a JSON object with the three proof points and the
/// public inputs, in public-input order.
pub open spec fn proof_text(pf: ProofCoords, inputs: Seq<FieldElement>) -> Seq<char> {
    "{\n    \"proof\": {\n        \"a\": "@ + g1_text_quoted(pf.a) + ",\n        \"b\": "@
        + g2_text_quoted(pf.b) + ",\n        \"c\": "@ + g1_text_quoted(pf.c)
        + "\n    },\n    \"inputs\": ["@ + inputs_joined(inputs, inputs.len() as int) + "]\n}"@
}

fn push_dec(s: &mut String, v: &FieldElement)
    ensures
        final(s)@ == old(s)@ + dec_of(v.value()),
{
    let d = v.to_decimal();
    s.append(d.as_str());
}

fn push_g1(s: &mut String, p: &G1Coords)
    ensures
        final(s)@ == old(s)@ + g1_text(*p),
{
    s.append("[");
    push_dec(s, &p.x);
    s.append(", ");
    push_dec(s, &p.y);
    s.append("]");
    proof {
        assert(s@ =~= old(s)@ + g1_text(*p));
    }
}

fn push_g2(s: &mut String, p: &G2Coords)
    ensures
        final(s)@ == old(s)@ + g2_text(*p),
{
    s.append("[[");
    push_dec(s, &p.x0);
    s.append(", ");
    push_dec(s, &p.x1);
    s.append("], [");
    push_dec(s, &p.y0);
    s.append(", ");
    push_dec(s, &p.y1);
    s.append("]]");
    proof {
        assert(s@ =~= old(s)@ + g2_text(*p));
    }
}

fn push_g1_quoted(s: &mut String, p: &G1Coords)
    ensures
        final(s)@ == old(s)@ + g1_text_quoted(*p),
{
    s.append("[\"");
    push_dec(s, &p.x);
    s.append("\", \"");
    push_dec(s, &p.y);
    s.append("\"]");
    proof {
        assert(s@ =~= old(s)@ + g1_text_quoted(*p));
    }
}

fn push_g2_quoted(s: &mut String, p: &G2Coords)
    ensures
        final(s)@ == old(s)@ + g2_text_quoted(*p),
{
    s.append("[[\"");
    push_dec(s, &p.x0);
    s.append("\", \"");
    push_dec(s, &p.x1);
    s.append("\"], [\"");
    push_dec(s, &p.y0);
    s.append("\", \"");
    push_dec(s, &p.y1);
    s.append("\"]]");
    proof {
        assert(s@ =~= old(s)@ + g2_text_quoted(*p));
    }
}

/// Render a verifying key's coordinates as the fixed external text.
#[verifier::loop_isolation(false)]
pub fn render_vk(vk: &VkCoords) -> (r: String)
    ensures
        r@ == vk_text(*vk),
{
    let mut s = String::from_str("vk.alpha = ");
    push_g1(&mut s, &vk.alpha);
    s.append("\nvk.beta = ");
    push_g2(&mut s, &vk.beta);
    s.append("\nvk.gamma = ");
    push_g2(&mut s, &vk.gamma);
    s.append("\nvk.delta = ");
    push_g2(&mut s, &vk.delta);
    s.append("\nvk.gammaABC.len() = ");
    let len_fe = FieldElement::from_u64(vk.ic.len() as u64);
    push_dec(&mut s, &len_fe);
    s.append("\n");
    let ghost header: Seq<char> = s@;
    let n = vk.ic.len();
    let mut k: usize = 0;
    while k < n
        invariant
            k <= n,
            s@ == header + ic_joined(vk.ic@, k as int),
        decreases n - k,
    {
        if k > 0 {
            s.append("\n");
        }
        s.append("vk.gammaABC[");
        let k_fe = FieldElement::from_u64(k as u64);
        push_dec(&mut s, &k_fe);
        s.append("] = ");
        push_g1(&mut s, &vk.ic[k]);
        proof {
            assert(s@ =~= header + ic_joined(vk.ic@, k as int + 1));
        }
        k = k + 1;
    }
    proof {
        assert(s@ =~= vk_text(*vk));
    }
    s
}

/// Render a proof's coordinates and its public inputs as the fixed
/// external JSON text.
#[verifier::loop_isolation(false)]
pub fn render_proof(pf: &ProofCoords, inputs: &Vec<FieldElement>) -> (r: String)
    ensures
        r@ == proof_text(*pf, inputs@),
{
    let mut s = String::from_str("{\n    \"proof\": {\n        \"a\": ");
    push_g1_quoted(&mut s, &pf.a);
    s.append(",\n        \"b\": ");
    push_g2_quoted(&mut s, &pf.b);
    s.append(",\n        \"c\": ");
    push_g1_quoted(&mut s, &pf.c);
    s.append("\n    },\n    \"inputs\": [");
    let ghost header: Seq<char> = s@;
    let n = inputs.len();
    let mut k: usize = 0;
    while k < n
        invariant
            k <= n,
            s@ == header + inputs_joined(inputs@, k as int),
        decreases n - k,
    {
        if k > 0 {
            s.append(", ");
        }
        s.append("\"");
        push_dec(&mut s, &inputs[k]);
        s.append("\"");
        proof {
            assert(s@ =~= header + inputs_joined(inputs@, k as int + 1));
        }
        k = k + 1;
    }
    s.append("]\n}");
    proof {
        assert(s@ =~= proof_text(*pf, inputs@));
    }
    s
}

} // verus!
