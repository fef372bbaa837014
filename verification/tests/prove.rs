//! End-to-end proving tests: the bridge's constraint systems are replayed
//! into the real Groth16 backend, proven, and self-verified against the
//! bridge's public-input vector.

use bellman_bridge::{
    self_verification_outcome, Computation, FieldElement, FlatVariable, Function, Handle, LinComb,
    Prog, ProofPoints, QuadComb, R1cs, Statement, Witness,
};
use bellman_ce::groth16::{
    create_random_proof, generate_random_parameters, prepare_verifying_key, verify_proof,
    Parameters, Proof,
};
use bellman_ce::pairing::bn256::{Bn256, Fr, FrRepr};
use bellman_ce::pairing::ff::PrimeField;
use bellman_ce::{Circuit, ConstraintSystem, LinearCombination, SynthesisError, Variable};

fn fr(fe: &FieldElement) -> Fr {
    Fr::from_repr(FrRepr([fe.d0, fe.d1, fe.d2, fe.d3])).unwrap()
}

struct ReplayCircuit {
    r1cs: R1cs,
}

impl Circuit<Bn256> for ReplayCircuit {
    fn synthesize<CS: ConstraintSystem<Bn256>>(self, cs: &mut CS) -> Result<(), SynthesisError> {
        let with_values = !self.r1cs.input_values.is_empty();
        let mut inputs: Vec<Variable> = vec![CS::one()];
        for i in 1..self.r1cs.num_inputs {
            let v = if with_values {
                Some(fr(&self.r1cs.input_values[i]))
            } else {
                None
            };
            inputs.push(cs.alloc_input(
                || format!("in{}", i),
                || v.ok_or(SynthesisError::AssignmentMissing),
            )?);
        }
        let mut auxs: Vec<Variable> = Vec::new();
        for i in 0..self.r1cs.num_aux {
            let v = if with_values {
                Some(fr(&self.r1cs.aux_values[i]))
            } else {
                None
            };
            auxs.push(cs.alloc(
                || format!("aux{}", i),
                || v.ok_or(SynthesisError::AssignmentMissing),
            )?);
        }
        let resolve = |terms: &Vec<(Handle, FieldElement)>| -> LinearCombination<Bn256> {
            terms.iter().fold(LinearCombination::zero(), |acc, (h, coeff)| {
                let var = match h {
                    Handle::Input(i) => inputs[*i],
                    Handle::Aux(i) => auxs[*i],
                };
                acc + (fr(coeff), var)
            })
        };
        for c in &self.r1cs.constraints {
            let a = resolve(&c.a);
            let b = resolve(&c.b);
            let cc = resolve(&c.c);
            cs.enforce(|| "constraint", |lc| lc + &a, |lc| lc + &b, |lc| lc + &cc);
        }
        Ok(())
    }
}

fn setup(c: &Computation) -> Parameters<Bn256> {
    let r1cs = c.program.clone().synthesize(None).unwrap();
    let rng = &mut rand::thread_rng();
    generate_random_parameters::<Bn256, _, _>(ReplayCircuit { r1cs }, rng).unwrap()
}

fn prove(c: Computation, params: &Parameters<Bn256>) -> Proof<Bn256> {
    let pubs = c.public_inputs_values();
    let r1cs = c.synthesize().unwrap();
    let rng = &mut rand::thread_rng();
    let proof = create_random_proof(ReplayCircuit { r1cs }, params, rng).unwrap();
    let pvk = prepare_verifying_key(&params.vk);
    let frs: Vec<Fr> = pubs.iter().map(fr).collect();
    let ok = verify_proof(&pvk, &proof, &frs).unwrap();
    self_verification_outcome(ok).unwrap();
    proof
}

fn lc(terms: &[(FlatVariable, u64)]) -> LinComb {
    LinComb(
        terms
            .iter()
            .map(|(v, c)| (*v, FieldElement::from_u64(*c)))
            .collect(),
    )
}

fn witness(pairs: &[(FlatVariable, u64)]) -> Witness {
    let mut w = Witness::empty();
    for (v, x) in pairs {
        w.insert(*v, FieldElement::from_u64(*x));
    }
    w
}

#[test]
fn empty() {
    let program = Prog {
        main: Function {
            id: String::from("main"),
            arguments: vec![],
            returns: vec![],
            statements: vec![],
        },
        private: vec![],
    };
    let computation = Computation::with_witness(program, witness(&[]));
    // an empty program exposes an empty public-input vector
    assert!(computation.public_inputs_values().is_empty());
    let params = setup(&computation);
    let _proof = prove(computation, &params);
}

#[test]
fn identity() {
    let program = Prog {
        main: Function {
            id: String::from("main"),
            arguments: vec![FlatVariable::new(0)],
            returns: vec![FlatVariable::public(0)],
            statements: vec![Statement::Constraint(
                QuadComb::from_linear(lc(&[(FlatVariable::new(0), 1)])),
                lc(&[(FlatVariable::public(0), 1)]),
            )],
        },
        private: vec![true],
    };
    let w = witness(&[(FlatVariable::new(0), 0), (FlatVariable::public(0), 0)]);
    let computation = Computation::with_witness(program, w);
    let params = setup(&computation);
    let _proof = prove(computation, &params);
}

#[test]
fn public_identity() {
    let program = Prog {
        main: Function {
            id: String::from("main"),
            arguments: vec![FlatVariable::new(0)],
            returns: vec![FlatVariable::public(0)],
            statements: vec![Statement::Constraint(
                QuadComb::from_linear(lc(&[(FlatVariable::new(0), 1)])),
                lc(&[(FlatVariable::public(0), 1)]),
            )],
        },
        private: vec![false],
    };
    let w = witness(&[(FlatVariable::new(0), 0), (FlatVariable::public(0), 0)]);
    let computation = Computation::with_witness(program, w);
    let params = setup(&computation);
    let _proof = prove(computation, &params);
}

#[test]
fn no_arguments() {
    let program = Prog {
        main: Function {
            id: String::from("main"),
            arguments: vec![],
            returns: vec![FlatVariable::public(0)],
            statements: vec![Statement::Constraint(
                QuadComb::from_linear(lc(&[(FlatVariable::one(), 1)])),
                lc(&[(FlatVariable::public(0), 1)]),
            )],
        },
        private: vec![],
    };
    let w = witness(&[(FlatVariable::public(0), 1)]);
    let computation = Computation::with_witness(program, w);
    let params = setup(&computation);
    let _proof = prove(computation, &params);
}

#[test]
fn unordered_variables() {
    // public return wires are numbered from 0; argument wires can carry any
    // raw indices
    let program = Prog {
        main: Function {
            id: String::from("main"),
            arguments: vec![FlatVariable::new(42), FlatVariable::new(51)],
            returns: vec![FlatVariable::public(0), FlatVariable::public(1)],
            statements: vec![
                Statement::Constraint(
                    QuadComb::from_linear(lc(&[
                        (FlatVariable::new(42), 1),
                        (FlatVariable::new(51), 1),
                    ])),
                    lc(&[(FlatVariable::public(0), 1)]),
                ),
                Statement::Constraint(
                    QuadComb::from_linear(lc(&[
                        (FlatVariable::one(), 1),
                        (FlatVariable::new(42), 1),
                    ])),
                    lc(&[(FlatVariable::public(1), 1)]),
                ),
            ],
        },
        private: vec![true, false],
    };
    let w = witness(&[
        (FlatVariable::new(42), 3),
        (FlatVariable::new(51), 4),
        (FlatVariable::public(0), 7),
        (FlatVariable::public(1), 4),
    ]);
    let computation = Computation::with_witness(program, w);
    let pubs = computation.public_inputs_values();
    assert_eq!(pubs.len(), 3);
    assert_eq!(pubs[0].to_decimal(), "4");
    assert_eq!(pubs[1].to_decimal(), "7");
    assert_eq!(pubs[2].to_decimal(), "4");
    let params = setup(&computation);
    let _proof = prove(computation, &params);
}

#[test]
fn one() {
    let program = Prog {
        main: Function {
            id: String::from("main"),
            arguments: vec![FlatVariable::new(42)],
            returns: vec![FlatVariable::public(0)],
            statements: vec![Statement::Constraint(
                QuadComb::from_linear(lc(&[
                    (FlatVariable::new(42), 1),
                    (FlatVariable::one(), 1),
                ])),
                lc(&[(FlatVariable::public(0), 1)]),
            )],
        },
        private: vec![false],
    };
    let w = witness(&[(FlatVariable::new(42), 3), (FlatVariable::public(0), 4)]);
    let computation = Computation::with_witness(program, w);
    let params = setup(&computation);
    let _proof = prove(computation, &params);
}

#[test]
fn with_directives() {
    let program = Prog {
        main: Function {
            id: String::from("main"),
            arguments: vec![FlatVariable::new(42), FlatVariable::new(51)],
            returns: vec![FlatVariable::public(0)],
            statements: vec![Statement::Constraint(
                QuadComb::from_linear(lc(&[
                    (FlatVariable::new(42), 1),
                    (FlatVariable::new(51), 1),
                ])),
                lc(&[(FlatVariable::public(0), 1)]),
            )],
        },
        private: vec![true, false],
    };
    let w = witness(&[
        (FlatVariable::new(42), 3),
        (FlatVariable::new(51), 4),
        (FlatVariable::public(0), 7),
    ]);
    let computation = Computation::with_witness(program, w);
    let params = setup(&computation);
    let _proof = prove(computation, &params);
}

#[test]
fn self_verification_failure_is_recoverable() {
    // key material for one circuit, a proof attempt for another: the
    // self-check must surface a recoverable error, not an abort
    let identity_prog = Prog {
        main: Function {
            id: String::from("main"),
            arguments: vec![FlatVariable::new(0)],
            returns: vec![FlatVariable::public(0)],
            statements: vec![Statement::Constraint(
                QuadComb::from_linear(lc(&[(FlatVariable::new(0), 1)])),
                lc(&[(FlatVariable::public(0), 1)]),
            )],
        },
        private: vec![false],
    };
    let doubling_prog = Prog {
        main: Function {
            id: String::from("main"),
            arguments: vec![FlatVariable::new(0)],
            returns: vec![FlatVariable::public(0)],
            statements: vec![Statement::Constraint(
                QuadComb::from_linear(lc(&[(FlatVariable::new(0), 2)])),
                lc(&[(FlatVariable::public(0), 1)]),
            )],
        },
        private: vec![false],
    };
    let params = setup(&Computation::without_witness(identity_prog));
    let w = witness(&[(FlatVariable::new(0), 21), (FlatVariable::public(0), 42)]);
    let c = Computation::with_witness(doubling_prog, w);
    let pubs = c.public_inputs_values();
    let r1cs = c.synthesize().unwrap();
    let rng = &mut rand::thread_rng();
    let proof = create_random_proof(ReplayCircuit { r1cs }, &params, rng).unwrap();
    let pvk = prepare_verifying_key(&params.vk);
    let frs: Vec<Fr> = pubs.iter().map(fr).collect();
    let ok = verify_proof(&pvk, &proof, &frs).unwrap_or(false);
    assert!(self_verification_outcome(ok).is_err());
}

#[test]
fn serialize() {
    let program = Prog {
        main: Function {
            id: String::from("main"),
            arguments: vec![FlatVariable::new(0)],
            returns: vec![FlatVariable::public(0)],
            statements: vec![Statement::Constraint(
                QuadComb::from_linear(lc(&[(FlatVariable::new(0), 1)])),
                lc(&[(FlatVariable::public(0), 1)]),
            )],
        },
        private: vec![false],
    };
    let w = witness(&[(FlatVariable::new(0), 42), (FlatVariable::public(0), 42)]);
    let computation = Computation::with_witness(program, w);
    let public_inputs_values = computation.public_inputs_values();
    let params = setup(&computation);
    let proof = prove(computation, &params);
    let serialized_proof = bellman_bridge::serialize_proof(
        &ProofPoints {
            a: proof.a,
            b: proof.b,
            c: proof.c,
        },
        &public_inputs_values,
    );
    let parsed: serde_json::Value = serde_json::from_str(&serialized_proof).unwrap();
    let p = parsed.get("proof").unwrap();
    let a = p.get("a").unwrap().as_array().unwrap();
    assert_eq!(a.len(), 2);
    assert!(a.iter().all(|x| x.as_str().is_some()));
    let b = p.get("b").unwrap().as_array().unwrap();
    assert_eq!(b.len(), 2);
    for half in b {
        let pair = half.as_array().unwrap();
        assert_eq!(pair.len(), 2);
        assert!(pair.iter().all(|x| x.as_str().is_some()));
    }
    let c = p.get("c").unwrap().as_array().unwrap();
    assert_eq!(c.len(), 2);
    let inputs = parsed.get("inputs").unwrap().as_array().unwrap();
    assert_eq!(inputs.len(), 2);
    assert!(inputs.iter().all(|x| x.as_str() == Some("42")));
}

#[test]
fn serialize_vk_shape() {
    let program = Prog {
        main: Function {
            id: String::from("main"),
            arguments: vec![FlatVariable::new(0)],
            returns: vec![FlatVariable::public(0)],
            statements: vec![Statement::Constraint(
                QuadComb::from_linear(lc(&[(FlatVariable::new(0), 1)])),
                lc(&[(FlatVariable::public(0), 1)]),
            )],
        },
        private: vec![false],
    };
    let computation = Computation::without_witness(program);
    let params = setup(&computation);
    let text = bellman_bridge::serialize_vk(bellman_bridge::VerifyingKeyPoints {
        alpha_g1: params.vk.alpha_g1,
        beta_g2: params.vk.beta_g2,
        gamma_g2: params.vk.gamma_g2,
        delta_g2: params.vk.delta_g2,
        ic: params.vk.ic.clone(),
    });
    let lines: Vec<&str> = text.lines().collect();
    assert!(lines[0].starts_with("vk.alpha = ["));
    assert!(lines[1].starts_with("vk.beta = [["));
    assert!(lines[2].starts_with("vk.gamma = [["));
    assert!(lines[3].starts_with("vk.delta = [["));
    // three public input slots: the constant one, the public argument, the
    // return wire
    assert_eq!(lines[4], "vk.gammaABC.len() = 3");
    assert!(lines[5].starts_with("vk.gammaABC[0] = ["));
    assert!(lines[6].starts_with("vk.gammaABC[1] = ["));
    assert!(lines[7].starts_with("vk.gammaABC[2] = ["));
    assert_eq!(lines.len(), 8);
}
