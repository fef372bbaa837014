//! Tests of the bridge's own logic: decimal rendering, slot allocation,
//! public-input ordering, error paths, and the fixed text formats.

use bellman_bridge::{
    render_proof, render_vk, self_verification_outcome, Computation, Error, FieldElement,
    FlatVariable, Function, G1Coords, G2Coords, Handle, LinComb, Prog, ProofCoords, QuadComb,
    Statement, VkCoords, Witness,
};

fn fe(v: u64) -> FieldElement {
    FieldElement::from_u64(v)
}

fn lc(terms: &[(FlatVariable, u64)]) -> LinComb {
    LinComb(terms.iter().map(|(v, c)| (*v, fe(*c))).collect())
}

fn witness(pairs: &[(FlatVariable, u64)]) -> Witness {
    let mut w = Witness::empty();
    for (v, x) in pairs {
        w.insert(*v, fe(*x));
    }
    w
}

fn two_arg_program(statements: Vec<Statement>) -> Prog {
    Prog {
        main: Function {
            id: String::from("main"),
            arguments: vec![FlatVariable::new(42), FlatVariable::new(51)],
            returns: vec![FlatVariable::public(0), FlatVariable::public(1)],
            statements,
        },
        private: vec![true, false],
    }
}

fn two_arg_statements() -> Vec<Statement> {
    vec![
        Statement::Constraint(
            QuadComb::from_linear(lc(&[
                (FlatVariable::new(42), 1),
                (FlatVariable::new(51), 1),
            ])),
            lc(&[(FlatVariable::public(0), 1)]),
        ),
        Statement::Constraint(
            QuadComb::from_linear(lc(&[(FlatVariable::one(), 1), (FlatVariable::new(42), 1)])),
            lc(&[(FlatVariable::public(1), 1)]),
        ),
    ]
}

fn two_arg_witness() -> Witness {
    witness(&[
        (FlatVariable::new(42), 3),
        (FlatVariable::new(51), 4),
        (FlatVariable::public(0), 7),
        (FlatVariable::public(1), 4),
    ])
}

#[test]
fn decimal_zero() {
    assert_eq!(fe(0).to_decimal(), "0");
}

#[test]
fn decimal_small() {
    assert_eq!(fe(42).to_decimal(), "42");
    assert_eq!(fe(7).to_decimal(), "7");
    assert_eq!(fe(1000000007).to_decimal(), "1000000007");
}

#[test]
fn decimal_one_limb_max() {
    assert_eq!(fe(u64::MAX).to_decimal(), "18446744073709551615");
}

#[test]
fn decimal_two_limbs() {
    // 2^64 + 1
    let x = FieldElement::from_limbs(1, 1, 0, 0);
    assert_eq!(x.to_decimal(), "18446744073709551617");
}

#[test]
fn decimal_top_limb() {
    // 2^192
    let x = FieldElement::from_limbs(0, 0, 0, 1);
    assert_eq!(
        x.to_decimal(),
        "6277101735386680763835789423207666416102355444464034512896"
    );
}

#[test]
fn allocation_order_and_values() {
    let c = Computation::with_witness(
        two_arg_program(two_arg_statements()),
        two_arg_witness(),
    );
    let r1cs = c.synthesize().unwrap();
    // slots: [one, public argument, two return wires]; one auxiliary slot
    assert_eq!(r1cs.num_inputs, 4);
    assert_eq!(r1cs.num_aux, 1);
    assert_eq!(r1cs.constraints.len(), 2);
    let vals: Vec<String> = r1cs.input_values.iter().map(|v| v.to_decimal()).collect();
    assert_eq!(vals, vec!["1", "4", "7", "4"]);
    let aux: Vec<String> = r1cs.aux_values.iter().map(|v| v.to_decimal()).collect();
    assert_eq!(aux, vec!["3"]);
    // the private argument went to the only auxiliary slot, the public one
    // to input slot 1, the returns to input slots 2 and 3
    assert_eq!(r1cs.constraints[0].b[0].0, Handle::Aux(0));
    assert_eq!(r1cs.constraints[0].b[1].0, Handle::Input(1));
    assert_eq!(r1cs.constraints[0].c[0].0, Handle::Input(2));
    assert_eq!(r1cs.constraints[1].b[0].0, Handle::Input(0));
    assert_eq!(r1cs.constraints[1].b[1].0, Handle::Aux(0));
    assert_eq!(r1cs.constraints[1].c[0].0, Handle::Input(3));
}

#[test]
fn setup_mode_never_reads_values() {
    // key-generation mode: no witness anywhere, allocation still succeeds
    // and no assignment is ever demanded
    let r1cs = two_arg_program(two_arg_statements())
        .synthesize(None)
        .unwrap();
    assert_eq!(r1cs.num_inputs, 4);
    assert_eq!(r1cs.num_aux, 1);
    assert_eq!(r1cs.constraints.len(), 2);
    assert!(r1cs.input_values.is_empty());
    assert!(r1cs.aux_values.is_empty());
}

#[test]
fn missing_assignment() {
    // the second argument's value is absent while proving
    let w = witness(&[
        (FlatVariable::new(42), 3),
        (FlatVariable::public(0), 7),
        (FlatVariable::public(1), 4),
    ]);
    let r = two_arg_program(two_arg_statements()).synthesize(Some(w));
    assert_eq!(r.unwrap_err(), Error::MissingAssignment);
}

#[test]
fn undeclared_wire_is_malformed() {
    let statements = vec![Statement::Constraint(
        QuadComb::from_linear(lc(&[(FlatVariable::new(7), 1)])),
        lc(&[(FlatVariable::public(0), 1)]),
    )];
    let r = two_arg_program(statements).synthesize(None);
    assert_eq!(r.unwrap_err(), Error::MalformedProgram);
}

#[test]
fn flag_count_mismatch_is_malformed() {
    let mut p = two_arg_program(two_arg_statements());
    p.private = vec![true];
    assert_eq!(p.synthesize(None).unwrap_err(), Error::MalformedProgram);
}

#[test]
fn duplicate_argument_is_malformed() {
    let mut p = two_arg_program(vec![]);
    p.main.arguments = vec![FlatVariable::new(42), FlatVariable::new(42)];
    assert_eq!(p.synthesize(None).unwrap_err(), Error::MalformedProgram);
}

#[test]
fn directives_are_skipped() {
    let mut statements = vec![Statement::Directive];
    statements.extend(two_arg_statements());
    statements.push(Statement::Directive);
    let r1cs = two_arg_program(statements).synthesize(None).unwrap();
    // constraint count equals the number of constraint statements alone
    assert_eq!(r1cs.constraints.len(), 2);
}

#[test]
fn public_inputs_order() {
    let c = Computation::with_witness(
        two_arg_program(two_arg_statements()),
        two_arg_witness(),
    );
    let pubs: Vec<String> = c
        .public_inputs_values()
        .iter()
        .map(|v| v.to_decimal())
        .collect();
    // the public argument's value first, then the return values in
    // declaration order
    assert_eq!(pubs, vec!["4", "7", "4"]);
}

#[test]
fn public_inputs_ignore_constraint_order() {
    let mut reordered = two_arg_statements();
    reordered.reverse();
    let c1 = Computation::with_witness(
        two_arg_program(two_arg_statements()),
        two_arg_witness(),
    );
    let c2 = Computation::with_witness(two_arg_program(reordered), two_arg_witness());
    let p1: Vec<String> = c1
        .public_inputs_values()
        .iter()
        .map(|v| v.to_decimal())
        .collect();
    let p2: Vec<String> = c2
        .public_inputs_values()
        .iter()
        .map(|v| v.to_decimal())
        .collect();
    assert_eq!(p1, p2);
    // the slot-value vectors of the two syntheses agree as well
    let r1 = c1.synthesize().unwrap();
    let r2 = c2.synthesize().unwrap();
    assert_eq!(r1.input_values, r2.input_values);
    assert_eq!(r1.aux_values, r2.aux_values);
}

#[test]
fn self_verification_outcomes() {
    assert!(self_verification_outcome(true).is_ok());
    assert_eq!(
        self_verification_outcome(false).unwrap_err(),
        Error::SelfVerificationFailed
    );
}

#[test]
fn vk_text_exact() {
    let vk = VkCoords {
        alpha: G1Coords { x: fe(1), y: fe(2) },
        beta: G2Coords {
            x0: fe(3),
            x1: fe(4),
            y0: fe(5),
            y1: fe(6),
        },
        gamma: G2Coords {
            x0: fe(7),
            x1: fe(8),
            y0: fe(9),
            y1: fe(10),
        },
        delta: G2Coords {
            x0: fe(11),
            x1: fe(12),
            y0: fe(13),
            y1: fe(14),
        },
        ic: vec![
            G1Coords { x: fe(15), y: fe(16) },
            G1Coords { x: fe(17), y: fe(18) },
        ],
    };
    let expected = "vk.alpha = [1, 2]\n\
                    vk.beta = [[3, 4], [5, 6]]\n\
                    vk.gamma = [[7, 8], [9, 10]]\n\
                    vk.delta = [[11, 12], [13, 14]]\n\
                    vk.gammaABC.len() = 2\n\
                    vk.gammaABC[0] = [15, 16]\n\
                    vk.gammaABC[1] = [17, 18]";
    assert_eq!(render_vk(&vk), expected);
}

#[test]
fn proof_text_exact() {
    let pf = ProofCoords {
        a: G1Coords { x: fe(1), y: fe(2) },
        b: G2Coords {
            x0: fe(3),
            x1: fe(4),
            y0: fe(5),
            y1: fe(6),
        },
        c: G1Coords { x: fe(7), y: fe(8) },
    };
    let inputs = vec![fe(42), fe(7)];
    let expected = "{\n    \"proof\": {\n        \"a\": [\"1\", \"2\"],\n        \"b\": [[\"3\", \"4\"], [\"5\", \"6\"]],\n        \"c\": [\"7\", \"8\"]\n    },\n    \"inputs\": [\"42\", \"7\"]\n}";
    assert_eq!(render_proof(&pf, &inputs), expected);
}

#[test]
fn proof_text_no_inputs() {
    let pf = ProofCoords {
        a: G1Coords { x: fe(1), y: fe(2) },
        b: G2Coords {
            x0: fe(3),
            x1: fe(4),
            y0: fe(5),
            y1: fe(6),
        },
        c: G1Coords { x: fe(7), y: fe(8) },
    };
    let text = render_proof(&pf, &vec![]);
    let parsed: serde_json::Value = serde_json::from_str(&text).unwrap();
    assert_eq!(
        parsed.get("inputs").unwrap().as_array().unwrap().len(),
        0
    );
}
