//! The flattened intermediate representation the bridge consumes.
//!
//! Programs arrive from the front-end compiler already flattened: a `main`
//! function with declared argument and return wires and a list of rank-1
//! constraint statements.  A witness, when present, assigns a field value to
//! each wire; values are consumed the first time a wire is allocated.

use vstd::prelude::*;
use crate::assoc::{lemma_map_of_contains, lemma_map_of_index, lemma_map_of_push,
    lemma_map_of_remove, lemma_unique_push, lemma_unique_remove, map_of, unique_keys};
use crate::field::FieldElement;

verus! {

/// A wire of the intermediate representation.
///
/// The category is intrinsic to the variable: the distinguished constant-one
/// wire, a publicly visible return wire, or an internal wire.  Identity is
/// category plus index; the raw index value carries no ordering meaning for
/// the backend, only declaration positions do.
#[derive(Clone, Copy, PartialEq, Eq, Structural, Debug)]
pub enum FlatVariable {
    /// The distinguished constant-one wire.
    One,
    /// A declared return-value wire, publicly visible, with its declaration index.
    Public(usize),
    /// An internal wire with its raw index.
    Internal(usize),
}

impl FlatVariable {
    /// An internal wire, as the front-end compiler numbers them.
    pub fn new(idx: usize) -> (r: FlatVariable)
        ensures
            r == FlatVariable::Internal(idx),
    {
        FlatVariable::Internal(idx)
    }

    /// A public return wire.
    pub fn public(idx: usize) -> (r: FlatVariable)
        ensures
            r == FlatVariable::Public(idx),
    {
        FlatVariable::Public(idx)
    }

    /// The constant-one wire.
    pub fn one() -> (r: FlatVariable)
        ensures
            r == FlatVariable::One,
    {
        FlatVariable::One
    }

    /// Whether this wire is a publicly visible return wire.
    pub open spec fn is_output(self) -> bool {
        self is Public
    }
}

/// A sparse linear combination: ordered terms of wire and coefficient, each
/// wire appearing at most once.
#[derive(Clone, Debug)]
pub struct LinComb(pub Vec<(FlatVariable, FieldElement)>);

impl LinComb {
    /// Each wire appears at most once among the terms.
    pub open spec fn wf(self) -> bool {
        unique_keys(self.0@)
    }

    /// The wires the combination mentions.
    pub open spec fn mentions(self, v: FlatVariable) -> bool {
        exists|i: int| 0 <= i < self.0@.len() && (#[trigger] self.0@[i]).0 == v
    }

    /// The combination `1 * v`.
    pub fn from_variable(v: FlatVariable) -> (r: LinComb)
        ensures
            r.0@.len() == 1,
            r.0@[0] == (v, FieldElement { d0: 1, d1: 0, d2: 0, d3: 0 }),
    {
        LinComb(vec![(v, FieldElement::one())])
    }

    /// The combination `1 * one`: the constant one.
    pub fn one() -> (r: LinComb)
        ensures
            r.0@.len() == 1,
            r.0@[0] == (FlatVariable::One, FieldElement { d0: 1, d1: 0, d2: 0, d3: 0 }),
    {
        LinComb::from_variable(FlatVariable::one())
    }
}

/// The left and right factors of a rank-1 constraint.
#[derive(Clone, Debug)]
pub struct QuadComb {
    pub left: LinComb,
    pub right: LinComb,
}

impl QuadComb {
    /// Lift a linear combination to the product form `1 * lc`.
    pub fn from_linear(lc: LinComb) -> (r: QuadComb)
        ensures
            r.left.0@.len() == 1,
            r.left.0@[0] == (FlatVariable::One, FieldElement { d0: 1, d1: 0, d2: 0, d3: 0 }),
            r.right == lc,
    {
        QuadComb { left: LinComb::one(), right: lc }
    }
}

/// One statement of a flattened function.  Only constraints shape the
/// circuit; witness-computation hints are no-ops for the bridge.
#[derive(Clone, Debug)]
pub enum Statement {
    /// Enforce `quad.left * quad.right = lin`.
    Constraint(QuadComb, LinComb),
    /// A witness-computation hint; skipped during circuit construction.
    Directive,
}

/// A flattened function: declared arguments, declared return wires, and the
/// statements over them.
#[derive(Clone, Debug)]
pub struct Function {
    pub id: String,
    pub arguments: Vec<FlatVariable>,
    pub returns: Vec<FlatVariable>,
    pub statements: Vec<Statement>,
}

/// A flattened program: its `main` function and, positionally paired with
/// `main.arguments`, the flag that marks each argument private.
#[derive(Clone, Debug)]
pub struct Prog {
    pub main: Function,
    pub private: Vec<bool>,
}

/// How the bridge fails.
#[derive(Clone, Copy, PartialEq, Eq, Structural, Debug)]
pub enum Error {
    /// A wire was allocated while proving but the witness holds no value for it.
    MissingAssignment,
    /// A freshly produced proof failed verification against its own public inputs.
    SelfVerificationFailed,
    /// A statement references a wire outside the declared signature, or the
    /// declaration lists themselves are ill-formed.
    MalformedProgram,
}

/// A witness: an assignment of a field value to each wire, consumed
/// destructively as wires are allocated.
#[derive(Clone, Debug)]
pub struct Witness(pub Vec<(FlatVariable, FieldElement)>);

impl Witness {
    /// No wire is assigned twice.
    pub open spec fn wf(self) -> bool {
        unique_keys(self.0@)
    }

    /// The assignment as a map.
    pub open spec fn view(self) -> Map<FlatVariable, FieldElement> {
        map_of(self.0@)
    }

    /// An empty assignment.
    pub fn empty() -> (r: Witness)
        ensures
            r.wf(),
            r@ == Map::<FlatVariable, FieldElement>::empty(),
    {
        Witness(Vec::new())
    }

    /// Assign `val` to `var`; replaces nothing, the wire must be fresh.
    pub fn insert(&mut self, var: FlatVariable, val: FieldElement)
        requires
            old(self).wf(),
            !old(self)@.contains_key(var),
        ensures
            final(self).wf(),
            final(self)@ == old(self)@.insert(var, val),
    {
        proof {
            lemma_map_of_contains(self.0@, var);
            lemma_unique_push(self.0@, var, val);
            lemma_map_of_push(self.0@, var, val);
        }
        self.0.push((var, val));
    }

    /// Read `var`'s value without consuming it.
    pub fn get(&self, var: FlatVariable) -> (r: Option<FieldElement>)
        requires
            self.wf(),
        ensures
            r == (if self@.contains_key(var) {
                Some(self@[var])
            } else {
                None::<FieldElement>
            }),
    {
        proof {
            lemma_map_of_contains(self.0@, var);
        }
        let n = self.0.len();
        let mut i: usize = 0;
        while i < n
            invariant
                self.wf(),
                n == self.0@.len(),
                i <= n,
                forall|j: int| 0 <= j < i ==> (#[trigger] self.0@[j]).0 != var,
            decreases n - i,
        {
            if self.0[i].0 == var {
                proof {
                    lemma_map_of_index(self.0@, i as int);
                }
                return Some(self.0[i].1);
            }
            i = i + 1;
        }
        None
    }

    /// Consume `var`'s value: remove it from the assignment and return it.
    pub fn remove(&mut self, var: FlatVariable) -> (r: Option<FieldElement>)
        requires
            old(self).wf(),
        ensures
            final(self).wf(),
            r == (if old(self)@.contains_key(var) {
                Some(old(self)@[var])
            } else {
                None::<FieldElement>
            }),
            final(self)@ == old(self)@.remove(var),
    {
        proof {
            lemma_map_of_contains(self.0@, var);
        }
        let n = self.0.len();
        let mut i: usize = 0;
        while i < n
            invariant
                self.wf(),
                self.0@ == old(self).0@,
                n == self.0@.len(),
                i <= n,
                forall|j: int| 0 <= j < i ==> (#[trigger] self.0@[j]).0 != var,
            decreases n - i,
        {
            if self.0[i].0 == var {
                proof {
                    lemma_map_of_index(self.0@, i as int);
                    lemma_map_of_remove(self.0@, i as int);
                    lemma_unique_remove(self.0@, i as int);
                }
                let pair = self.0.remove(i);
                return Some(pair.1);
            }
            i = i + 1;
        }
        proof {
            assert(self@ =~= self@.remove(var));
        }
        None
    }
}

} // verus!
