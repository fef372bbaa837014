//! The backend-facing constraint-system data the bridge produces.
//!
//! A synthesis pass turns a program into this explicit rank-1 constraint
//! system: slot counts, constraints over backend handles, and, when proving,
//! the value assigned to every slot.  The proving backend consumes it as its
//! circuit description.

use vstd::prelude::*;
use crate::assoc::{lemma_map_of_contains, lemma_map_of_index, lemma_map_of_push,
    lemma_unique_push, map_of, unique_keys};
use crate::field::FieldElement;
use crate::ir::FlatVariable;

verus! {

/// A backend constraint-system handle: a public input slot or a private
/// auxiliary slot.  Input slot `0` is the backend's built-in constant one.
#[derive(Clone, Copy, PartialEq, Eq, Structural, Debug)]
pub enum Handle {
    Input(usize),
    Aux(usize),
}

/// One rank-1 constraint `a * b = c` over backend handles.
#[derive(Clone, Debug)]
pub struct CsConstraint {
    pub a: Vec<(Handle, FieldElement)>,
    pub b: Vec<(Handle, FieldElement)>,
    pub c: Vec<(Handle, FieldElement)>,
}

impl View for CsConstraint {
    type V = (Seq<(Handle, FieldElement)>, Seq<(Handle, FieldElement)>, Seq<(
        Handle,
        FieldElement,
    )>);

    open spec fn view(&self) -> Self::V {
        (self.a@, self.b@, self.c@)
    }
}

/// An explicit rank-1 constraint system.
///
/// `num_inputs` counts the public input slots including the constant-one
/// slot `0`; `num_aux` counts the private auxiliary slots.  When the pass
/// ran with a witness, `input_values` and `aux_values` hold one value per
/// slot, in slot order; in setup mode both stay empty, since allocation
/// then uses structural information alone.
#[derive(Clone, Debug)]
pub struct R1cs {
    pub num_inputs: usize,
    pub num_aux: usize,
    pub constraints: Vec<CsConstraint>,
    pub input_values: Vec<FieldElement>,
    pub aux_values: Vec<FieldElement>,
}

/// The variable map: the single allocation point that binds each IR wire to
/// exactly one backend handle over a synthesis pass.
pub struct SymbolMap(pub Vec<(FlatVariable, Handle)>);

impl SymbolMap {
    /// No wire is bound twice.
    pub open spec fn wf(self) -> bool {
        unique_keys(self.0@)
    }

    /// The binding as a map.
    pub open spec fn view(self) -> Map<FlatVariable, Handle> {
        map_of(self.0@)
    }

    pub fn new() -> (r: SymbolMap)
        ensures
            r.wf(),
            r@ == Map::<FlatVariable, Handle>::empty(),
    {
        SymbolMap(Vec::new())
    }

    /// Bind a wire to a handle; the wire must not be bound yet.
    pub fn insert(&mut self, var: FlatVariable, h: Handle)
        requires
            old(self).wf(),
            !old(self)@.contains_key(var),
        ensures
            final(self).wf(),
            final(self)@ == old(self)@.insert(var, h),
    {
        proof {
            lemma_map_of_contains(self.0@, var);
            lemma_unique_push(self.0@, var, h);
            lemma_map_of_push(self.0@, var, h);
        }
        self.0.push((var, h));
    }

    /// Look a wire up.
    pub fn get(&self, var: FlatVariable) -> (r: Option<Handle>)
        requires
            self.wf(),
        ensures
            r == (if self@.contains_key(var) {
                Some(self@[var])
            } else {
                None::<Handle>
            }),
    {
        proof {
            lemma_map_of_contains(self.0@, var);
        }
        let n = self.0.len();
        let mut i: usize = 0;
        while i < n
            invariant
                self.wf(),
                n == self.0@.len(),
                i <= n,
                forall|j: int| 0 <= j < i ==> (#[trigger] self.0@[j]).0 != var,
            decreases n - i,
        {
            if self.0[i].0 == var {
                proof {
                    lemma_map_of_index(self.0@, i as int);
                }
                return Some(self.0[i].1);
            }
            i = i + 1;
        }
        None
    }
}

} // verus!
