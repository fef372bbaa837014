//! The proof lifecycle's data: a program plus an optional witness.
//!
//! A computation is created per setup or proving attempt.  Key generation
//! needs only the program's structure; proving also needs a witness.  The
//! backend invocations themselves (key generation, proving, verification)
//! happen outside this crate, against the explicit constraint system that
//! `synthesize` produces; the public-input vector the verifier must see is
//! computed here and proven to line up, value by value, with the public
//! input slots of that constraint system.

use vstd::prelude::*;
use crate::field::FieldElement;
use crate::ir::{Error, FlatVariable, Prog, Witness};
use crate::r1cs::{CsConstraint, R1cs};
use crate::synthesis::{args_wf, arg_index, arg_handle, declared, fe_one, priv_count, prog_wf,
    pub_count, pub_arg_vals, ret_vals, spec_aux_values, spec_constraints, spec_input_values,
    spec_public_inputs, spec_var_handle, witness_covers};

verus! {

/// A program together with the witness it will be proven with, or no
/// witness for a setup-only pass.
pub struct Computation {
    pub program: Prog,
    pub witness: Option<Witness>,
}

impl Computation {
    /// A proving-capable computation.
    pub fn with_witness(program: Prog, witness: Witness) -> (r: Computation)
        ensures
            r.program == program,
            r.witness == Some(witness),
    {
        Computation { program, witness: Some(witness) }
    }

    /// A setup-only computation: no witness, structure alone.
    pub fn without_witness(program: Prog) -> (r: Computation)
        ensures
            r.program == program,
            r.witness is None,
    {
        Computation { program, witness: None }
    }

    /// The circuit as the proving backend must see it: the program
    /// compiled against this computation's witness mode.
    pub fn synthesize(self) -> (r: Result<R1cs, Error>)
        requires
            self.witness matches Some(w) ==> w.wf(),
            self.program.main.arguments@.len() + self.program.main.returns@.len() + 1
                <= usize::MAX,
        ensures
            !prog_wf(self.program) ==> r == Err::<R1cs, Error>(Error::MalformedProgram),
            prog_wf(self.program) && self.witness is None ==> r is Ok,
            self.witness matches Some(w) ==> (prog_wf(self.program) ==> ((r is Ok
                <==> witness_covers(self.program, w@)) && (!witness_covers(self.program, w@)
                ==> r == Err::<R1cs, Error>(Error::MissingAssignment)))),
            r matches Ok(cs) ==> {
                &&& prog_wf(self.program)
                &&& cs.num_inputs == 1 + pub_count(
                    self.program.private@,
                    self.program.private@.len() as int,
                ) + self.program.main.returns@.len()
                &&& cs.num_aux == priv_count(
                    self.program.private@,
                    self.program.private@.len() as int,
                )
                &&& cs.constraints@.map_values(|c: CsConstraint| c@) == spec_constraints(
                    self.program,
                    self.program.main.statements@,
                )
                &&& cs.constraints@.len() == crate::synthesis::constraint_count(
                    self.program.main.statements@,
                )
                &&& self.witness is None ==> cs.input_values@.len() == 0
                    && cs.aux_values@.len() == 0
                &&& self.witness matches Some(w) ==> cs.input_values@ == spec_input_values(
                    self.program,
                    w@,
                ) && cs.aux_values@ == spec_aux_values(self.program, w@)
            },
    {
        self.program.synthesize(self.witness)
    }

    /// The public-input vector the verifier checks a proof against: the
    /// values of the public arguments in declaration order, then the values
    /// of the declared return wires in declaration order, read from a
    /// non-destructive view of the witness.
    #[verifier::loop_isolation(false)]
    pub fn public_inputs_values(&self) -> (r: Vec<FieldElement>)
        requires
            self.witness matches Some(w) && w.wf(),
            self.program.private@.len() == self.program.main.arguments@.len(),
            forall|i: int|
                0 <= i < self.program.main.arguments@.len() && !self.program.private@[i]
                    ==> self.witness->Some_0@.contains_key(#[trigger] self.program.main.arguments@[i]),
            forall|i: int|
                0 <= i < self.program.main.returns@.len()
                    ==> self.witness->Some_0@.contains_key(#[trigger] self.program.main.returns@[i]),
        ensures
            r@ == spec_public_inputs(self.program, self.witness->Some_0@),
    {
        let w: &Witness = self.witness.as_ref().unwrap();
        let ghost wm: Map<FlatVariable, FieldElement> = w@;
        let ghost args: Seq<FlatVariable> = self.program.main.arguments@;
        let ghost flags: Seq<bool> = self.program.private@;
        let ghost rets: Seq<FlatVariable> = self.program.main.returns@;
        let mut out: Vec<FieldElement> = Vec::new();
        let nargs = self.program.main.arguments.len();
        let mut i: usize = 0;
        while i < nargs
            invariant
                i <= nargs,
                out@ == pub_arg_vals(args, flags, wm, i as int),
            decreases nargs - i,
        {
            if !self.program.private[i] {
                let var = self.program.main.arguments[i];
                match w.get(var) {
                    Some(v) => {
                        out.push(v);
                    },
                    None => {
                        proof {
                            assert(false);
                        }
                    },
                }
            }
            i = i + 1;
        }
        let nrets = self.program.main.returns.len();
        let mut t: usize = 0;
        while t < nrets
            invariant
                t <= nrets,
                out@ == pub_arg_vals(args, flags, wm, args.len() as int) + ret_vals(
                    rets,
                    wm,
                    t as int,
                ),
            decreases nrets - t,
        {
            let var = self.program.main.returns[t];
            match w.get(var) {
                Some(v) => {
                    out.push(v);
                },
                None => {
                    proof {
                        assert(false);
                    }
                },
            }
            t = t + 1;
        }
        out
    }
}

/// The self-verification decision of the proving flow: a freshly produced
/// proof that its own verifier rejects is surfaced as the recoverable
/// `SelfVerificationFailed`, never as an abort.
pub fn self_verification_outcome(accepted: bool) -> (r: Result<(), Error>)
    ensures
        accepted <==> r is Ok,
        !accepted ==> r == Err::<(), Error>(Error::SelfVerificationFailed),
{
    if accepted {
        Ok(())
    } else {
        Err(Error::SelfVerificationFailed)
    }
}

/// The public-input vector is determined by the declared arguments, their
/// privacy flags, the declared returns and the witness alone: programs that
/// differ only in their statements — in particular, in the order of their
/// constraints — share the public-input vector, the slot-value vector, and
/// the binding of every declared wire to its backend handle.
pub proof fn lemma_public_inputs_statement_independent(
    p1: Prog,
    p2: Prog,
    w: Map<FlatVariable, FieldElement>,
)
    requires
        p1.main.arguments@ == p2.main.arguments@,
        p1.private@ == p2.private@,
        p1.main.returns@ == p2.main.returns@,
        args_wf(p1.main.arguments@),
        crate::synthesis::rets_wf(p1.main.returns@),
    ensures
        spec_public_inputs(p1, w) == spec_public_inputs(p2, w),
        spec_input_values(p1, w) == spec_input_values(p2, w),
        forall|v: FlatVariable|
            declared(p1, v) ==> #[trigger] spec_var_handle(p1, v) == spec_var_handle(p2, v),
{
    assert forall|v: FlatVariable| declared(p1, v) implies #[trigger] spec_var_handle(p1, v)
        == spec_var_handle(p2, v) by {
        match v {
            FlatVariable::One => {},
            FlatVariable::Public(_) => {},
            FlatVariable::Internal(_) => {
                if p1.main.returns@.contains(v) {
                    let j = choose|j: int|
                        0 <= j < p1.main.returns@.len() && p1.main.returns@[j] == v;
                    assert(p1.main.returns@[j] == FlatVariable::Public(j as usize));
                    assert(false);
                }
                assert(p1.main.arguments@.contains(v));
                let j1 = arg_index(p1, v);
                let j2 = arg_index(p2, v);
                assert(0 <= j1 < p1.main.arguments@.len() && p1.main.arguments@[j1] == v);
                assert(0 <= j2 < p2.main.arguments@.len() && p2.main.arguments@[j2] == v);
                assert(j1 == j2);
            },
        }
    }
}

/// The slot-value vector of a proving pass is the constant one followed by
/// exactly the public-input vector: the order the verifier is handed and
/// the order the backend allocated agree.
pub proof fn lemma_public_input_slot_agreement(p: Prog, w: Map<FlatVariable, FieldElement>)
    ensures
        spec_input_values(p, w) == seq![fe_one()] + spec_public_inputs(p, w),
{
}

/// Slot positions grow with declaration position, separately for public
/// and for private arguments.
proof fn lemma_count_strict(flags: Seq<bool>, i: int, j: int)
    requires
        0 <= i < j <= flags.len(),
    ensures
        pub_count(flags, i) <= pub_count(flags, j),
        priv_count(flags, i) <= priv_count(flags, j),
        !flags[i] ==> pub_count(flags, i) < pub_count(flags, j),
        flags[i] ==> priv_count(flags, i) < priv_count(flags, j),
    decreases j,
{
    if i < j - 1 {
        lemma_count_strict(flags, i, j - 1);
    }
}

/// Each declared wire resolves to its own backend handle: across one
/// synthesis pass no two distinct declared wires share a slot, however
/// often each is referenced.
pub proof fn lemma_handles_unique(p: Prog, v1: FlatVariable, v2: FlatVariable)
    requires
        prog_wf(p),
        p.main.arguments@.len() + p.main.returns@.len() + 1 <= usize::MAX,
        declared(p, v1),
        declared(p, v2),
        v1 != v2,
    ensures
        spec_var_handle(p, v1) != spec_var_handle(p, v2),
{
    let flags = p.private@;
    let n = flags.len() as int;
    crate::synthesis::lemma_count_bounds(flags, n);
    if v1 is Internal && v2 is Internal {
        lemma_declared_internal_is_arg(p, v1);
        lemma_declared_internal_is_arg(p, v2);
        let i1 = arg_index(p, v1);
        let i2 = arg_index(p, v2);
        assert(i1 != i2);
        crate::synthesis::lemma_count_bounds(flags, i1);
        crate::synthesis::lemma_count_bounds(flags, i2);
        if i1 < i2 {
            lemma_count_strict(flags, i1, i2);
        } else {
            lemma_count_strict(flags, i2, i1);
        }
    } else if v1 is Internal || v2 is Internal {
        let vi = if v1 is Internal {
            v1
        } else {
            v2
        };
        let vo = if v1 is Internal {
            v2
        } else {
            v1
        };
        lemma_declared_internal_is_arg(p, vi);
        let i = arg_index(p, vi);
        crate::synthesis::lemma_count_bounds(flags, i);
        if !flags[i] {
            lemma_count_strict(flags, i, n);
        }
        match vo {
            FlatVariable::One => {},
            FlatVariable::Public(k) => {
                lemma_declared_public_bound(p, k);
            },
            FlatVariable::Internal(_) => {},
        }
    } else {
        match v1 {
            FlatVariable::Public(k) => {
                lemma_declared_public_bound(p, k);
            },
            _ => {},
        }
        match v2 {
            FlatVariable::Public(k) => {
                lemma_declared_public_bound(p, k);
            },
            _ => {},
        }
    }
}

/// A declared internal wire is one of the declared arguments, at the
/// position `arg_index` recovers.
proof fn lemma_declared_internal_is_arg(p: Prog, v: FlatVariable)
    requires
        prog_wf(p),
        declared(p, v),
        v is Internal,
    ensures
        0 <= arg_index(p, v) < p.main.arguments@.len(),
        p.main.arguments@[arg_index(p, v)] == v,
{
    if p.main.returns@.contains(v) {
        let j = choose|j: int| 0 <= j < p.main.returns@.len() && p.main.returns@[j] == v;
        assert(p.main.returns@[j] == FlatVariable::Public(j as usize));
        assert(false);
    }
    assert(p.main.arguments@.contains(v));
    assert(exists|i: int|
        0 <= i < p.main.arguments@.len() && p.main.arguments@[i] == v);
}

/// A declared public wire's index lies below the number of declared
/// returns.
proof fn lemma_declared_public_bound(p: Prog, k: usize)
    requires
        prog_wf(p),
        declared(p, FlatVariable::Public(k)),
    ensures
        (k as int) < p.main.returns@.len(),
{
    let v = FlatVariable::Public(k);
    if p.main.arguments@.contains(v) {
        let j = choose|j: int| 0 <= j < p.main.arguments@.len() && p.main.arguments@[j] == v;
        assert(p.main.arguments@[j] is Internal);
        assert(false);
    }
    assert(p.main.returns@.contains(v));
    let j = choose|j: int| 0 <= j < p.main.returns@.len() && p.main.returns@[j] == v;
    assert(p.main.returns@[j] == FlatVariable::Public(j as usize));
}

/// Raw argument indices carry no slot-ordering meaning: two programs whose
/// declarations agree positionally — the same privacy flags and the same
/// number of returns — bind the argument at each declaration position, and
/// each return wire, to the same backend handle, whatever raw indices
/// their argument wires carry.
pub proof fn lemma_handles_positional(p1: Prog, p2: Prog)
    requires
        p1.private@ == p2.private@,
        p1.main.arguments@.len() == p2.main.arguments@.len(),
        args_wf(p1.main.arguments@),
        args_wf(p2.main.arguments@),
    ensures
        forall|i: int|
            0 <= i < p1.main.arguments@.len() ==> spec_var_handle(
                p1,
                #[trigger] p1.main.arguments@[i],
            ) == spec_var_handle(p2, p2.main.arguments@[i]),
        forall|k: usize|
            #[trigger] spec_var_handle(p1, FlatVariable::Public(k)) == spec_var_handle(
                p2,
                FlatVariable::Public(k),
            ),
{
    assert forall|i: int| 0 <= i < p1.main.arguments@.len() implies spec_var_handle(
        p1,
        #[trigger] p1.main.arguments@[i],
    ) == spec_var_handle(p2, p2.main.arguments@[i]) by {
        lemma_arg_index(p1, i);
        lemma_arg_index(p2, i);
    }
}

/// Under unique argument declarations, the declaration position of an
/// argument wire is recovered exactly.
proof fn lemma_arg_index(p: Prog, i: int)
    requires
        args_wf(p.main.arguments@),
        0 <= i < p.main.arguments@.len(),
    ensures
        arg_index(p, p.main.arguments@[i]) == i,
        p.main.arguments@[i] is Internal,
{
    let v = p.main.arguments@[i];
    assert(0 <= i < p.main.arguments@.len() && p.main.arguments@[i] == v);
    let j = arg_index(p, v);
    assert(0 <= j < p.main.arguments@.len() && p.main.arguments@[j] == v);
}

} // verus!
