//! Circuit compilation: from a flattened program to an explicit rank-1
//! constraint system.
//!
//! The pass allocates backend slots in a fixed discipline: the constant-one
//! input slot first, then the declared arguments in declaration order (a
//! public input slot or a private auxiliary slot, as the paired privacy flag
//! says), then the declared return wires in declaration order (always public
//! input slots).  Only then are the constraint statements translated, one
//! backend constraint per constraint statement; by that point every declared
//! wire is already bound, so the public-input slot order can never depend on
//! the order of the constraints.  When a witness is present, each wire's
//! value is consumed from it exactly once, at allocation; without a witness,
//! allocation succeeds on structural information alone.

use vstd::prelude::*;
use crate::field::FieldElement;
use crate::ir::{Error, FlatVariable, LinComb, Prog, Statement, Witness};
use crate::r1cs::{CsConstraint, Handle, R1cs, SymbolMap};

verus! {

/// How many of the first `i` flags mark a public (non-private) argument.
pub open spec fn pub_count(flags: Seq<bool>, i: int) -> int
    decreases i,
{
    if i <= 0 {
        0
    } else {
        pub_count(flags, i - 1) + (if flags[i - 1] {
            0int
        } else {
            1int
        })
    }
}

/// How many of the first `i` flags mark a private argument.
pub open spec fn priv_count(flags: Seq<bool>, i: int) -> int
    decreases i,
{
    if i <= 0 {
        0
    } else {
        priv_count(flags, i - 1) + (if flags[i - 1] {
            1int
        } else {
            0int
        })
    }
}

pub proof fn lemma_count_bounds(flags: Seq<bool>, i: int)
    requires
        0 <= i,
    ensures
        0 <= pub_count(flags, i) <= i,
        0 <= priv_count(flags, i) <= i,
        pub_count(flags, i) + priv_count(flags, i) == i,
    decreases i,
{
    if i > 0 {
        lemma_count_bounds(flags, i - 1);
    }
}

/// The handle the argument at declaration position `i` is bound to.
pub open spec fn arg_handle(flags: Seq<bool>, i: int) -> Handle {
    if flags[i] {
        Handle::Aux(priv_count(flags, i) as usize)
    } else {
        Handle::Input((1 + pub_count(flags, i)) as usize)
    }
}

/// The declaration position of an argument wire.
pub open spec fn arg_index(p: Prog, v: FlatVariable) -> int {
    choose|i: int| 0 <= i < p.main.arguments@.len() && p.main.arguments@[i] == v
}

/// The handle a declared wire is bound to: the constant-one input slot,
/// a return wire's input slot after all public arguments, or the
/// argument's slot at its declaration position.
pub open spec fn spec_var_handle(p: Prog, v: FlatVariable) -> Handle {
    match v {
        FlatVariable::One => Handle::Input(0),
        FlatVariable::Public(k) => Handle::Input(
            (1 + pub_count(p.private@, p.private@.len() as int) + k) as usize,
        ),
        FlatVariable::Internal(_) => arg_handle(p.private@, arg_index(p, v)),
    }
}

/// A linear combination translated through the wire-to-handle binding.
pub open spec fn map_lc(p: Prog, l: LinComb) -> Seq<(Handle, FieldElement)> {
    l.0@.map_values(|t: (FlatVariable, FieldElement)| (spec_var_handle(p, t.0), t.1))
}

/// The backend constraints for a statement sequence: one `a * b = c`
/// triple per constraint statement, in statement order.
pub open spec fn spec_constraints(p: Prog, stmts: Seq<Statement>) -> Seq<
    (Seq<(Handle, FieldElement)>, Seq<(Handle, FieldElement)>, Seq<(Handle, FieldElement)>),
>
    decreases stmts.len(),
{
    if stmts.len() == 0 {
        Seq::empty()
    } else {
        spec_constraints(p, stmts.drop_last()) + (match stmts.last() {
            Statement::Constraint(q, lin) => seq![
                (map_lc(p, q.left), map_lc(p, q.right), map_lc(p, lin)),
            ],
            Statement::Directive => Seq::empty(),
        })
    }
}

/// How many of the statements are constraint statements.
pub open spec fn constraint_count(stmts: Seq<Statement>) -> int
    decreases stmts.len(),
{
    if stmts.len() == 0 {
        0
    } else {
        constraint_count(stmts.drop_last()) + (match stmts.last() {
            Statement::Constraint(_, _) => 1int,
            Statement::Directive => 0int,
        })
    }
}

/// One backend constraint per constraint statement: the compiled
/// constraint list is exactly as long as the number of constraint
/// statements, whatever mixture of statements the program holds and
/// however often each wire is referenced.
pub proof fn lemma_constraint_count(p: Prog, stmts: Seq<Statement>)
    ensures
        spec_constraints(p, stmts).len() == constraint_count(stmts),
    decreases stmts.len(),
{
    if stmts.len() > 0 {
        lemma_constraint_count(p, stmts.drop_last());
    }
}

/// The field value one.
pub open spec fn fe_one() -> FieldElement {
    FieldElement { d0: 1, d1: 0, d2: 0, d3: 0 }
}

/// The witness values of the public arguments among the first `i`,
/// in declaration order.
pub open spec fn pub_arg_vals(
    args: Seq<FlatVariable>,
    flags: Seq<bool>,
    w: Map<FlatVariable, FieldElement>,
    i: int,
) -> Seq<FieldElement>
    decreases i,
{
    if i <= 0 {
        Seq::empty()
    } else {
        pub_arg_vals(args, flags, w, i - 1) + (if flags[i - 1] {
            Seq::empty()
        } else {
            seq![w[args[i - 1]]]
        })
    }
}

/// The witness values of the private arguments among the first `i`,
/// in declaration order.
pub open spec fn priv_arg_vals(
    args: Seq<FlatVariable>,
    flags: Seq<bool>,
    w: Map<FlatVariable, FieldElement>,
    i: int,
) -> Seq<FieldElement>
    decreases i,
{
    if i <= 0 {
        Seq::empty()
    } else {
        priv_arg_vals(args, flags, w, i - 1) + (if flags[i - 1] {
            seq![w[args[i - 1]]]
        } else {
            Seq::empty()
        })
    }
}

/// The witness values of the first `i` return wires, in declaration order.
pub open spec fn ret_vals(
    rets: Seq<FlatVariable>,
    w: Map<FlatVariable, FieldElement>,
    i: int,
) -> Seq<FieldElement>
    decreases i,
{
    if i <= 0 {
        Seq::empty()
    } else {
        ret_vals(rets, w, i - 1).push(w[rets[i - 1]])
    }
}

/// The public-input vector of a proving pass: the values of the public
/// arguments in declaration order, then the values of the declared return
/// wires in declaration order.
pub open spec fn spec_public_inputs(p: Prog, w: Map<FlatVariable, FieldElement>) -> Seq<
    FieldElement,
> {
    pub_arg_vals(p.main.arguments@, p.private@, w, p.main.arguments@.len() as int) + ret_vals(
        p.main.returns@,
        w,
        p.main.returns@.len() as int,
    )
}

/// The values of all public input slots, in slot order: the constant one,
/// then exactly the public-input vector.
pub open spec fn spec_input_values(p: Prog, w: Map<FlatVariable, FieldElement>) -> Seq<
    FieldElement,
> {
    seq![fe_one()] + spec_public_inputs(p, w)
}

/// The values of all auxiliary slots, in slot order.
pub open spec fn spec_aux_values(p: Prog, w: Map<FlatVariable, FieldElement>) -> Seq<
    FieldElement,
> {
    priv_arg_vals(p.main.arguments@, p.private@, w, p.main.arguments@.len() as int)
}

/// The argument wires are internal wires, no wire declared twice.
pub open spec fn args_wf(args: Seq<FlatVariable>) -> bool {
    (forall|i: int| 0 <= i < args.len() ==> (#[trigger] args[i]) is Internal) && (forall|
        i: int,
        j: int,
    |
        #![trigger args[i], args[j]]
        0 <= i < j < args.len() ==> args[i] != args[j])
}

/// The return wires are the public wires, numbered from zero in order.
pub open spec fn rets_wf(rets: Seq<FlatVariable>) -> bool {
    forall|i: int| 0 <= i < rets.len() ==> #[trigger] rets[i] == FlatVariable::Public(i as usize)
}

/// The wire is part of the declared signature.
pub open spec fn declared(p: Prog, v: FlatVariable) -> bool {
    v == FlatVariable::One || p.main.arguments@.contains(v) || p.main.returns@.contains(v)
}

/// Each wire at most once, every wire declared.
pub open spec fn lc_ok(p: Prog, l: LinComb) -> bool {
    l.wf() && forall|k: int| 0 <= k < l.0@.len() ==> declared(p, (#[trigger] l.0@[k]).0)
}

/// A statement only references declared wires, through well-formed
/// combinations.
pub open spec fn stmt_ok(p: Prog, st: Statement) -> bool {
    match st {
        Statement::Constraint(q, lin) => lc_ok(p, q.left) && lc_ok(p, q.right) && lc_ok(p, lin),
        Statement::Directive => true,
    }
}

pub open spec fn stmts_wf(p: Prog) -> bool {
    forall|j: int| 0 <= j < p.main.statements@.len() ==> stmt_ok(p, #[trigger] p.main.statements@[j])
}

/// A program the bridge accepts: privacy flags paired positionally with the
/// arguments, well-formed declarations, and statements confined to the
/// declared signature.  Anything else is rejected as `MalformedProgram`
/// before any backend allocation.
pub open spec fn prog_wf(p: Prog) -> bool {
    p.private@.len() == p.main.arguments@.len() && args_wf(p.main.arguments@) && rets_wf(
        p.main.returns@,
    ) && stmts_wf(p)
}

/// The witness assigns a value to every declared argument and return wire.
pub open spec fn witness_covers(p: Prog, w: Map<FlatVariable, FieldElement>) -> bool {
    (forall|i: int|
        0 <= i < p.main.arguments@.len() ==> w.contains_key(#[trigger] p.main.arguments@[i]))
        && (forall|i: int|
        0 <= i < p.main.returns@.len() ==> w.contains_key(#[trigger] p.main.returns@[i]))
}

#[verifier::loop_isolation(false)]
fn check_args(args: &Vec<FlatVariable>) -> (b: bool)
    ensures
        b == args_wf(args@),
{
    let n = args.len();
    let mut i: usize = 0;
    while i < n
        invariant
            i <= n,
            forall|a: int| 0 <= a < i ==> (#[trigger] args@[a]) is Internal,
            forall|a: int, b2: int|
                #![trigger args@[a], args@[b2]]
                0 <= a < b2 < i ==> args@[a] != args@[b2],
        decreases n - i,
    {
        match args[i] {
            FlatVariable::Internal(_) => {},
            _ => {
                return false;
            },
        }
        let mut j: usize = 0;
        while j < i
            invariant
                j <= i,
                forall|a: int| 0 <= a < j ==> args@[a] != args@[i as int],
            decreases i - j,
        {
            if args[j] == args[i] {
                return false;
            }
            j = j + 1;
        }
        i = i + 1;
    }
    true
}

#[verifier::loop_isolation(false)]
fn declared_exec(p: &Prog, v: FlatVariable) -> (b: bool)
    ensures
        b == declared(*p, v),
{
    match v {
        FlatVariable::One => {
            return true;
        },
        _ => {},
    }
    let na = p.main.arguments.len();
    let mut i: usize = 0;
    while i < na
        invariant
            i <= na,
            forall|a: int| 0 <= a < i ==> p.main.arguments@[a] != v,
        decreases na - i,
    {
        if p.main.arguments[i] == v {
            proof {
                assert(p.main.arguments@.contains(v));
            }
            return true;
        }
        i = i + 1;
    }
    let nr = p.main.returns.len();
    let mut j: usize = 0;
    while j < nr
        invariant
            j <= nr,
            forall|a: int| 0 <= a < j ==> p.main.returns@[a] != v,
        decreases nr - j,
    {
        if p.main.returns[j] == v {
            proof {
                assert(p.main.returns@.contains(v));
            }
            return true;
        }
        j = j + 1;
    }
    proof {
        assert(!p.main.arguments@.contains(v));
        assert(!p.main.returns@.contains(v));
    }
    false
}

#[verifier::loop_isolation(false)]
fn check_lc(p: &Prog, l: &LinComb) -> (b: bool)
    ensures
        b == lc_ok(*p, *l),
{
    let n = l.0.len();
    let mut i: usize = 0;
    while i < n
        invariant
            i <= n,
            forall|a: int| 0 <= a < i ==> declared(*p, (#[trigger] l.0@[a]).0),
            forall|a: int, b2: int|
                #![trigger l.0@[a], l.0@[b2]]
                0 <= a < b2 < i ==> (l.0@[a]).0 != (l.0@[b2]).0,
        decreases n - i,
    {
        if !declared_exec(p, l.0[i].0) {
            return false;
        }
        let mut j: usize = 0;
        while j < i
            invariant
                j <= i,
                forall|a: int| 0 <= a < j ==> (l.0@[a]).0 != (l.0@[i as int]).0,
            decreases i - j,
        {
            if l.0[j].0 == l.0[i].0 {
                return false;
            }
            j = j + 1;
        }
        i = i + 1;
    }
    true
}

#[verifier::loop_isolation(false)]
fn check_wf(p: &Prog) -> (b: bool)
    ensures
        b == prog_wf(*p),
{
    if p.private.len() != p.main.arguments.len() {
        return false;
    }
    if !check_args(&p.main.arguments) {
        return false;
    }
    let nr = p.main.returns.len();
    let mut i: usize = 0;
    while i < nr
        invariant
            i <= nr,
            forall|a: int|
                0 <= a < i ==> #[trigger] p.main.returns@[a] == FlatVariable::Public(a as usize),
        decreases nr - i,
    {
        match p.main.returns[i] {
            FlatVariable::Public(k) => {
                if k != i {
                    return false;
                }
            },
            _ => {
                return false;
            },
        }
        i = i + 1;
    }
    let ns = p.main.statements.len();
    let mut s: usize = 0;
    while s < ns
        invariant
            s <= ns,
            forall|j: int| 0 <= j < s ==> stmt_ok(*p, #[trigger] p.main.statements@[j]),
        decreases ns - s,
    {
        let ok = match &p.main.statements[s] {
            Statement::Constraint(q, lin) => check_lc(p, &q.left) && check_lc(p, &q.right)
                && check_lc(p, lin),
            Statement::Directive => true,
        };
        if !ok {
            return false;
        }
        s = s + 1;
    }
    true
}

/// Fold a linear combination into backend terms through the variable map:
/// every term visited exactly once, each wire resolved to its single handle.
#[verifier::loop_isolation(false)]
fn build_combination(symbols: &SymbolMap, l: &LinComb) -> (r: Vec<(Handle, FieldElement)>)
    requires
        symbols.wf(),
        forall|k: int| 0 <= k < l.0@.len() ==> symbols@.contains_key((#[trigger] l.0@[k]).0),
    ensures
        r@.len() == l.0@.len(),
        forall|k: int|
            0 <= k < l.0@.len() ==> #[trigger] r@[k] == (symbols@[l.0@[k].0], l.0@[k].1),
{
    let mut out: Vec<(Handle, FieldElement)> = Vec::new();
    let n = l.0.len();
    let mut k: usize = 0;
    while k < n
        invariant
            k <= n,
            out@.len() == k,
            forall|a: int|
                0 <= a < k ==> #[trigger] out@[a] == (symbols@[l.0@[a].0], l.0@[a].1),
        decreases n - k,
    {
        let (v, c) = l.0[k];
        let h = match symbols.get(v) {
            Some(h) => h,
            None => {
                proof {
                    assert(false);
                }
                Handle::Input(0)
            },
        };
        out.push((h, c));
        k = k + 1;
    }
    out
}

impl Prog {
    /// Compile the program into an explicit rank-1 constraint system.
    ///
    /// With a witness (proving mode), every declared wire's value is
    /// consumed from it exactly once, at allocation time, and the pass
    /// fails with `MissingAssignment` exactly when some declared wire has
    /// no value.  Without a witness (key-generation mode), no value is ever
    /// demanded and a well-formed program always compiles.
    #[verifier::loop_isolation(false)]
    pub fn synthesize(self, witness: Option<Witness>) -> (r: Result<R1cs, Error>)
        requires
            witness matches Some(w) ==> w.wf(),
            self.main.arguments@.len() + self.main.returns@.len() + 1 <= usize::MAX,
        ensures
            !prog_wf(self) ==> r == Err::<R1cs, Error>(Error::MalformedProgram),
            prog_wf(self) && witness is None ==> r is Ok,
            witness matches Some(w) ==> (prog_wf(self) ==> ((r is Ok <==> witness_covers(self, w@))
                && (!witness_covers(self, w@) ==> r == Err::<R1cs, Error>(
                Error::MissingAssignment,
            )))),
            r matches Ok(cs) ==> {
                &&& prog_wf(self)
                &&& cs.num_inputs == 1 + pub_count(self.private@, self.private@.len() as int)
                    + self.main.returns@.len()
                &&& cs.num_aux == priv_count(self.private@, self.private@.len() as int)
                &&& cs.constraints@.map_values(|c: CsConstraint| c@) == spec_constraints(
                    self,
                    self.main.statements@,
                )
                &&& cs.constraints@.len() == constraint_count(self.main.statements@)
                &&& witness is None ==> cs.input_values@.len() == 0 && cs.aux_values@.len() == 0
                &&& witness matches Some(w) ==> cs.input_values@ == spec_input_values(self, w@)
                    && cs.aux_values@ == spec_aux_values(self, w@)
            },
    {
        if !check_wf(&self) {
            return Err(Error::MalformedProgram);
        }
        let has_witness = witness.is_some();
        let mut wit: Witness = match witness {
            Some(w) => w,
            None => Witness::empty(),
        };
        let ghost w0: Map<FlatVariable, FieldElement> = wit@;
        let mut symbols = SymbolMap::new();
        symbols.insert(FlatVariable::one(), Handle::Input(0));
        let mut num_inputs: usize = 1;
        let mut num_aux: usize = 0;
        let mut input_values: Vec<FieldElement> = Vec::new();
        let mut aux_values: Vec<FieldElement> = Vec::new();
        if has_witness {
            input_values.push(FieldElement::one());
        }
        let ghost args: Seq<FlatVariable> = self.main.arguments@;
        let ghost flags: Seq<bool> = self.private@;
        let ghost rets: Seq<FlatVariable> = self.main.returns@;
        let nargs = self.main.arguments.len();
        let mut i: usize = 0;
        while i < nargs
            invariant
                i <= nargs,
                symbols.wf(),
                wit.wf(),
                num_inputs == 1 + pub_count(flags, i as int),
                num_aux == priv_count(flags, i as int),
                symbols@.contains_key(FlatVariable::One),
                symbols@[FlatVariable::One] == Handle::Input(0),
                forall|j: int|
                    0 <= j < i ==> symbols@.contains_key(#[trigger] args[j]) && symbols@[args[j]]
                        == arg_handle(flags, j),
                forall|v: FlatVariable|
                    #[trigger] symbols@.contains_key(v) ==> v == FlatVariable::One || exists|j: int|
                        0 <= j < i && #[trigger] args[j] == v,
                has_witness ==> forall|v: FlatVariable|
                    #[trigger] wit@.contains_key(v) <==> (w0.contains_key(v) && !exists|j: int|
                        0 <= j < i && #[trigger] args[j] == v),
                forall|v: FlatVariable|
                    #[trigger] wit@.contains_key(v) ==> wit@[v] == w0[v],
                has_witness ==> forall|j: int| 0 <= j < i ==> w0.contains_key(#[trigger] args[j]),
                has_witness ==> input_values@ == seq![fe_one()] + pub_arg_vals(
                    args,
                    flags,
                    w0,
                    i as int,
                ),
                has_witness ==> aux_values@ == priv_arg_vals(args, flags, w0, i as int),
                !has_witness ==> input_values@.len() == 0 && aux_values@.len() == 0 && wit@
                    == Map::<FlatVariable, FieldElement>::empty(),
            decreases nargs - i,
        {
            proof {
                lemma_count_bounds(flags, i as int);
            }
            let var = self.main.arguments[i];
            let is_private = self.private[i];
            proof {
                assert(!symbols@.contains_key(var));
            }
            let mut value = FieldElement::zero();
            if has_witness {
                match wit.remove(var) {
                    Some(v) => {
                        value = v;
                    },
                    None => {
                        proof {
                            assert(!w0.contains_key(var));
                            assert(!witness_covers(self, w0));
                        }
                        return Err(Error::MissingAssignment);
                    },
                }
            }
            let handle: Handle;
            if is_private {
                handle = Handle::Aux(num_aux);
                num_aux = num_aux + 1;
                if has_witness {
                    aux_values.push(value);
                }
            } else {
                handle = Handle::Input(num_inputs);
                num_inputs = num_inputs + 1;
                if has_witness {
                    input_values.push(value);
                }
            }
            symbols.insert(var, handle);
            i = i + 1;
            proof {
                assert(pub_arg_vals(args, flags, w0, i as int) == pub_arg_vals(
                    args,
                    flags,
                    w0,
                    i as int - 1,
                ) + (if flags[i as int - 1] {
                    Seq::<FieldElement>::empty()
                } else {
                    seq![w0[args[i as int - 1]]]
                }));
                assert(priv_arg_vals(args, flags, w0, i as int) == priv_arg_vals(
                    args,
                    flags,
                    w0,
                    i as int - 1,
                ) + (if flags[i as int - 1] {
                    seq![w0[args[i as int - 1]]]
                } else {
                    Seq::<FieldElement>::empty()
                }));
            }
        }
        let ghost total_pub: int = pub_count(flags, flags.len() as int);
        proof {
            lemma_count_bounds(flags, flags.len() as int);
        }
        let nrets = self.main.returns.len();
        let mut t: usize = 0;
        while t < nrets
            invariant
                t <= nrets,
                symbols.wf(),
                wit.wf(),
                num_inputs == 1 + total_pub + t,
                num_aux == priv_count(flags, flags.len() as int),
                symbols@.contains_key(FlatVariable::One),
                symbols@[FlatVariable::One] == Handle::Input(0),
                forall|j: int|
                    0 <= j < args.len() ==> symbols@.contains_key(#[trigger] args[j])
                        && symbols@[args[j]] == arg_handle(flags, j),
                forall|j: int|
                    0 <= j < t ==> symbols@.contains_key(#[trigger] rets[j]) && symbols@[rets[j]]
                        == Handle::Input((1 + total_pub + j) as usize),
                forall|v: FlatVariable|
                    #[trigger] symbols@.contains_key(v) ==> v == FlatVariable::One || (exists|
                        j: int,
                    |
                        0 <= j < args.len() && #[trigger] args[j] == v) || (exists|j: int|
                        0 <= j < t && #[trigger] rets[j] == v),
                has_witness ==> forall|j: int| 0 <= j < t ==> w0.contains_key(#[trigger] rets[j]),
                forall|v: FlatVariable|
                    #[trigger] wit@.contains_key(v) ==> wit@[v] == w0[v] && w0.contains_key(v),
                has_witness ==> input_values@ == seq![fe_one()] + pub_arg_vals(
                    args,
                    flags,
                    w0,
                    args.len() as int,
                ) + ret_vals(rets, w0, t as int),
                has_witness ==> aux_values@ == priv_arg_vals(args, flags, w0, args.len() as int),
                !has_witness ==> input_values@.len() == 0 && aux_values@.len() == 0 && wit@
                    == Map::<FlatVariable, FieldElement>::empty(),
                has_witness ==> forall|v: FlatVariable|
                    #[trigger] wit@.contains_key(v) <==> (w0.contains_key(v) && !(exists|j: int|
                        0 <= j < args.len() && #[trigger] args[j] == v) && !(exists|j: int|
                        0 <= j < t && #[trigger] rets[j] == v)),
            decreases nrets - t,
        {
            let var = self.main.returns[t];
            proof {
                assert(var == FlatVariable::Public(t as usize));
                assert(!symbols@.contains_key(var));
            }
            let mut value = FieldElement::zero();
            if has_witness {
                match wit.remove(var) {
                    Some(v) => {
                        value = v;
                    },
                    None => {
                        proof {
                            assert(!w0.contains_key(var));
                            assert(!witness_covers(self, w0));
                        }
                        return Err(Error::MissingAssignment);
                    },
                }
            }
            let handle = Handle::Input(num_inputs);
            num_inputs = num_inputs + 1;
            if has_witness {
                input_values.push(value);
            }
            symbols.insert(var, handle);
            t = t + 1;
        }
        proof {
            assert(forall|v: FlatVariable|
                declared(self, v) ==> #[trigger] symbols@.contains_key(v));
            assert forall|v: FlatVariable| declared(self, v) implies #[trigger] symbols@[v]
                == spec_var_handle(self, v) by {
                if v == FlatVariable::One {
                } else if args.contains(v) {
                    let j = choose|j: int| 0 <= j < args.len() && args[j] == v;
                    let k = arg_index(self, v);
                    assert(0 <= k < args.len() && args[k] == v);
                    assert(j == k);
                } else {
                    let j = choose|j: int| 0 <= j < rets.len() && rets[j] == v;
                    assert(rets[j] == FlatVariable::Public(j as usize));
                }
            }
        }
        let mut constraints: Vec<CsConstraint> = Vec::new();
        let ns = self.main.statements.len();
        let mut s: usize = 0;
        while s < ns
            invariant
                s <= ns,
                constraints@.map_values(|c: CsConstraint| c@) == spec_constraints(
                    self,
                    self.main.statements@.take(s as int),
                ),
            decreases ns - s,
        {
            let ghost prefix = self.main.statements@.take(s as int);
            match &self.main.statements[s] {
                Statement::Constraint(q, lin) => {
                    proof {
                        assert(stmt_ok(self, self.main.statements@[s as int]));
                    }
                    let a = build_combination(&symbols, &q.left);
                    let b = build_combination(&symbols, &q.right);
                    let c = build_combination(&symbols, lin);
                    let cons = CsConstraint { a, b, c };
                    proof {
                        assert(cons@.0 =~= map_lc(self, q.left));
                        assert(cons@.1 =~= map_lc(self, q.right));
                        assert(cons@.2 =~= map_lc(self, *lin));
                    }
                    constraints.push(cons);
                    proof {
                        let next = self.main.statements@.take(s as int + 1);
                        assert(next.drop_last() =~= prefix);
                        assert(next.last() == self.main.statements@[s as int]);
                        assert(constraints@.map_values(|c2: CsConstraint| c2@) =~= spec_constraints(
                            self,
                            prefix,
                        ).push(cons@));
                        assert(spec_constraints(self, next) == spec_constraints(self, prefix)
                            + seq![(map_lc(self, q.left), map_lc(self, q.right), map_lc(self, *lin))]);
                        assert(spec_constraints(self, prefix).push(cons@) =~= spec_constraints(
                            self,
                            next,
                        ));
                    }
                },
                Statement::Directive => {
                    proof {
                        let next = self.main.statements@.take(s as int + 1);
                        assert(next.drop_last() =~= prefix);
                        assert(next.last() == self.main.statements@[s as int]);
                        assert(spec_constraints(self, next) == spec_constraints(self, prefix));
                    }
                },
            }
            s = s + 1;
        }
        proof {
            assert(self.main.statements@.take(ns as int) =~= self.main.statements@);
            lemma_constraint_count(self, self.main.statements@);
            assert(constraints@.len() == constraints@.map_values(|c: CsConstraint| c@).len());
            if has_witness {
                assert(witness_covers(self, w0));
            }
        }
        Ok(
            R1cs {
                num_inputs,
                num_aux,
                constraints,
                input_values,
                aux_values,
            },
        )
    }
}

} // verus!
