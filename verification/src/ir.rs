//! The intermediate representation that generation targets: a compilation
//! unit owning function declarations, each with a (possibly empty) body of
//! instructions, plus the structural verifier that every unit must pass
//! before serialization or execution.

use vstd::prelude::*;

verus! {

/// The value types that generated code works with.
#[derive(Clone, Copy, Debug, PartialEq, Eq, Structural)]
pub enum Ty {
    /// A signed 32-bit integer.
    I32,
    /// An opaque byte pointer (addresses of materialized strings, streams).
    BytePtr,
    /// No value.
    Void,
}

/// Whether a function is defined elsewhere or within the unit.
#[derive(Clone, Copy, Debug, PartialEq, Eq, Structural)]
pub enum Linkage {
    External,
    Defined,
}

/// A reference to a value available inside a function body.
///
/// Instructions that yield a value (string materializations and calls) are
/// numbered in order of appearance; `Local(i)` names the value of the `i`-th
/// such instruction. `Param(i)` names the `i`-th declared parameter.
#[derive(Clone, Copy, Debug, PartialEq, Eq, Structural)]
pub enum Operand {
    Local(usize),
    Param(usize),
    ConstI32(i32),
}

/// One instruction of a function body.
pub enum Instr {
    /// Materialize the string `data`: allocate a buffer holding `data`
    /// followed by one terminator, and yield its address. `var` is the
    /// name given to the value, for readability of the serialized unit.
    AllocString { var: String, data: String },
    /// Call the function declared under `callee` with the given arguments,
    /// yielding its return value.
    Call { callee: String, args: Vec<Operand> },
    /// Return from the function, with an optional value. Terminates the body.
    Ret(Option<Operand>),
}

/// A function declaration: unique symbol name, signature, linkage, and a
/// body that is empty exactly when the linkage is external.
pub struct FnDecl {
    pub name: String,
    pub params: Vec<Ty>,
    pub ret: Ty,
    pub variadic: bool,
    pub linkage: Linkage,
    pub body: Vec<Instr>,
}

/// The mutable generation target: all functions declared so far, in
/// declaration order.
pub struct Unit {
    pub functions: Vec<FnDecl>,
}

/// Mathematical model of an instruction.
#[verifier::ext_equal]
pub ghost enum InstrS {
    AllocString { var: Seq<char>, data: Seq<char> },
    Call { callee: Seq<char>, args: Seq<Operand> },
    Ret(Option<Operand>),
}

/// Mathematical model of a function declaration.
#[verifier::ext_equal]
pub ghost struct FnDeclS {
    pub name: Seq<char>,
    pub params: Seq<Ty>,
    pub ret: Ty,
    pub variadic: bool,
    pub linkage: Linkage,
    pub body: Seq<InstrS>,
}

/// Mathematical model of a unit.
#[verifier::ext_equal]
pub ghost struct UnitS {
    pub functions: Seq<FnDeclS>,
}

impl View for Instr {
    type V = InstrS;

    open spec fn view(&self) -> InstrS {
        match self {
            Instr::AllocString { var, data } => InstrS::AllocString { var: var@, data: data@ },
            Instr::Call { callee, args } => InstrS::Call { callee: callee@, args: args@ },
            Instr::Ret(op) => InstrS::Ret(*op),
        }
    }
}

impl View for FnDecl {
    type V = FnDeclS;

    open spec fn view(&self) -> FnDeclS {
        FnDeclS {
            name: self.name@,
            params: self.params@,
            ret: self.ret,
            variadic: self.variadic,
            linkage: self.linkage,
            body: Seq::new(self.body@.len(), |i: int| self.body@[i]@),
        }
    }
}

impl View for Unit {
    type V = UnitS;

    open spec fn view(&self) -> UnitS {
        UnitS { functions: Seq::new(self.functions@.len(), |i: int| self.functions@[i]@) }
    }
}

impl UnitS {
    /// Whether some function named `name` is declared in the unit.
    pub open spec fn contains_fn(self, name: Seq<char>) -> bool {
        exists|i: int| 0 <= i < self.functions.len() && self.functions[i].name == name
    }

    /// The declaration of the function named `name` (the first one, when the
    /// unit is invalid and holds duplicates).
    pub open spec fn decl_of(self, name: Seq<char>) -> FnDeclS {
        self.functions[self.index_of(name)]
    }

    /// The index of the first declaration named `name`.
    pub open spec fn index_of(self, name: Seq<char>) -> int {
        choose|i: int|
            0 <= i < self.functions.len() && self.functions[i].name == name && (forall|j: int|
                0 <= j < i ==> self.functions[j].name != name)
    }

    /// All declared names are distinct.
    pub open spec fn names_unique(self) -> bool {
        forall|i: int, j: int|
            0 <= i < j < self.functions.len() ==> self.functions[i].name != self.functions[j].name
    }

    /// The unit passes structural verification: names are unique, external
    /// functions have no body, and every defined body is terminated with all
    /// of its references resolved.
    pub open spec fn valid(self) -> bool {
        &&& self.names_unique()
        &&& forall|i: int|
            0 <= i < self.functions.len() ==> #[trigger] self.functions[i].valid_in(self)
    }
}

impl InstrS {
    /// Whether the instruction yields a value usable as a `Local` operand.
    pub open spec fn yields(self) -> bool {
        !(self is Ret)
    }

    /// Whether the instruction terminates a body.
    pub open spec fn is_terminator(self) -> bool {
        self is Ret
    }
}

/// The number of value-yielding instructions among the first `n` of `body`:
/// the `Local` index the `n`-th instruction's value would get.
pub open spec fn locals_before(body: Seq<InstrS>, n: int) -> int
    decreases n,
{
    if n <= 0 {
        0
    } else {
        locals_before(body, n - 1) + if body[n - 1].yields() {
            1int
        } else {
            0int
        }
    }
}

/// Whether `op` is a resolvable operand at position `pos` of `body`, in a
/// function with `n_params` parameters.
pub open spec fn operand_ok(op: Operand, body: Seq<InstrS>, pos: int, n_params: int) -> bool {
    match op {
        Operand::Local(i) => i < locals_before(body, pos),
        Operand::Param(i) => i < n_params,
        Operand::ConstI32(_) => true,
    }
}

impl FnDeclS {
    /// The body ends in exactly one terminator: its last instruction, and no
    /// other, is a `Ret`.
    pub open spec fn terminated(self) -> bool {
        &&& self.body.len() > 0
        &&& self.body.last().is_terminator()
        &&& forall|i: int|
            0 <= i < self.body.len() - 1 ==> !(#[trigger] self.body[i]).is_terminator()
    }

    /// Every call in the body names a declared function and every operand is
    /// in range.
    pub open spec fn resolved_in(self, u: UnitS) -> bool {
        forall|i: int| 0 <= i < self.body.len() ==> self.instr_ok(u, i)
    }

    /// Structural validity of one declaration within `u`: an external
    /// function has no body; a defined one has a terminated body with all of
    /// its references resolved.
    pub open spec fn valid_in(self, u: UnitS) -> bool {
        match self.linkage {
            Linkage::External => self.body.len() == 0,
            Linkage::Defined => self.terminated() && self.resolved_in(u),
        }
    }

    /// Structural validity of the instruction at position `i` of the body.
    pub open spec fn instr_ok(self, u: UnitS, i: int) -> bool {
        match self.body[i] {
            InstrS::AllocString { .. } => true,
            InstrS::Call { callee, args } => {
                &&& u.contains_fn(callee)
                &&& forall|k: int|
                    0 <= k < args.len() ==> operand_ok(
                        #[trigger] args[k],
                        self.body,
                        i,
                        self.params.len() as int,
                    )
            },
            InstrS::Ret(op) => match op {
                Some(o) => operand_ok(o, self.body, i, self.params.len() as int),
                None => true,
            },
        }
    }
}

impl Unit {
    /// A fresh unit with no declarations.
    pub fn new() -> (u: Unit)
        ensures
            u@.functions =~= Seq::<FnDeclS>::empty(),
    {
        Unit { functions: Vec::new() }
    }

    /// Declare a function. The declaration is appended as given; nothing is
    /// de-duplicated, so redeclaring a name produces a unit that fails
    /// verification.
    pub fn add_function(&mut self, decl: FnDecl)
        ensures
            final(self)@.functions =~= old(self)@.functions.push(decl@),
    {
        self.functions.push(decl);
    }

    /// Look up the first declaration named `name`, if any.
    pub fn get_function(&self, name: &String) -> (r: Option<&FnDecl>)
        ensures
            r is Some <==> self@.contains_fn(name@),
            r is Some ==> r.unwrap()@ == self@.decl_of(name@),
    {
        let mut i: usize = 0;
        while i < self.functions.len()
            invariant
                i <= self.functions.len(),
                forall|j: int| 0 <= j < i ==> self@.functions[j].name != name@,
            decreases self.functions.len() - i,
        {
            if self.functions[i].name == *name {
                proof {
                    assert(self@.functions[i as int].name == name@);
                    let j = self@.index_of(name@);
                    assert(0 <= j < self@.functions.len() && self@.functions[j].name == name@
                        && (forall|k: int| 0 <= k < j ==> self@.functions[k].name != name@))
                        by {
                        assert(0 <= i < self@.functions.len() && self@.functions[i as int].name
                            == name@ && (forall|k: int|
                            0 <= k < i ==> self@.functions[k].name != name@));
                    }
                    assert(j == i);
                }
                return Some(&self.functions[i]);
            }
            i = i + 1;
        }
        None
    }
}

/// Emission state for one function body under construction: the
/// instructions so far, with the index the next value-yielding instruction
/// will receive.
pub struct Builder {
    body: Vec<Instr>,
    next_local: usize,
}

impl View for Builder {
    type V = Seq<InstrS>;

    closed spec fn view(&self) -> Seq<InstrS> {
        Seq::new(self.body@.len(), |i: int| self.body@[i]@)
    }
}

impl Builder {
    /// The local counter matches the instructions emitted so far.
    pub closed spec fn wf(self) -> bool {
        self.next_local == locals_before(self@, self@.len() as int)
    }

    /// Open a fresh, empty body.
    pub fn new() -> (b: Builder)
        ensures
            b@ =~= Seq::<InstrS>::empty(),
            b.wf(),
    {
        Builder { body: Vec::new(), next_local: 0 }
    }

    /// Emit a string materialization; yields the address of the buffer.
    pub fn build_alloc_string(&mut self, data: String, var: String) -> (r: Operand)
        requires
            old(self).wf(),
            old(self)@.len() < usize::MAX,
        ensures
            final(self)@ =~= old(self)@.push(InstrS::AllocString { var: var@, data: data@ }),
            final(self).wf(),
            r == Operand::Local(locals_before(old(self)@, old(self)@.len() as int) as usize),
    {
        let r = Operand::Local(self.next_local);
        let ghost pre = self@;
        self.body.push(Instr::AllocString { var, data });
        proof {
            assert(self@ =~= pre.push(InstrS::AllocString { var: var@, data: data@ }));
            assert(locals_before(self@, self@.len() as int) == locals_before(
                self@,
                self@.len() - 1,
            ) + 1);
            lemma_locals_before_prefix(self@, pre, self@.len() - 1);
            lemma_locals_before_bound(pre, pre.len() as int);
        }
        self.next_local = self.next_local + 1;
        r
    }

    /// Emit a call; yields the called function's return value.
    pub fn build_call(&mut self, callee: String, args: Vec<Operand>) -> (r: Operand)
        requires
            old(self).wf(),
            old(self)@.len() < usize::MAX,
        ensures
            final(self)@ =~= old(self)@.push(InstrS::Call { callee: callee@, args: args@ }),
            final(self).wf(),
            r == Operand::Local(locals_before(old(self)@, old(self)@.len() as int) as usize),
    {
        let r = Operand::Local(self.next_local);
        let ghost pre = self@;
        self.body.push(Instr::Call { callee, args });
        proof {
            assert(self@ =~= pre.push(InstrS::Call { callee: callee@, args: args@ }));
            assert(locals_before(self@, self@.len() as int) == locals_before(
                self@,
                self@.len() - 1,
            ) + 1);
            lemma_locals_before_prefix(self@, pre, self@.len() - 1);
            lemma_locals_before_bound(pre, pre.len() as int);
        }
        self.next_local = self.next_local + 1;
        r
    }

    /// Emit a return, terminating the body.
    pub fn build_ret(&mut self, op: Option<Operand>)
        requires
            old(self).wf(),
        ensures
            final(self)@ =~= old(self)@.push(InstrS::Ret(op)),
            final(self).wf(),
    {
        let ghost pre = self@;
        self.body.push(Instr::Ret(op));
        proof {
            assert(self@ =~= pre.push(InstrS::Ret(op)));
            assert(locals_before(self@, self@.len() as int) == locals_before(
                self@,
                self@.len() - 1,
            ));
            lemma_locals_before_prefix(self@, pre, self@.len() - 1);
        }
    }

    /// Close the body and hand the instructions out.
    pub fn finish(self) -> (r: Vec<Instr>)
        ensures
            Seq::new(r@.len(), |i: int| r@[i]@) =~= self@,
    {
        self.body
    }
}

/// The local counter never exceeds the number of instructions counted.
pub proof fn lemma_locals_before_bound(body: Seq<InstrS>, n: int)
    requires
        0 <= n,
    ensures
        0 <= locals_before(body, n) <= n,
    decreases n,
{
    if n > 0 {
        lemma_locals_before_bound(body, n - 1);
    }
}

/// When `k` is the first index declaring `name`, lookup lands on it.
pub proof fn lemma_decl_of(u: UnitS, name: Seq<char>, k: int)
    requires
        0 <= k < u.functions.len(),
        u.functions[k].name == name,
        forall|j: int| 0 <= j < k ==> u.functions[j].name != name,
    ensures
        u.index_of(name) == k,
        u.decl_of(name) == u.functions[k],
        u.contains_fn(name),
{
    assert(u.contains_fn(name));
    let j = u.index_of(name);
    assert(0 <= j < u.functions.len() && u.functions[j].name == name && (forall|i: int|
        0 <= i < j ==> u.functions[i].name != name)) by {
        assert(0 <= k < u.functions.len() && u.functions[k].name == name && (forall|i: int|
            0 <= i < k ==> u.functions[i].name != name));
    }
    if j < k {
        assert(u.functions[j].name != name);
    }
    if k < j {
        assert(u.functions[k].name != name);
    }
}

/// When every instruction before position `n` yields a value, the local
/// count equals the position.
pub proof fn lemma_locals_before_all_yield(body: Seq<InstrS>, n: int)
    requires
        0 <= n <= body.len(),
        forall|i: int| 0 <= i < n ==> (#[trigger] body[i]).yields(),
    ensures
        locals_before(body, n) == n,
    decreases n,
{
    if n > 0 {
        lemma_locals_before_all_yield(body, n - 1);
    }
}

/// Declaring one more function never invalidates an already-valid
/// declaration: resolution only ever sees more symbols.
pub proof fn lemma_valid_in_push(d: FnDeclS, u: UnitS, nd: FnDeclS)
    requires
        d.valid_in(u),
    ensures
        d.valid_in(UnitS { functions: u.functions.push(nd) }),
{
    let u2 = UnitS { functions: u.functions.push(nd) };
    if d.linkage is Defined {
        assert forall|i: int| 0 <= i < d.body.len() implies d.instr_ok(u2, i) by {
            assert(d.instr_ok(u, i));
            match d.body[i] {
                InstrS::Call { callee, args: _ } => {
                    let w = choose|k: int|
                        0 <= k < u.functions.len() && #[trigger] u.functions[k].name == callee;
                    assert(u2.functions[w].name == callee);
                },
                _ => {},
            }
        }
    }
}

/// `locals_before` only reads the first `n` instructions: two bodies that
/// agree there count the same.
pub proof fn lemma_locals_before_prefix(a: Seq<InstrS>, b: Seq<InstrS>, n: int)
    requires
        0 <= n <= a.len(),
        n <= b.len(),
        forall|i: int| 0 <= i < n ==> a[i] == b[i],
    ensures
        locals_before(a, n) == locals_before(b, n),
    decreases n,
{
    if n > 0 {
        lemma_locals_before_prefix(a, b, n - 1);
    }
}

/// Why a unit failed structural verification.
#[derive(Clone, Copy, Debug, PartialEq, Eq, Structural)]
pub enum VerifyError {
    /// Two declarations share one symbol name.
    DuplicateSymbol,
    /// A function with external linkage has a body.
    ExternalWithBody,
    /// A defined function's body is empty, does not end in a return, or
    /// returns before its end.
    UnterminatedBlock,
    /// A call names a symbol with no declaration, or an operand refers to a
    /// value that does not exist at its use.
    UnresolvedReference,
}

impl Unit {
    /// Structural verification: `Ok` exactly when the unit is valid, an
    /// error naming one defect otherwise.
    pub fn verify(&self) -> (r: Result<(), VerifyError>)
        ensures
            r is Ok <==> self@.valid(),
            r == Result::<(), VerifyError>::Err(VerifyError::DuplicateSymbol) ==> !self@.names_unique(),
    {
        let n = self.functions.len();
        let mut i: usize = 0;
        while i < n
            invariant
                n == self.functions.len(),
                i <= n,
                forall|p: int, q: int|
                    0 <= p < i && p < q < n ==> self@.functions[p].name != self@.functions[q].name,
            decreases n - i,
        {
            let mut j: usize = i + 1;
            while j < n
                invariant
                    n == self.functions.len(),
                    i < j,
                    i < n,
                    j <= n,
                    forall|q: int| i < q < j ==> self@.functions[i as int].name != self@.functions[q].name,
                decreases n - j,
            {
                if self.functions[i].name == self.functions[j].name {
                    proof {
                        assert(self@.functions[i as int].name == self@.functions[j as int].name);
                    }
                    return Err(VerifyError::DuplicateSymbol);
                }
                j = j + 1;
            }
            i = i + 1;
        }
        let mut i: usize = 0;
        while i < n
            invariant
                n == self.functions.len(),
                i <= n,
                self@.names_unique(),
                forall|p: int| 0 <= p < i ==> (#[trigger] self@.functions[p]).valid_in(self@),
            decreases n - i,
        {
            if let Err(e) = self.verify_function(i) {
                return Err(e);
            }
            i = i + 1;
        }
        Ok(())
    }

    /// Structural verification of the declaration at index `f`.
    fn verify_function(&self, f: usize) -> (r: Result<(), VerifyError>)
        requires
            f < self@.functions.len(),
        ensures
            r is Ok <==> self@.functions[f as int].valid_in(self@),
            r != Result::<(), VerifyError>::Err(VerifyError::DuplicateSymbol),
    {
        let decl = &self.functions[f];
        let ghost ds = self@.functions[f as int];
        proof {
            assert(ds == decl@);
        }
        match decl.linkage {
            Linkage::External => {
                if decl.body.len() == 0 {
                    Ok(())
                } else {
                    Err(VerifyError::ExternalWithBody)
                }
            },
            Linkage::Defined => {
                let len = decl.body.len();
                if len == 0 {
                    return Err(VerifyError::UnterminatedBlock);
                }
                let mut locals: usize = 0;
                let mut i: usize = 0;
                while i < len
                    invariant
                        len == decl.body.len(),
                        len > 0,
                        ds == decl@,
                        ds == self@.functions[f as int],
                        ds.body.len() == len,
                        f < self@.functions.len(),
                        i <= len,
                        locals == locals_before(ds.body, i as int),
                        locals <= i,
                        forall|p: int| 0 <= p < i ==> ds.instr_ok(self@, p),
                        forall|p: int|
                            0 <= p < i && p < len - 1 ==> !(#[trigger] ds.body[p]).is_terminator(),
                        i == len ==> ds.body.last().is_terminator(),
                    decreases len - i,
                {
                    let last = i == len - 1;
                    match self.check_instr(decl, i, locals, last) {
                        Ok(y) => {
                            proof {
                                assert(locals_before(ds.body, i + 1 as int) == locals_before(
                                    ds.body,
                                    i as int,
                                ) + if ds.body[i as int].yields() {
                                    1int
                                } else {
                                    0int
                                });
                            }
                            locals = if y {
                                locals + 1
                            } else {
                                locals
                            };
                        },
                        Err(e) => {
                            proof {
                                if e == VerifyError::UnterminatedBlock {
                                    assert(!ds.terminated());
                                } else {
                                    assert(!ds.instr_ok(self@, i as int));
                                    assert(!ds.resolved_in(self@));
                                }
                            }
                            return Err(e);
                        },
                    }
                    i = i + 1;
                }
                Ok(())
            },
        }
    }

    /// Check the instruction at position `i` of `decl`'s body, given that
    /// `locals` values are in scope there and whether it is the last
    /// instruction. On success, reports whether the instruction yields a
    /// value.
    fn check_instr(&self, decl: &FnDecl, i: usize, locals: usize, last: bool) -> (r: Result<
        bool,
        VerifyError,
    >)
        requires
            i < decl@.body.len(),
            locals == locals_before(decl@.body, i as int),
            last <==> i == decl@.body.len() - 1,
        ensures
            r is Ok <==> (decl@.instr_ok(self@, i as int) && (decl@.body[i as int].is_terminator()
                <==> last)),
            r is Ok ==> (r.unwrap() <==> decl@.body[i as int].yields()),
            r is Err ==> (r == Result::<bool, VerifyError>::Err(VerifyError::UnterminatedBlock)
                ==> !(decl@.body[i as int].is_terminator() <==> last)),
            r is Err ==> (r != Result::<bool, VerifyError>::Err(VerifyError::UnterminatedBlock)
                ==> !decl@.instr_ok(self@, i as int)),
            r != Result::<bool, VerifyError>::Err(VerifyError::DuplicateSymbol),
            r != Result::<bool, VerifyError>::Err(VerifyError::ExternalWithBody),
    {
        proof {
            assert(decl@.body[i as int] == decl.body@[i as int]@);
        }
        match &decl.body[i] {
            Instr::AllocString { .. } => {
                if last {
                    Err(VerifyError::UnterminatedBlock)
                } else {
                    Ok(true)
                }
            },
            Instr::Call { callee, args } => {
                if last {
                    return Err(VerifyError::UnterminatedBlock);
                }
                if self.get_function(callee).is_none() {
                    return Err(VerifyError::UnresolvedReference);
                }
                let n_params = decl.params.len();
                let mut k: usize = 0;
                while k < args.len()
                    invariant
                        decl@.body[i as int] == (InstrS::Call { callee: callee@, args: args@ }),
                        i < decl@.body.len(),
                        locals == locals_before(decl@.body, i as int),
                        k <= args.len(),
                        n_params == decl@.params.len(),
                        forall|q: int|
                            0 <= q < k ==> operand_ok(
                                #[trigger] args@[q],
                                decl@.body,
                                i as int,
                                n_params as int,
                            ),
                    decreases args.len() - k,
                {
                    if !operand_check(args[k], locals, n_params) {
                        proof {
                            assert(!operand_ok(args@[k as int], decl@.body, i as int, n_params as int));
                            assert(0 <= k < args@.len() && !operand_ok(
                                args@[k as int],
                                decl@.body,
                                i as int,
                                decl@.params.len() as int,
                            ));
                            assert(decl@.body[i as int] matches InstrS::Call { callee: c, args: a }
                                && a == args@ && c == callee@);
                            if decl@.instr_ok(self@, i as int) {
                                assert(operand_ok(
                                    args@[k as int],
                                    decl@.body,
                                    i as int,
                                    decl@.params.len() as int,
                                ));
                            }
                            assert(!decl@.instr_ok(self@, i as int));
                        }
                        return Err(VerifyError::UnresolvedReference);
                    }
                    k = k + 1;
                }
                Ok(true)
            },
            Instr::Ret(op) => {
                if !last {
                    return Err(VerifyError::UnterminatedBlock);
                }
                if let Some(o) = op {
                    if !operand_check(*o, locals, decl.params.len()) {
                        return Err(VerifyError::UnresolvedReference);
                    }
                }
                Ok(false)
            },
        }
    }
}

/// Whether `op` resolves when `locals` values and `n_params` parameters are
/// in scope.
fn operand_check(op: Operand, locals: usize, n_params: usize) -> (r: bool)
    ensures
        forall|body: Seq<InstrS>, pos: int|
            locals == locals_before(body, pos) ==> r == operand_ok(op, body, pos, n_params as int),
{
    match op {
        Operand::Local(l) => l < locals,
        Operand::Param(p) => p < n_params,
        Operand::ConstI32(_) => true,
    }
}

} // verus!
