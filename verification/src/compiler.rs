//! The code generator: walks the expression tree, resolves call names to
//! runtime support entries, evaluates arguments, emits calls and a synthetic
//! entry point, and returns the completed unit.

use crate::ast::Expression;
use crate::ir::{Builder, FnDecl, FnDeclS, InstrS, Linkage, Operand, Ty, Unit, UnitS};
use crate::symbols::{mangle, mangled, MAIN};
use crate::util::alloc_string;
use vstd::prelude::*;

verus! {

/// Why generation aborted. Errors are fatal for the current compilation:
/// no partial unit is returned.
#[derive(Debug)]
pub enum CompileError {
    /// An invocation's mangled name has no declaration in the unit.
    UnresolvedSymbol(String),
    /// A top-level or argument shape with no lowering rule.
    UnsupportedExpression,
}

/// Whether every argument of an invocation has a lowering rule: only string
/// literals do.
pub open spec fn args_lowerable(args: Seq<Expression>) -> bool {
    forall|i: int| 0 <= i < args.len() ==> args[i] is StringLiteral
}

/// The literal contents of a sequence of string-literal arguments.
pub open spec fn literal_values(args: Seq<Expression>) -> Seq<Seq<char>> {
    Seq::new(args.len(), |i: int| args[i]->StringLiteral_0@)
}

/// The body of the synthesized entry point for an invocation of `name` on
/// string literals `lits`: one materialization per argument, the call, and
/// a return of constant 0.
pub open spec fn main_body(name: Seq<char>, lits: Seq<Seq<char>>) -> Seq<InstrS> {
    Seq::new(lits.len(), |i: int| InstrS::AllocString { var: "str"@, data: lits[i] }) + seq![
        InstrS::Call {
            callee: mangled(name),
            args: Seq::new(lits.len(), |i: int| Operand::Local(i as usize)),
        },
        InstrS::Ret(Some(Operand::ConstI32(0))),
    ]
}

/// The synthesized entry point: a zero-argument function `main` returning a
/// signed 32-bit value.
pub open spec fn main_decl(name: Seq<char>, lits: Seq<Seq<char>>) -> FnDeclS {
    FnDeclS {
        name: MAIN@,
        params: Seq::empty(),
        ret: Ty::I32,
        variadic: false,
        linkage: Linkage::Defined,
        body: main_body(name, lits),
    }
}

/// The unit that successful generation of an invocation of `name` on
/// arguments `args` returns, on top of the pre-populated unit `pre`.
pub open spec fn compiled_unit(pre: UnitS, name: Seq<char>, args: Seq<Expression>) -> UnitS {
    UnitS { functions: pre.functions.push(main_decl(name, literal_values(args))) }
}

/// When generation of an invocation of `name` on `args` against `pre`
/// succeeds: the mangled name is declared and every argument is a string
/// literal.
pub open spec fn generation_succeeds(pre: UnitS, name: Seq<char>, args: Seq<Expression>) -> bool {
    &&& pre.contains_fn(mangled(name))
    &&& args_lowerable(args)
}

/// One compilation: owns the pre-populated unit, consumes it to produce the
/// completed unit. No state persists across compilations.
pub struct Compiler {
    pub unit: Unit,
}

impl Compiler {
    /// Take ownership of the unit that generation will target.
    pub fn new(unit: Unit) -> (c: Compiler)
        ensures
            c.unit@ == unit@,
    {
        Compiler { unit }
    }

    /// Generate code for `program`: synthesize the entry point, lower the
    /// expression into it, and return the completed unit. On any error the
    /// compilation aborts and no unit — partial or otherwise — is returned.
    #[verifier::loop_isolation(false)]
    pub fn compile(self, program: &Expression) -> (r: Result<Unit, CompileError>)
        requires
            (*program) matches Expression::Invocation(_, args) ==> args@.len() < usize::MAX,
        ensures
            (*program) is StringLiteral ==> (r matches Err(e) && e is UnsupportedExpression),
            (*program) matches Expression::Invocation(name, args) ==> (r is Ok
                <==> generation_succeeds(self.unit@, name@, args@)),
            (*program) matches Expression::Invocation(name, args) ==> (r matches Ok(u) ==> u@
                =~~= compiled_unit(self.unit@, name@, args@)),
            (*program) matches Expression::Invocation(name, args) ==> (!self.unit@.contains_fn(
                mangled(name@),
            ) ==> (r matches Err(e) && e matches CompileError::UnresolvedSymbol(n) && n@
                == name@)),
            (*program) matches Expression::Invocation(name, args) ==> ((self.unit@.contains_fn(
                mangled(name@),
            ) && !args_lowerable(args@)) ==> (r matches Err(e) && e is UnsupportedExpression)),
    {
        match program {
            Expression::StringLiteral(_) => Err(CompileError::UnsupportedExpression),
            Expression::Invocation(name, args) => {
                let fcn_name = mangle(name);
                if self.unit.get_function(&fcn_name).is_none() {
                    return Err(CompileError::UnresolvedSymbol(name.clone()));
                }
                let ghost lits = literal_values(args@);
                let mut b = Builder::new();
                let mut arg_ops: Vec<Operand> = Vec::new();
                let mut i: usize = 0;
                while i < args.len()
                    invariant
                        i <= args@.len(),
                        lits == literal_values(args@),
                        b.wf(),
                        b@.len() == i,
                        forall|j: int| 0 <= j < i ==> args@[j] is StringLiteral,
                        b@ =~= Seq::new(
                            i as nat,
                            |j: int| InstrS::AllocString { var: "str"@, data: lits[j] },
                        ),
                        arg_ops@ =~= Seq::new(i as nat, |j: int| Operand::Local(j as usize)),
                        crate::ir::locals_before(b@, i as int) == i,
                    decreases args@.len() - i,
                {
                    match &args[i] {
                        Expression::Invocation(_, _) => {
                            proof {
                                assert(!(args@[i as int] is StringLiteral));
                                assert(!args_lowerable(args@));
                            }
                            return Err(CompileError::UnsupportedExpression);
                        },
                        Expression::StringLiteral(lit) => {
                            let ghost pre_b = b@;
                            let op = alloc_string(lit.as_str(), "str", &mut b);
                            proof {
                                assert(crate::ir::locals_before(b@, (i + 1) as int)
                                    == crate::ir::locals_before(b@, i as int) + 1);
                                crate::ir::lemma_locals_before_prefix(b@, pre_b, i as int);
                                assert(args@[i as int]->StringLiteral_0@ == lit@);
                            }
                            arg_ops.push(op);
                        },
                    }
                    i = i + 1;
                }
                let ghost allocs = b@;
                b.build_call(fcn_name, arg_ops);
                b.build_ret(Some(Operand::ConstI32(0)));
                let ghost body = b@;
                let decl = FnDecl {
                    name: MAIN.to_owned(),
                    params: Vec::new(),
                    ret: Ty::I32,
                    variadic: false,
                    linkage: Linkage::Defined,
                    body: b.finish(),
                };
                proof {
                    assert(body =~= main_body(name@, lits));
                    assert(decl@ =~~= main_decl(name@, lits));
                }
                let mut unit = self.unit;
                unit.add_function(decl);
                Ok(unit)
            },
        }
    }
}

/// Every unit that generation returns passes structural verification: on a
/// valid pre-populated unit that does not yet declare the entry point, the
/// generator never emits an unterminated block or an unresolved reference.
pub proof fn lemma_generated_unit_passes_verification(
    pre: UnitS,
    name: Seq<char>,
    args: Seq<Expression>,
)
    requires
        pre.valid(),
        !pre.contains_fn(MAIN@),
        generation_succeeds(pre, name, args),
    ensures
        compiled_unit(pre, name, args).valid(),
{
    let lits = literal_values(args);
    let md = main_decl(name, lits);
    let u2 = compiled_unit(pre, name, args);
    let n = lits.len() as int;
    assert(u2.functions =~= pre.functions.push(md));
    assert forall|i: int, j: int|
        0 <= i < j < u2.functions.len() implies u2.functions[i].name
        != u2.functions[j].name by {
        if j == u2.functions.len() - 1 {
            if u2.functions[i].name == MAIN@ {
                assert(pre.contains_fn(MAIN@));
            }
        }
    }
    assert forall|i: int| 0 <= i < u2.functions.len() implies #[trigger] u2.functions[i].valid_in(
        u2,
    ) by {
        if i < pre.functions.len() {
            assert(pre.functions[i].valid_in(pre));
            crate::ir::lemma_valid_in_push(pre.functions[i], pre, md);
        } else {
            assert(u2.functions[i] == md);
            lemma_main_decl_valid_in(pre, name, args, u2);
        }
    }
}

/// The synthesized entry point is structurally valid in any unit that
/// declares the invocation's mangled name.
proof fn lemma_main_decl_valid_in(pre: UnitS, name: Seq<char>, args: Seq<Expression>, u2: UnitS)
    requires
        generation_succeeds(pre, name, args),
        u2.functions =~= pre.functions.push(main_decl(name, literal_values(args))),
    ensures
        main_decl(name, literal_values(args)).valid_in(u2),
{
    let lits = literal_values(args);
    let md = main_decl(name, lits);
    let n = lits.len() as int;
    assert(md.body.len() == n + 2);
    assert(md.body.last() == InstrS::Ret(Some(Operand::ConstI32(0))));
    assert forall|i: int| 0 <= i < md.body.len() - 1 implies !(
    #[trigger] md.body[i]).is_terminator() by {
        if i < n {
            assert(md.body[i] == (InstrS::AllocString { var: "str"@, data: lits[i] }));
        } else {
            assert(md.body[i] == (InstrS::Call {
                callee: mangled(name),
                args: Seq::new(lits.len(), |j: int| Operand::Local(j as usize)),
            }));
        }
    }
    assert(md.terminated());
    assert forall|i: int| 0 <= i < md.body.len() implies md.instr_ok(u2, i) by {
        if i < n {
            assert(md.body[i] == (InstrS::AllocString { var: "str"@, data: lits[i] }));
        } else if i == n {
            let cargs = Seq::new(lits.len(), |j: int| Operand::Local(j as usize));
            assert(md.body[i] == (InstrS::Call { callee: mangled(name), args: cargs }));
            let w = choose|k: int|
                0 <= k < pre.functions.len() && #[trigger] pre.functions[k].name == mangled(name);
            assert(u2.functions[w].name == mangled(name));
            assert(u2.contains_fn(mangled(name)));
            assert forall|k: int| 0 <= k < n ==> (#[trigger] md.body[k]).yields() by {}
            crate::ir::lemma_locals_before_all_yield(md.body, n);
            assert forall|k: int| 0 <= k < cargs.len() implies crate::ir::operand_ok(
                #[trigger] cargs[k],
                md.body,
                i,
                md.params.len() as int,
            ) by {
                assert(cargs[k] == Operand::Local(k as usize));
            }
        } else {
            assert(md.body[i] == InstrS::Ret(Some(Operand::ConstI32(0))));
        }
    }
    assert(md.resolved_in(u2));
}

} // verus!
