//! Execution semantics for compiled units: what a unit writes to which sink
//! when its entry point runs. The four external features carry their C
//! meanings restricted to how generated code uses them; everything else is
//! interpreted from the declarations in the unit itself.

use crate::ir::{InstrS, Linkage, Operand, UnitS};
use crate::symbols::{FFLUSH, FOPEN, FPRINTF, MAIN, PRINTF};
use crate::util::buffer_of;
use vstd::prelude::*;

verus! {

/// A value a running program manipulates: the contents of a terminated
/// character buffer, a signed 32-bit integer, an open stream on a named
/// file, or nothing.
#[verifier::ext_equal]
pub ghost enum ValS {
    Buf(Seq<char>),
    I32(i32),
    Stream(Seq<char>),
    Void,
}

/// Where written output goes: the standard output stream, or a named file
/// opened in append mode.
#[verifier::ext_equal]
pub ghost enum SinkS {
    Stdout,
    File(Seq<char>),
}

/// One observable write of `data` to `sink`.
#[verifier::ext_equal]
pub ghost struct EventS {
    pub sink: SinkS,
    pub data: Seq<char>,
}

/// Why a run went wrong.
#[derive(Clone, Copy, Debug, PartialEq, Eq, Structural)]
pub enum RunError {
    /// A call named an undeclared symbol or an operand had no value.
    UnresolvedReference,
    /// An external function outside the registry's closed feature set, or
    /// one applied to values of the wrong shape.
    UnknownExternal,
    /// A body ran past its end without returning.
    Unterminated,
    /// The call depth bound was exhausted.
    OutOfFuel,
}

/// Outcome of running a body or a call: the writes it performed and the
/// value it returned, or the error it got stuck on.
#[verifier::ext_equal]
pub ghost enum StepS {
    Done { events: Seq<EventS>, ret: ValS },
    Stuck(RunError),
}

/// The position of the first terminator character in `s`, or `s.len()` when
/// there is none.
pub open spec fn first_nul(s: Seq<char>) -> int
    decreases s.len(),
{
    if s.len() == 0 {
        0
    } else if s[0] == '\u{0}' {
        0
    } else {
        1 + first_nul(s.drop_first())
    }
}

/// What printing a terminated buffer emits: the characters before its first
/// terminator.
pub open spec fn upto_nul(s: Seq<char>) -> Seq<char> {
    s.take(first_nul(s))
}

/// Printing the buffer of a terminator-free string emits exactly the
/// string.
pub proof fn lemma_upto_nul_buffer(data: Seq<char>)
    requires
        forall|i: int| 0 <= i < data.len() ==> data[i] != '\u{0}',
    ensures
        upto_nul(buffer_of(data)) =~= data,
    decreases data.len(),
{
    let b = buffer_of(data);
    assert(first_nul(b) == data.len()) by {
        lemma_first_nul_of(b, data.len() as int);
    }
}

/// When no terminator precedes position `k` and one stands at `k`, the
/// first terminator is at `k`.
pub proof fn lemma_first_nul_of(s: Seq<char>, k: int)
    requires
        0 <= k < s.len(),
        forall|i: int| 0 <= i < k ==> s[i] != '\u{0}',
        s[k] == '\u{0}',
    ensures
        first_nul(s) == k,
    decreases k,
{
    if k > 0 {
        lemma_first_nul_of(s.drop_first(), k - 1);
    }
}

/// The value an operand denotes, given the parameters and locals in scope.
pub open spec fn eval_op(op: Operand, params: Seq<ValS>, locals: Seq<ValS>) -> Option<ValS> {
    match op {
        Operand::Local(i) => if i < locals.len() {
            Some(locals[i as int])
        } else {
            None
        },
        Operand::Param(i) => if i < params.len() {
            Some(params[i as int])
        } else {
            None
        },
        Operand::ConstI32(c) => Some(ValS::I32(c)),
    }
}

/// The value inside an optional, when there is one.
pub open spec fn val_of(o: Option<ValS>) -> ValS {
    match o {
        Some(v) => v,
        None => ValS::Void,
    }
}

/// The values of a sequence of operands, or nothing if any fails to
/// resolve.
pub open spec fn eval_ops(args: Seq<Operand>, params: Seq<ValS>, locals: Seq<ValS>) -> Option<
    Seq<ValS>,
> {
    if forall|i: int| 0 <= i < args.len() ==> (#[trigger] eval_op(args[i], params, locals)) is Some {
        Some(Seq::new(args.len(), |i: int| val_of(eval_op(args[i], params, locals))))
    } else {
        None
    }
}

/// What a call of external feature `name` on `args` does: `printf` writes
/// its format string to standard output and returns 0; `fprintf` writes it
/// to its stream; `fopen` opens the named file as a stream; `fflush`
/// does nothing observable. Anything else is outside the closed feature
/// set.
pub open spec fn external_call(name: Seq<char>, args: Seq<ValS>) -> StepS {
    if name == PRINTF@ {
        if args.len() >= 1 && args[0] is Buf {
            StepS::Done {
                events: seq![EventS { sink: SinkS::Stdout, data: upto_nul(args[0]->Buf_0) }],
                ret: ValS::I32(0),
            }
        } else {
            StepS::Stuck(RunError::UnknownExternal)
        }
    } else if name == FPRINTF@ {
        if args.len() >= 2 && args[0] is Stream && args[1] is Buf {
            StepS::Done {
                events: seq![
                    EventS { sink: SinkS::File(args[0]->Stream_0), data: upto_nul(args[1]->Buf_0) },
                ],
                ret: ValS::I32(0),
            }
        } else {
            StepS::Stuck(RunError::UnknownExternal)
        }
    } else if name == FOPEN@ {
        if args.len() >= 1 && args[0] is Buf {
            StepS::Done { events: Seq::empty(), ret: ValS::Stream(upto_nul(args[0]->Buf_0)) }
        } else {
            StepS::Stuck(RunError::UnknownExternal)
        }
    } else if name == FFLUSH@ {
        if args.len() >= 1 && args[0] is Stream {
            StepS::Done { events: Seq::empty(), ret: ValS::I32(0) }
        } else {
            StepS::Stuck(RunError::UnknownExternal)
        }
    } else {
        StepS::Stuck(RunError::UnknownExternal)
    }
}

/// Run the remainder of a body: each instruction in order, accumulating
/// writes, until the return.
pub open spec fn run_body(
    u: UnitS,
    params: Seq<ValS>,
    body: Seq<InstrS>,
    locals: Seq<ValS>,
    fuel: nat,
) -> StepS
    decreases fuel, body.len(), 1int,
{
    if body.len() == 0 {
        StepS::Stuck(RunError::Unterminated)
    } else {
        match body[0] {
            InstrS::AllocString { var, data } => run_body(
                u,
                params,
                body.drop_first(),
                locals.push(ValS::Buf(buffer_of(data))),
                fuel,
            ),
            InstrS::Ret(op) => match op {
                None => StepS::Done { events: Seq::empty(), ret: ValS::Void },
                Some(o) => match eval_op(o, params, locals) {
                    Some(v) => StepS::Done { events: Seq::empty(), ret: v },
                    None => StepS::Stuck(RunError::UnresolvedReference),
                },
            },
            InstrS::Call { callee, args } => match eval_ops(args, params, locals) {
                None => StepS::Stuck(RunError::UnresolvedReference),
                Some(argvals) => match call_fn(u, callee, argvals, fuel) {
                    StepS::Stuck(e) => StepS::Stuck(e),
                    StepS::Done { events: es, ret: v } => match run_body(
                        u,
                        params,
                        body.drop_first(),
                        locals.push(v),
                        fuel,
                    ) {
                        StepS::Stuck(e) => StepS::Stuck(e),
                        StepS::Done { events: es2, ret: r } => StepS::Done {
                            events: es + es2,
                            ret: r,
                        },
                    },
                },
            },
        }
    }
}

/// Call the function declared under `callee`: an external one acts as the
/// feature of that name; a defined one runs its body on the arguments,
/// spending one unit of call depth.
pub open spec fn call_fn(u: UnitS, callee: Seq<char>, args: Seq<ValS>, fuel: nat) -> StepS
    decreases fuel, 0int, 0int,
{
    if !u.contains_fn(callee) {
        StepS::Stuck(RunError::UnresolvedReference)
    } else {
        let d = u.decl_of(callee);
        match d.linkage {
            Linkage::External => external_call(callee, args),
            Linkage::Defined => if fuel == 0 {
                StepS::Stuck(RunError::OutOfFuel)
            } else {
                run_body(u, args, d.body, Seq::empty(), (fuel - 1) as nat)
            },
        }
    }
}

/// What running the unit's entry point does.
pub open spec fn run_main_spec(u: UnitS, fuel: nat) -> StepS {
    call_fn(u, MAIN@, Seq::empty(), fuel)
}

/// One alloc step of a running body.
pub proof fn lemma_step_alloc(
    u: UnitS,
    params: Seq<ValS>,
    body: Seq<InstrS>,
    locals: Seq<ValS>,
    fuel: nat,
    var: Seq<char>,
    data: Seq<char>,
)
    requires
        body.len() > 0,
        body[0] == (InstrS::AllocString { var, data }),
    ensures
        run_body(u, params, body, locals, fuel) == run_body(
            u,
            params,
            body.drop_first(),
            locals.push(ValS::Buf(crate::util::buffer_of(data))),
            fuel,
        ),
{
}

/// One call step of a running body, when the call completes and the rest of
/// the body completes after it.
pub proof fn lemma_step_call(
    u: UnitS,
    params: Seq<ValS>,
    body: Seq<InstrS>,
    locals: Seq<ValS>,
    fuel: nat,
    callee: Seq<char>,
    ops: Seq<Operand>,
    argvals: Seq<ValS>,
    es: Seq<EventS>,
    v: ValS,
    es2: Seq<EventS>,
    r: ValS,
)
    requires
        body.len() > 0,
        body[0] == (InstrS::Call { callee, args: ops }),
        eval_ops(ops, params, locals) == Some(argvals),
        call_fn(u, callee, argvals, fuel) == (StepS::Done { events: es, ret: v }),
        run_body(u, params, body.drop_first(), locals.push(v), fuel) == (StepS::Done {
            events: es2,
            ret: r,
        }),
    ensures
        run_body(u, params, body, locals, fuel) == (StepS::Done { events: es + es2, ret: r }),
{
}

/// The return step of a running body.
pub proof fn lemma_step_ret(
    u: UnitS,
    params: Seq<ValS>,
    body: Seq<InstrS>,
    locals: Seq<ValS>,
    fuel: nat,
    op: Option<Operand>,
    v: ValS,
)
    requires
        body.len() > 0,
        body[0] == InstrS::Ret(op),
        match op {
            Some(o) => eval_op(o, params, locals) == Some(v),
            None => v == ValS::Void,
        },
    ensures
        run_body(u, params, body, locals, fuel) == (StepS::Done {
            events: Seq::<EventS>::empty(),
            ret: v,
        }),
{
}

/// Evaluating a single-operand argument list.
pub proof fn lemma_eval_one(op: Operand, params: Seq<ValS>, locals: Seq<ValS>, v: ValS)
    requires
        eval_op(op, params, locals) == Some(v),
    ensures
        eval_ops(seq![op], params, locals) == Some(seq![v]),
{
    let ops = seq![op];
    assert(ops[0] == op);
    assert(forall|i: int| 0 <= i < ops.len() ==> (#[trigger] eval_op(ops[i], params, locals)) is Some);
    assert(eval_ops(ops, params, locals)->Some_0 =~= seq![v]);
}

/// Calling a declared defined function runs its body on the arguments at
/// one less unit of call depth.
pub proof fn lemma_call_defined(u: UnitS, callee: Seq<char>, args: Seq<ValS>, fuel: nat)
    requires
        u.contains_fn(callee),
        u.decl_of(callee).linkage is Defined,
        fuel > 0,
    ensures
        call_fn(u, callee, args, fuel) == run_body(
            u,
            args,
            u.decl_of(callee).body,
            Seq::empty(),
            (fuel - 1) as nat,
        ),
{
}

/// Calling a declared external function acts as the feature of that name.
pub proof fn lemma_call_external(u: UnitS, callee: Seq<char>, args: Seq<ValS>, fuel: nat)
    requires
        u.contains_fn(callee),
        u.decl_of(callee).linkage is External,
    ensures
        call_fn(u, callee, args, fuel) == external_call(callee, args),
{
}

/// The bytes appended to `sink`, in order, over a run's writes.
pub open spec fn sink_contents(es: Seq<EventS>, sink: SinkS) -> Seq<char>
    decreases es.len(),
{
    if es.len() == 0 {
        Seq::empty()
    } else if es[0].sink == sink {
        es[0].data + sink_contents(es.drop_first(), sink)
    } else {
        sink_contents(es.drop_first(), sink)
    }
}

} // verus!
