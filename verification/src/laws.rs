//! End-to-end statements about generated programs: what a compiled
//! invocation of `println` writes to its configured sink when it runs.

use crate::compiler::main_decl;
use crate::external::{fflush_decl, fopen_decl, fprintf_decl, printf_decl};
use crate::interp::{
    call_fn, eval_op, external_call, lemma_call_defined, lemma_call_external, lemma_eval_one,
    lemma_step_alloc, lemma_step_call, lemma_step_ret, lemma_upto_nul_buffer, run_body,
    run_main_spec, sink_contents, upto_nul, EventS, SinkS, StepS, ValS,
};
use crate::ir::{lemma_decl_of, InstrS, Operand, UnitS};
use crate::stdlib::println_decl;
use crate::symbols::{lemma_symbols, mangled, MAIN, PRINTF, PRINTLN};
use crate::util::buffer_of;
use vstd::prelude::*;

verus! {

/// The production environment: the four external features, then the
/// runtime support library, as the compilation path prepares them.
pub open spec fn production_unit() -> UnitS {
    UnitS {
        functions: seq![
            printf_decl(),
            fprintf_decl(),
            fopen_decl(),
            fflush_decl(),
            println_decl(),
        ],
    }
}

/// The declared print feature of `u` sends any single terminated buffer to
/// `sink` at call depth `fuel` and returns 0.
pub open spec fn printf_writes_to(u: UnitS, sink: SinkS, fuel: nat) -> bool {
    forall|args: Seq<ValS>|
        (args.len() == 1 && args[0] is Buf) ==> #[trigger] call_fn(u, PRINTF@, args, fuel)
            == (StepS::Done {
            events: seq![EventS { sink, data: upto_nul(args[0]->Buf_0) }],
            ret: ValS::I32(0),
        })
}

/// Running the body of `println` on a terminator-free text writes the text,
/// then one newline, to wherever the declared print feature sends it, and
/// returns.
proof fn lemma_println_body(u: UnitS, s: Seq<char>, fuel: nat, sink: SinkS)
    requires
        printf_writes_to(u, sink, fuel),
        forall|i: int| 0 <= i < s.len() ==> s[i] != '\u{0}',
    ensures
        run_body(u, seq![ValS::Buf(buffer_of(s))], println_decl().body, Seq::empty(), fuel)
            == (StepS::Done {
            events: seq![EventS { sink, data: s }, EventS { sink, data: "\n"@ }],
            ret: ValS::Void,
        }),
{
    reveal_strlit("\n");
    assert("\n"@ =~= seq!['\n']);
    assert(forall|i: int| 0 <= i < "\n"@.len() ==> "\n"@[i] != '\u{0}');
    lemma_upto_nul_buffer(s);
    lemma_upto_nul_buffer("\n"@);
    let bs = buffer_of(s);
    let bn = buffer_of("\n"@);
    let params = seq![ValS::Buf(bs)];
    let body = println_decl().body;
    let b1 = body.drop_first();
    let b2 = b1.drop_first();
    let b3 = b2.drop_first();
    assert(body[0] == (InstrS::Call { callee: PRINTF@, args: seq![Operand::Param(0)] }));
    assert(b1[0] == (InstrS::AllocString { var: "format"@, data: "\n"@ }));
    assert(b2[0] == (InstrS::Call { callee: PRINTF@, args: seq![Operand::Local(1)] }));
    assert(b3[0] == InstrS::Ret(None));
    let l0 = Seq::<ValS>::empty();
    let l1 = l0.push(ValS::I32(0));
    let l2 = l1.push(ValS::Buf(bn));
    let l3 = l2.push(ValS::I32(0));
    let ev1 = EventS { sink, data: s };
    let ev2 = EventS { sink, data: "\n"@ };
    // the return, last
    lemma_step_ret(u, params, b3, l3, fuel, None, ValS::Void);
    // the newline print before it
    assert(eval_op(Operand::Local(1), params, l2) == Some(ValS::Buf(bn)));
    lemma_eval_one(Operand::Local(1), params, l2, ValS::Buf(bn));
    assert(call_fn(u, PRINTF@, seq![ValS::Buf(bn)], fuel) == (StepS::Done {
        events: seq![ev2],
        ret: ValS::I32(0),
    })) by {
        assert(seq![ValS::Buf(bn)].len() == 1 && seq![ValS::Buf(bn)][0] is Buf);
        assert(upto_nul(bn) == "\n"@);
        assert(EventS { sink, data: upto_nul(seq![ValS::Buf(bn)][0]->Buf_0) } == ev2);
    }
    lemma_step_call(
        u, params, b2, l2, fuel, PRINTF@, seq![Operand::Local(1)], seq![ValS::Buf(bn)],
        seq![ev2], ValS::I32(0), Seq::<EventS>::empty(), ValS::Void,
    );
    assert(seq![ev2] + Seq::<EventS>::empty() =~= seq![ev2]);
    assert(run_body(u, params, b2, l2, fuel) == (StepS::Done {
        events: seq![ev2],
        ret: ValS::Void,
    }));
    // the newline materialization before that
    lemma_step_alloc(u, params, b1, l1, fuel, "format"@, "\n"@);
    assert(run_body(u, params, b1, l1, fuel) == (StepS::Done {
        events: seq![ev2],
        ret: ValS::Void,
    }));
    // the print of the text itself, first
    assert(eval_op(Operand::Param(0), params, l0) == Some(ValS::Buf(bs)));
    lemma_eval_one(Operand::Param(0), params, l0, ValS::Buf(bs));
    assert(call_fn(u, PRINTF@, seq![ValS::Buf(bs)], fuel) == (StepS::Done {
        events: seq![ev1],
        ret: ValS::I32(0),
    })) by {
        assert(seq![ValS::Buf(bs)].len() == 1 && seq![ValS::Buf(bs)][0] is Buf);
        assert(upto_nul(bs) == s);
        assert(EventS { sink, data: upto_nul(seq![ValS::Buf(bs)][0]->Buf_0) } == ev1);
    }
    lemma_step_call(
        u, params, body, l0, fuel, PRINTF@, seq![Operand::Param(0)], seq![ValS::Buf(bs)],
        seq![ev1], ValS::I32(0), seq![ev2], ValS::Void,
    );
    assert(seq![ev1] + seq![ev2] =~= seq![ev1, ev2]);
}

/// The shape of the entry point generated for `println` on one literal.
proof fn lemma_main_body_shape(s: Seq<char>)
    ensures
        main_decl("println"@, seq![s]).body =~= seq![
            InstrS::AllocString { var: "str"@, data: s },
            InstrS::Call { callee: PRINTLN@, args: seq![Operand::Local(0)] },
            InstrS::Ret(Some(Operand::ConstI32(0))),
        ],
{
    lemma_symbols();
    assert(mangled("println"@) == PRINTLN@);
    assert(Seq::new(1nat, |i: int| Operand::Local(i as usize)) =~= seq![Operand::Local(0)]);
    assert(Seq::new(
        1nat,
        |i: int| InstrS::AllocString { var: "str"@, data: seq![s][i] },
    ) =~= seq![InstrS::AllocString { var: "str"@, data: s }]);
}

/// Calling the runtime support `println` on one terminator-free buffer:
/// the text and one newline go to the print feature's sink.
proof fn lemma_println_call(u: UnitS, s: Seq<char>, fuel: nat, sink: SinkS)
    requires
        fuel >= 1,
        forall|i: int| 0 <= i < s.len() ==> s[i] != '\u{0}',
        u.contains_fn(PRINTLN@),
        u.decl_of(PRINTLN@) == println_decl(),
        printf_writes_to(u, sink, (fuel - 1) as nat),
    ensures
        call_fn(u, PRINTLN@, seq![ValS::Buf(buffer_of(s))], fuel) == (StepS::Done {
            events: seq![EventS { sink, data: s }, EventS { sink, data: "\n"@ }],
            ret: ValS::Void,
        }),
{
    lemma_call_defined(u, PRINTLN@, seq![ValS::Buf(buffer_of(s))], fuel);
    lemma_println_body(u, s, (fuel - 1) as nat, sink);
}

/// The generated entry point's body, run on no arguments: materialize the
/// literal, call the runtime support entry, return 0.
proof fn lemma_main_body_runs(u: UnitS, s: Seq<char>, fuel: nat, es: Seq<EventS>)
    requires
        call_fn(u, PRINTLN@, seq![ValS::Buf(buffer_of(s))], fuel) == (StepS::Done {
            events: es,
            ret: ValS::Void,
        }),
    ensures
        run_body(u, Seq::empty(), main_decl("println"@, seq![s]).body, Seq::empty(), fuel)
            == (StepS::Done { events: es, ret: ValS::I32(0) }),
{
    let body = main_decl("println"@, seq![s]).body;
    lemma_main_body_shape(s);
    let params = Seq::<ValS>::empty();
    let b1 = body.drop_first();
    let b2 = b1.drop_first();
    assert(body[0] == (InstrS::AllocString { var: "str"@, data: s }));
    assert(b1[0] == (InstrS::Call { callee: PRINTLN@, args: seq![Operand::Local(0)] }));
    assert(b2[0] == InstrS::Ret(Some(Operand::ConstI32(0))));
    let bs = buffer_of(s);
    let l1 = Seq::<ValS>::empty().push(ValS::Buf(bs));
    let l2 = l1.push(ValS::Void);
    // the return of constant 0, last
    assert(eval_op(Operand::ConstI32(0), params, l2) == Some(ValS::I32(0)));
    lemma_step_ret(u, params, b2, l2, fuel, Some(Operand::ConstI32(0)), ValS::I32(0));
    // the call of the runtime support entry
    assert(eval_op(Operand::Local(0), params, l1) == Some(ValS::Buf(bs)));
    lemma_eval_one(Operand::Local(0), params, l1, ValS::Buf(bs));
    lemma_step_call(
        u, params, b1, l1, fuel, PRINTLN@, seq![Operand::Local(0)], seq![ValS::Buf(bs)],
        es, ValS::Void, Seq::<EventS>::empty(), ValS::I32(0),
    );
    assert(es + Seq::<EventS>::empty() =~= es);
    assert(run_body(u, params, b1, l1, fuel) == (StepS::Done { events: es, ret: ValS::I32(0) }));
    // the materialization of the literal, first
    lemma_step_alloc(u, params, body, Seq::empty(), fuel, "str"@, s);
}

/// Running the synthesized entry point of a unit whose `main` invokes
/// `println` on the literal `s`: whatever that call writes is written, and
/// `main` returns 0.
proof fn lemma_run_main(u: UnitS, s: Seq<char>, fuel: nat, es: Seq<EventS>)
    requires
        fuel >= 1,
        u.contains_fn(MAIN@),
        u.decl_of(MAIN@) == main_decl("println"@, seq![s]),
        call_fn(u, PRINTLN@, seq![ValS::Buf(buffer_of(s))], (fuel - 1) as nat) == (StepS::Done {
            events: es,
            ret: ValS::Void,
        }),
    ensures
        run_main_spec(u, fuel) == (StepS::Done { events: es, ret: ValS::I32(0) }),
{
    lemma_call_defined(u, MAIN@, Seq::empty(), fuel);
    lemma_main_body_runs(u, s, (fuel - 1) as nat, es);
}

/// What two same-sink writes leave in that sink, and in any other.
proof fn lemma_sink_contents_two(e1: EventS, e2: EventS, sink: SinkS, other: SinkS)
    requires
        e1.sink == sink,
        e2.sink == sink,
        other != sink,
    ensures
        sink_contents(seq![e1, e2], sink) =~= e1.data + e2.data,
        sink_contents(seq![e1, e2], other) =~= Seq::<char>::empty(),
{
    let es = seq![e1, e2];
    let es1 = es.drop_first();
    let es2 = es1.drop_first();
    assert(es1[0] == e2);
    assert(es2.len() == 0);
    assert(sink_contents(es1, sink) =~= e2.data + sink_contents(es2, sink));
    assert(sink_contents(es, sink) =~= e1.data + sink_contents(es1, sink));
    assert(sink_contents(es1, other) =~= sink_contents(es2, other));
    assert(sink_contents(es, other) =~= sink_contents(es1, other));
}

/// For any terminator-free string `s` passed as the sole argument to
/// `println`, the generated program writes exactly `s` followed by one
/// newline, and nothing else, to standard output, and `main` returns 0.
#[verifier::rlimit(50)]
pub proof fn lemma_println_writes_stdout(s: Seq<char>, fuel: nat)
    requires
        fuel >= 2,
        forall|i: int| 0 <= i < s.len() ==> s[i] != '\u{0}',
    ensures
        ({
            let u = UnitS {
                functions: production_unit().functions.push(main_decl("println"@, seq![s])),
            };
            &&& run_main_spec(u, fuel) == (StepS::Done {
                events: seq![
                    EventS { sink: SinkS::Stdout, data: s },
                    EventS { sink: SinkS::Stdout, data: "\n"@ },
                ],
                ret: ValS::I32(0),
            })
            &&& sink_contents(run_main_spec(u, fuel)->Done_events, SinkS::Stdout) =~= s + "\n"@
        }),
{
    lemma_symbols();
    let u = UnitS { functions: production_unit().functions.push(main_decl("println"@, seq![s])) };
    lemma_decl_of(u, MAIN@, 5);
    lemma_decl_of(u, PRINTLN@, 4);
    lemma_decl_of(u, PRINTF@, 0);
    assert(printf_writes_to(u, SinkS::Stdout, (fuel - 2) as nat)) by {
        assert forall|args: Seq<ValS>| (args.len() == 1 && args[0] is Buf) implies #[trigger]
        call_fn(u, PRINTF@, args, (fuel - 2) as nat) == (StepS::Done {
            events: seq![EventS { sink: SinkS::Stdout, data: upto_nul(args[0]->Buf_0) }],
            ret: ValS::I32(0),
        }) by {
            lemma_call_external(u, PRINTF@, args, (fuel - 2) as nat);
            assert(external_call(PRINTF@, args) == (StepS::Done {
                events: seq![EventS { sink: SinkS::Stdout, data: upto_nul(args[0]->Buf_0) }],
                ret: ValS::I32(0),
            }));
        }
    }
    let ev1 = EventS { sink: SinkS::Stdout, data: s };
    let ev2 = EventS { sink: SinkS::Stdout, data: "\n"@ };
    lemma_println_call(u, s, (fuel - 1) as nat, SinkS::Stdout);
    lemma_run_main(u, s, fuel, seq![ev1, ev2]);
    lemma_sink_contents_two(ev1, ev2, SinkS::Stdout, SinkS::File(Seq::empty()));
}

} // verus!