//! The runtime support library: intrinsic functions whose bodies are
//! generated against the external registry, each under a namespaced symbol.

use crate::ir::{Builder, FnDecl, FnDeclS, InstrS, Linkage, Operand, Ty, Unit};
use crate::symbols::{PRINTF, PRINTLN};
use crate::util::alloc_string;
use vstd::prelude::*;

verus! {

/// The intrinsics the runtime support library can define.
#[allow(non_camel_case_types)]
#[derive(Clone, Copy, Debug, PartialEq, Eq, Structural)]
pub enum Features {
    PRINTLN,
}

/// The definition of `println(text: byte pointer) -> void`: print the text
/// through the registered print feature, then materialize one newline and
/// print it, then return.
pub open spec fn println_decl() -> FnDeclS {
    FnDeclS {
        name: PRINTLN@,
        params: seq![Ty::BytePtr],
        ret: Ty::Void,
        variadic: false,
        linkage: Linkage::Defined,
        body: seq![
            InstrS::Call { callee: PRINTF@, args: seq![Operand::Param(0)] },
            InstrS::AllocString { var: "format"@, data: "\n"@ },
            InstrS::Call { callee: PRINTF@, args: seq![Operand::Local(1)] },
            InstrS::Ret(None),
        ],
    }
}

/// The declaration that requesting `f` adds to the unit.
pub open spec fn feature_decl(f: Features) -> FnDeclS {
    match f {
        Features::PRINTLN => println_decl(),
    }
}

/// Define each requested intrinsic once, in order. The print feature must
/// already be declared: resolution is by lookup, not lazy declaration.
pub fn add(features: &[Features], unit: &mut Unit)
    requires
        old(unit)@.contains_fn(PRINTF@),
    ensures
        final(unit)@.functions =~= old(unit)@.functions + Seq::new(
            features@.len(),
            |i: int| feature_decl(features@[i]),
        ),
{
    let ghost pre = unit@.functions;
    let mut i: usize = 0;
    while i < features.len()
        invariant
            i <= features@.len(),
            unit@.contains_fn(PRINTF@),
            unit@.functions =~= pre + Seq::new(i as nat, |j: int| feature_decl(features@[j])),
        decreases features@.len() - i,
    {
        let ghost mid = unit@.functions;
        match features[i] {
            Features::PRINTLN => add_println(unit),
        }
        proof {
            assert(unit@.functions =~= mid.push(feature_decl(features@[i as int])));
            assert(unit@.functions =~= pre + Seq::new(
                (i + 1) as nat,
                |j: int| feature_decl(features@[j]),
            ));
            assert(unit@.contains_fn(PRINTF@)) by {
                let k = choose|k: int|
                    0 <= k < mid.len() && #[trigger] mid[k].name == PRINTF@;
                assert(unit@.functions[k].name == PRINTF@);
            }
        }
        i = i + 1;
    }
}

/// Define `FAANG_println` against the registered print feature.
fn add_println(unit: &mut Unit)
    requires
        old(unit)@.contains_fn(PRINTF@),
    ensures
        final(unit)@.functions =~= old(unit)@.functions.push(println_decl()),
{
    let mut b = Builder::new();
    let ghost s0 = b@;
    let mut text_args: Vec<Operand> = Vec::new();
    text_args.push(Operand::Param(0));
    proof {
        assert(text_args@ =~= seq![Operand::Param(0)]);
        assert(crate::ir::locals_before(s0, 0) == 0);
    }
    b.build_call(PRINTF.to_owned(), text_args);
    let ghost s1 = b@;
    let new_line = alloc_string("\n", "format", &mut b);
    let ghost s2 = b@;
    proof {
        assert(crate::ir::locals_before(s1, 0) == 0);
        assert(crate::ir::locals_before(s1, 1) == 1);
        assert(crate::ir::locals_before(s2, 0) == 0);
        assert(crate::ir::locals_before(s2, 1) == 1);
        assert(crate::ir::locals_before(s2, 2) == 2);
        assert(new_line == Operand::Local(1usize));
    }
    let mut nl_args: Vec<Operand> = Vec::new();
    nl_args.push(new_line);
    proof {
        assert(nl_args@ =~= seq![Operand::Local(1)]);
    }
    b.build_call(PRINTF.to_owned(), nl_args);
    b.build_ret(None);
    let ghost body = b@;
    let mut params: Vec<Ty> = Vec::new();
    params.push(Ty::BytePtr);
    let decl = FnDecl {
        name: PRINTLN.to_owned(),
        params,
        ret: Ty::Void,
        variadic: false,
        linkage: Linkage::Defined,
        body: b.finish(),
    };
    proof {
        assert(decl@.body =~= body);
        assert(body =~= println_decl().body);
        assert(decl@ =~= println_decl());
    }
    unit.add_function(decl);
}

} // verus!
