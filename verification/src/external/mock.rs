//! Test-mode variant of the registry: `printf` declared not as an external
//! symbol but as a defined function that appends to a caller-supplied file,
//! so production call sites can be redirected to an inspectable sink.

use crate::ir::{Builder, FnDecl, FnDeclS, InstrS, Linkage, Operand, Ty, Unit};
use crate::symbols::{FFLUSH, FOPEN, FPRINTF, PRINTF};
use crate::util::alloc_string;
use vstd::prelude::*;

verus! {

/// The defined `printf` that test mode declares: its body opens `path` in
/// append mode, forwards its format argument to `fprintf`, flushes, and
/// returns 0.
pub open spec fn mock_printf_decl(path: Seq<char>) -> FnDeclS {
    FnDeclS {
        name: PRINTF@,
        params: seq![Ty::BytePtr],
        ret: Ty::I32,
        variadic: true,
        linkage: Linkage::Defined,
        body: seq![
            InstrS::AllocString { var: "file_name"@, data: path },
            InstrS::AllocString { var: "mode"@, data: "a"@ },
            InstrS::Call { callee: FOPEN@, args: seq![Operand::Local(0), Operand::Local(1)] },
            InstrS::Call { callee: FPRINTF@, args: seq![Operand::Local(2), Operand::Param(0)] },
            InstrS::Call { callee: FFLUSH@, args: seq![Operand::Local(2)] },
            InstrS::Ret(Some(Operand::ConstI32(0))),
        ],
    }
}

/// Declare the mock `printf`, an adapter that appends to the file named
/// `file_name` through `fopen`, `fprintf` and `fflush`, which must already
/// be declared in the unit.
pub fn add_printf(file_name: &str, unit: &mut Unit)
    requires
        old(unit)@.contains_fn(FOPEN@),
        old(unit)@.contains_fn(FPRINTF@),
        old(unit)@.contains_fn(FFLUSH@),
    ensures
        final(unit)@.functions =~= old(unit)@.functions.push(mock_printf_decl(file_name@)),
{
    let mut b = Builder::new();
    let ghost s0 = b@;
    let file = alloc_string(file_name, "file_name", &mut b);
    let ghost s1 = b@;
    let mode = alloc_string("a", "mode", &mut b);
    let ghost s2 = b@;
    proof {
        assert(crate::ir::locals_before(s0, 0) == 0);
        assert(crate::ir::locals_before(s1, 0) == 0);
        assert(crate::ir::locals_before(s1, 1) == 1);
        assert(crate::ir::locals_before(s2, 0) == 0);
        assert(crate::ir::locals_before(s2, 1) == 1);
        assert(crate::ir::locals_before(s2, 2) == 2);
        assert(file == Operand::Local(0usize));
        assert(mode == Operand::Local(1usize));
    }
    let mut fopen_args: Vec<Operand> = Vec::new();
    fopen_args.push(file);
    fopen_args.push(mode);
    proof {
        assert(fopen_args@ =~= seq![Operand::Local(0), Operand::Local(1)]);
    }
    let stream = b.build_call(FOPEN.to_owned(), fopen_args);
    let ghost s3 = b@;
    proof {
        assert(crate::ir::locals_before(s3, 0) == 0);
        assert(crate::ir::locals_before(s3, 1) == 1);
        assert(crate::ir::locals_before(s3, 2) == 2);
        assert(crate::ir::locals_before(s3, 3) == 3);
        assert(stream == Operand::Local(2usize));
    }
    let mut fprintf_args: Vec<Operand> = Vec::new();
    fprintf_args.push(stream);
    fprintf_args.push(Operand::Param(0));
    proof {
        assert(fprintf_args@ =~= seq![Operand::Local(2), Operand::Param(0)]);
    }
    b.build_call(FPRINTF.to_owned(), fprintf_args);
    let mut fflush_args: Vec<Operand> = Vec::new();
    fflush_args.push(stream);
    proof {
        assert(fflush_args@ =~= seq![Operand::Local(2)]);
    }
    b.build_call(FFLUSH.to_owned(), fflush_args);
    b.build_ret(Some(Operand::ConstI32(0)));
    let ghost body = b@;
    let mut params: Vec<Ty> = Vec::new();
    params.push(Ty::BytePtr);
    let decl = FnDecl {
        name: PRINTF.to_owned(),
        params,
        ret: Ty::I32,
        variadic: true,
        linkage: Linkage::Defined,
        body: b.finish(),
    };
    proof {
        assert(decl@.body =~= body);
        assert(body =~= mock_printf_decl(file_name@).body);
        assert(decl@ =~= mock_printf_decl(file_name@));
    }
    unit.add_function(decl);
}

} // verus!
