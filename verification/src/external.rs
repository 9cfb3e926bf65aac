//! The external function registry: declares foreign-linkage signatures for
//! the closed set of runtime features callable from generated code.

pub mod mock;

use crate::ir::{FnDecl, FnDeclS, Linkage, Ty, Unit};
use crate::symbols::{FFLUSH, FOPEN, FPRINTF, PRINTF};
use vstd::prelude::*;

verus! {

/// The closed set of named features the registry can declare.
#[allow(non_camel_case_types)]
#[derive(Clone, Copy, Debug, PartialEq, Eq, Structural)]
pub enum Features {
    PRINTF,
    FPRINTF,
    FFLUSH,
    FOPEN,
}

/// The external declaration of print-to-stdout-equivalent:
/// `printf(format: byte pointer, variadic) -> i32`.
pub open spec fn printf_decl() -> FnDeclS {
    FnDeclS {
        name: PRINTF@,
        params: seq![Ty::BytePtr],
        ret: Ty::I32,
        variadic: true,
        linkage: Linkage::External,
        body: Seq::empty(),
    }
}

/// The external declaration of print-to-stream:
/// `fprintf(stream: opaque pointer, format: byte pointer, variadic) -> i32`.
pub open spec fn fprintf_decl() -> FnDeclS {
    FnDeclS {
        name: FPRINTF@,
        params: seq![Ty::BytePtr, Ty::BytePtr],
        ret: Ty::I32,
        variadic: true,
        linkage: Linkage::External,
        body: Seq::empty(),
    }
}

/// The external declaration of open-stream:
/// `fopen(path: byte pointer, mode: byte pointer) -> opaque pointer`.
pub open spec fn fopen_decl() -> FnDeclS {
    FnDeclS {
        name: FOPEN@,
        params: seq![Ty::BytePtr, Ty::BytePtr],
        ret: Ty::BytePtr,
        variadic: false,
        linkage: Linkage::External,
        body: Seq::empty(),
    }
}

/// The external declaration of flush-stream:
/// `fflush(stream: opaque pointer) -> i32`.
pub open spec fn fflush_decl() -> FnDeclS {
    FnDeclS {
        name: FFLUSH@,
        params: seq![Ty::BytePtr],
        ret: Ty::I32,
        variadic: false,
        linkage: Linkage::External,
        body: Seq::empty(),
    }
}

/// The declaration that requesting `f` adds to the unit.
pub open spec fn feature_decl(f: Features) -> FnDeclS {
    match f {
        Features::PRINTF => printf_decl(),
        Features::FPRINTF => fprintf_decl(),
        Features::FFLUSH => fflush_decl(),
        Features::FOPEN => fopen_decl(),
    }
}

/// Declare each requested feature once, in order, with external linkage.
/// Nothing is de-duplicated: requesting a feature twice in one unit is a
/// caller error that verification reports.
pub fn add(features: &[Features], unit: &mut Unit)
    ensures
        final(unit)@.functions =~= old(unit)@.functions + Seq::new(
            features@.len(),
            |i: int| feature_decl(features@[i]),
        ),
{
    let ghost pre = unit@.functions;
    let mut i: usize = 0;
    while i < features.len()
        invariant
            i <= features@.len(),
            unit@.functions =~= pre + Seq::new(i as nat, |j: int| feature_decl(features@[j])),
        decreases features@.len() - i,
    {
        let ghost mid = unit@.functions;
        match features[i] {
            Features::PRINTF => add_printf(unit),
            Features::FPRINTF => add_fprintf(unit),
            Features::FFLUSH => add_fflush(unit),
            Features::FOPEN => add_fopen(unit),
        }
        proof {
            assert(unit@.functions =~= mid.push(feature_decl(features@[i as int])));
            assert(unit@.functions =~= pre + Seq::new(
                (i + 1) as nat,
                |j: int| feature_decl(features@[j]),
            ));
        }
        i = i + 1;
    }
}

/// Declare `printf` with external linkage.
fn add_printf(unit: &mut Unit)
    ensures
        final(unit)@.functions =~= old(unit)@.functions.push(printf_decl()),
{
    let mut params: Vec<Ty> = Vec::new();
    params.push(Ty::BytePtr);
    proof {
        assert(params@ =~= printf_decl().params);
    }
    let decl = FnDecl {
        name: PRINTF.to_owned(),
        params,
        ret: Ty::I32,
        variadic: true,
        linkage: Linkage::External,
        body: Vec::new(),
    };
    proof {
        assert(decl@ =~= printf_decl());
    }
    unit.add_function(decl);
}

/// Declare `fprintf` with external linkage.
fn add_fprintf(unit: &mut Unit)
    ensures
        final(unit)@.functions =~= old(unit)@.functions.push(fprintf_decl()),
{
    let mut params: Vec<Ty> = Vec::new();
    params.push(Ty::BytePtr);
    params.push(Ty::BytePtr);
    proof {
        assert(params@ =~= fprintf_decl().params);
    }
    let decl = FnDecl {
        name: FPRINTF.to_owned(),
        params,
        ret: Ty::I32,
        variadic: true,
        linkage: Linkage::External,
        body: Vec::new(),
    };
    proof {
        assert(decl@ =~= fprintf_decl());
    }
    unit.add_function(decl);
}

/// Declare `fopen` with external linkage. Its result is nullable and not
/// checked by callers.
fn add_fopen(unit: &mut Unit)
    ensures
        final(unit)@.functions =~= old(unit)@.functions.push(fopen_decl()),
{
    let mut params: Vec<Ty> = Vec::new();
    params.push(Ty::BytePtr);
    params.push(Ty::BytePtr);
    proof {
        assert(params@ =~= fopen_decl().params);
    }
    let decl = FnDecl {
        name: FOPEN.to_owned(),
        params,
        ret: Ty::BytePtr,
        variadic: false,
        linkage: Linkage::External,
        body: Vec::new(),
    };
    proof {
        assert(decl@ =~= fopen_decl());
    }
    unit.add_function(decl);
}

/// Declare `fflush` with external linkage.
fn add_fflush(unit: &mut Unit)
    ensures
        final(unit)@.functions =~= old(unit)@.functions.push(fflush_decl()),
{
    let mut params: Vec<Ty> = Vec::new();
    params.push(Ty::BytePtr);
    proof {
        assert(params@ =~= fflush_decl().params);
    }
    let decl = FnDecl {
        name: FFLUSH.to_owned(),
        params,
        ret: Ty::I32,
        variadic: false,
        linkage: Linkage::External,
        body: Vec::new(),
    };
    proof {
        assert(decl@ =~= fflush_decl());
    }
    unit.add_function(decl);
}

} // verus!
