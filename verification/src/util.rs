//! The string materializer: turns a string into an addressable,
//! terminator-padded buffer inside the function body under construction.

use crate::ir::{Builder, InstrS, Operand};
use vstd::prelude::*;

verus! {

/// The contents of the buffer that materializing `data` allocates: the
/// string's characters followed by exactly one terminator.
pub open spec fn buffer_of(data: Seq<char>) -> Seq<char> {
    data.push('\u{0}')
}

/// Materialize `value`: emit one allocation-and-store of a buffer holding
/// `value` followed by one terminator, and yield its address, usable at any
/// call site of the enclosing body. Empty input still allocates exactly one
/// terminator byte.
pub fn alloc_string(value: &str, variable_name: &str, builder: &mut Builder) -> (r: Operand)
    requires
        old(builder).wf(),
        old(builder)@.len() < usize::MAX,
    ensures
        final(builder)@ =~= old(builder)@.push(
            InstrS::AllocString { var: variable_name@, data: value@ },
        ),
        final(builder).wf(),
        r == Operand::Local(
            crate::ir::locals_before(old(builder)@, old(builder)@.len() as int) as usize,
        ),
{
    builder.build_alloc_string(value.to_owned(), variable_name.to_owned())
}

/// The buffer a materialized string owns holds every character of the
/// source string, then the terminator: one more slot than the string's
/// length, and for the empty string the terminator alone.
pub proof fn lemma_buffer_shape(data: Seq<char>)
    ensures
        buffer_of(data).len() == data.len() + 1,
        forall|i: int| 0 <= i < data.len() ==> buffer_of(data)[i] == data[i],
        buffer_of(data).last() == '\u{0}',
        data.len() == 0 ==> buffer_of(data) =~= seq!['\u{0}'],
{
}

} // verus!
