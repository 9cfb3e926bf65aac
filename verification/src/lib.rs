//! The native-code generation backend of a minimal language compiler:
//! given a validated expression tree, it emits low-level instructions wired
//! to pre-declared runtime entry points, and returns a unit that passes
//! structural verification before it is serialized or executed.

pub mod ast;
pub mod codec;
pub mod compiler;
pub mod external;
pub mod interp;
pub mod ir;
pub mod laws;
pub mod stdlib;
pub mod symbols;
pub mod util;
