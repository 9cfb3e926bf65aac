//! The fixed symbol names that the registry and the runtime support library
//! declare, scoped here so each unit's namespace stays self-contained.

use vstd::prelude::*;

verus! {

/// Symbol of the C runtime's print-to-stdout function.
pub const PRINTF: &'static str = "printf";

/// Symbol of the C runtime's print-to-stream function.
pub const FPRINTF: &'static str = "fprintf";

/// Symbol of the C runtime's flush-stream function.
pub const FFLUSH: &'static str = "fflush";

/// Symbol of the C runtime's open-stream function.
pub const FOPEN: &'static str = "fopen";

/// The namespace tag prefixed to every runtime support symbol.
pub const RUNTIME_PREFIX: &'static str = "FAANG_";

/// Symbol of the runtime support library's `println`.
pub const PRINTLN: &'static str = "FAANG_println";

/// Symbol of the synthesized entry point.
pub const MAIN: &'static str = "main";

/// The mangled runtime support symbol for the source-level name `name`.
pub open spec fn mangled(name: Seq<char>) -> Seq<char> {
    RUNTIME_PREFIX@ + name
}

/// Mangle a source-level call name to its runtime support symbol.
pub fn mangle(name: &String) -> (r: String)
    ensures
        r@ == mangled(name@),
{
    let mut r = RUNTIME_PREFIX.to_owned();
    r.append(name.as_str());
    r
}

/// `PRINTLN` is exactly the mangled form of the source name `println`, and
/// the four external symbols lie outside the mangled namespace.
pub proof fn lemma_symbols()
    ensures
        PRINTLN@ == mangled("println"@),
        PRINTF@ != PRINTLN@,
        FPRINTF@ != PRINTLN@,
        FFLUSH@ != PRINTLN@,
        FOPEN@ != PRINTLN@,
        MAIN@ != PRINTLN@,
        PRINTF@ != FPRINTF@,
        PRINTF@ != FFLUSH@,
        PRINTF@ != FOPEN@,
        PRINTF@ != MAIN@,
        FPRINTF@ != FFLUSH@,
        FPRINTF@ != FOPEN@,
        FPRINTF@ != MAIN@,
        FFLUSH@ != FOPEN@,
        FFLUSH@ != MAIN@,
        FOPEN@ != MAIN@,
{
    reveal_strlit("printf");
    reveal_strlit("fprintf");
    reveal_strlit("fflush");
    reveal_strlit("fopen");
    reveal_strlit("FAANG_");
    reveal_strlit("FAANG_println");
    reveal_strlit("println");
    reveal_strlit("main");
    assert(PRINTLN@ =~= RUNTIME_PREFIX@ + "println"@);
    assert(PRINTF@.len() == 6);
    assert(FPRINTF@.len() == 7);
    assert(FFLUSH@.len() == 6);
    assert(FOPEN@.len() == 5);
    assert(MAIN@.len() == 4);
    assert(PRINTLN@.len() == 13);
    assert(PRINTF@[0] == 'p' && FFLUSH@[0] == 'f');
}

} // verus!
