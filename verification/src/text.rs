//! Building strings one character at a time.

use vstd::prelude::*;
use vstd::string::*;

verus! {

/// Appends the character at position `at` of the ASCII alphabet `table`.
pub(crate) fn push_symbol(out: &mut String, table: &str, at: usize)
    requires
        table.is_ascii(),
        at < table@.len() <= usize::MAX,
    ensures
        final(out)@ == old(out)@.push(table@[at as int]),
{
    let symbol: &str = table.substring_ascii(at, at + 1);
    assert(symbol@ =~= seq![table@[at as int]]);
    out.append(symbol);
    assert(final(out)@ =~= old(out)@.push(table@[at as int]));
}

} // verus!
