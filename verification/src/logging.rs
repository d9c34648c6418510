//! Which log records are let through.

use vstd::prelude::*;
use vstd::string::StrSliceExecFns;

verus! {

/// Whether `text` begins with `prefix`.
pub fn starts_with(text: &str, prefix: &str) -> (found: bool)
    ensures
        found == prefix@.is_prefix_of(text@),
{
    let wanted = prefix.unicode_len();
    if text.unicode_len() < wanted {
        return false;
    }
    let mut i: usize = 0;
    while i < wanted
        invariant
            i <= wanted,
            wanted == prefix@.len(),
            wanted <= text@.len(),
            forall|j: int| 0 <= j < i ==> text@[j] == prefix@[j],
        decreases wanted - i,
    {
        if text.get_char(i) != prefix.get_char(i) {
            return false;
        }
        i += 1;
    }
    true
}

/// Whether a log record with this target is let through: the records of the
/// web framework, whose targets begin with `rocket` or are `_`, are not.
pub fn drop_rocket(target: &str) -> (kept: bool)
    ensures
        kept == !("rocket"@.is_prefix_of(target@) || target@ == "_"@),
{
    if starts_with(target, "rocket") {
        return false;
    }
    let anonymous = target.unicode_len() == 1 && starts_with(target, "_");
    proof {
        reveal_strlit("_");
        if anonymous {
            assert(target@ =~= "_"@);
        }
    }
    !anonymous
}

} // verus!
