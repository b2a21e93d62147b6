use vstd::prelude::*;

verus! {

/// Whether a text holds the NUL character. Such a text cannot cross to the
/// engine, whose strings end at the first NUL.
pub open spec fn has_nul(text: Seq<char>) -> bool {
    text.contains('\0')
}

/// Looks for a NUL character in `text`.
pub fn contains_nul(text: &str) -> (found: bool)
    ensures
        found == has_nul(text@),
{
    let mut found = false;
    for c in it: text.chars()
        invariant
            it.seq() == text@,
            found <==> exists|j: int| 0 <= j < it.index() && text@[j] == '\0',
    {
        if c == '\0' {
            found = true;
        }
    }
    found
}

} // verus!
