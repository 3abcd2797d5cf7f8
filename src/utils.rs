//! Small helpers on optional text.

use vstd::prelude::*;

verus! {

/// True when the text is absent or has no characters.
pub fn is_none_or_empty(val: &Option<String>) -> (r: bool)
    ensures
        r == match val {
            None => true,
            Some(s) => s@.len() == 0,
        },
{
    match val {
        None => true,
        Some(s) => s.as_str().is_empty(),
    }
}

/// The characters of optional text.
pub open spec fn text_view(val: Option<String>) -> Option<Seq<char>> {
    match val {
        None => None,
        Some(s) => Some(s@),
    }
}

/// A copy of optional text.
pub fn copy_text(val: &Option<String>) -> (r: Option<String>)
    ensures
        r == *val,
{
    match val {
        None => None,
        Some(s) => Some(s.clone()),
    }
}

} // verus!
