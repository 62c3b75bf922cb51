use vstd::prelude::*;

use crate::text::text_eq;

verus! {

/// A copy of an optional text.
pub fn clone_text(s: &Option<String>) -> (res: Option<String>)
    ensures
        res == *s,
{
    match s {
        Some(v) => Some(v.clone()),
        None => None,
    }
}

/// The empty text (the default of a text field).
pub fn empty_text() -> (res: String)
    ensures
        res@ == Seq::<char>::empty(),
{
    String::new()
}

/// Whether two texts hold the same characters.
pub fn text_is(a: &String, b: &String) -> (res: bool)
    ensures
        res == (a@ == b@),
{
    text_eq(a.as_str(), b.as_str())
}

} // verus!
