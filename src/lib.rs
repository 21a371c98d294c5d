use vstd::prelude::*;

pub mod config;
pub mod menu;
pub mod text;

verus! {

/// Activation index reported by the selector for a given exit status, if any.
pub fn activation_index(code: i32) -> (r: Option<i32>)
    ensures
        code >= 10 ==> r == Some((code - 9) as i32),
        code < 10 ==> r is None,
{
    if code >= 10 {
        Some(code - 9)
    } else {
        None
    }
}

} // verus!
