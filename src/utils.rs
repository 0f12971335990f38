//! Text helpers shared by request construction.

use vstd::prelude::*;
use crate::http::{self, param_text, strip_slash};

verus! {

/// Builds the `key=value` fragment of a present value; `None` when the value
/// is absent.
pub fn param(key: &str, value: Option<i64>) -> (r: Option<String>)
    ensures
        value is None ==> r is None,
        value is Some ==> r is Some && r->Some_0@ == param_text(key@, value->Some_0 as int),
{
    http::param(key, value)
}

/// Removes one trailing `/` from `s`, if there is one.
pub fn remove_trailing_slash(s: &str) -> (r: String)
    ensures
        r@ == strip_slash(s@),
{
    http::remove_trailing_slash(s)
}

} // verus!
