//! The parts of a wrapped function: a function is renamed, and a new one
//! under its name hands the renamed one's result to a wrapper.

use crate::text::{concat2, same_text};
use vstd::prelude::*;
use vstd::string::*;

verus! {

/// Whether a return type whose path starts with `first_segment` is taken for
/// a result type.
pub fn returns_result(first_segment: &str) -> (accepted: bool)
    ensures
        accepted == (first_segment@ == "Result"@),
{
    same_text(first_segment, "Result")
}

/// The name under which the body of the function `name` is kept.
pub fn ghost_name(name: &str) -> (renamed: String)
    ensures
        renamed@ == "_ghost_"@ + name@,
{
    concat2("_ghost_", name)
}

/// The call that stands in the new function: the renamed function is
/// called, on `self` if the function is a method, and its result is handed
/// to `wrapper`; for an async function both are awaited.
pub open spec fn wrapper_call_text(
    wrapper: Seq<char>,
    name: Seq<char>,
    is_async: bool,
    is_method: bool,
) -> Seq<char> {
    wrapper + seq!['('] + (if is_method {
        "self."@
    } else {
        Seq::empty()
    }) + "_ghost_"@ + name + (if is_async {
        "().await).await"@
    } else {
        "())"@
    })
}

/// The call that stands in the new function.
pub fn wrapper_call(wrapper: &str, name: &str, is_async: bool, is_method: bool) -> (call: String)
    ensures
        call@ == wrapper_call_text(wrapper@, name@, is_async, is_method),
{
    let mut call = wrapper.to_owned();
    call.push('(');
    if is_method {
        call.append("self.");
    }
    let renamed = ghost_name(name);
    call.append(renamed.as_str());
    if is_async {
        call.append("().await).await");
    } else {
        call.append("())");
    }
    call
}

} // verus!
