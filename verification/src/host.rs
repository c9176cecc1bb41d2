//! Calls into the host's facilities — the clock, the system clipboard and the
//! arithmetic-expression evaluator — each behind a trusted boundary whose
//! contract states only what the called crate promises.

use std::fmt::Write;
use vstd::prelude::*;

verus! {

/// The value of an arithmetic expression, in its textual form, or `None` when
/// the expression does not evaluate. The evaluator runs with no variables and
/// no host-dependent functions, so the outcome depends on the expression text
/// alone.
pub uninterp spec fn calc_result(expr: Seq<char>) -> Option<Seq<char>>;

/// Relies on evalexpr::eval with an empty context: the outcome is a function
/// of the expression text alone, and evaluation errors are reported as `Err`.
/// The textual form comes from evalexpr's `Display` for `Value`.
#[verifier::external_body]
pub(crate) fn eval_calc(expr: &str) -> (r: Option<String>)
    ensures
        match r {
            Some(v) => calc_result(expr@) == Some(v@),
            None => calc_result(expr@) is None,
        },
{
    match evalexpr::eval(expr) {
        Ok(value) => Some(value.to_string()),
        Err(_) => None,
    }
}

/// Relies on chrono's `Local::now` and `format`: the text depends on the
/// moment of the call, so nothing is promised of it. A format string that
/// chrono rejects surfaces as a formatting error and yields `None`.
#[verifier::external_body]
pub(crate) fn now_formatted(fmt: &str) -> (r: Option<String>) {
    let mut out = String::new();
    match write!(&mut out, "{}", chrono::Local::now().format(fmt)) {
        Ok(()) => Some(out),
        Err(_) => None,
    }
}

/// Relies on copypasta's `ClipboardContext::new` and
/// `ClipboardProvider::get_contents`: reads the system clipboard, which is
/// shared machine state, so nothing is promised of the text; an unavailable
/// clipboard yields the empty string.
#[verifier::external_body]
pub(crate) fn clipboard_text() -> (r: String) {
    match copypasta::ClipboardContext::new() {
        Ok(mut ctx) => {
            copypasta::ClipboardProvider::get_contents(&mut ctx).unwrap_or_default()
        },
        Err(_) => String::new(),
    }
}

/// Relies on `String`'s `FromIterator<char>`: collects the characters in
/// order into a string.
#[verifier::external_body]
pub(crate) fn string_from_chars(v: &Vec<char>) -> (r: String)
    ensures
        r@ == v@,
{
    v.iter().collect()
}

} // verus!
