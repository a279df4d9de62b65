//! The `check` command: the verdict on a list of checks.

use crate::cli_error::CliError;
use crate::text::{append_decimal, decimal_seq};
use vstd::prelude::*;

verus! {

/// One check of a project with its outcome.
#[derive(Debug)]
pub struct CheckItem {
    pub name: String,
    pub ok: bool,
}

/// The number of failed checks among the first `n`.
pub open spec fn failures_among(items: Seq<CheckItem>, n: nat) -> nat
    decreases n,
{
    if n == 0 || n > items.len() {
        0
    } else {
        failures_among(items, (n - 1) as nat) + (if items[n - 1].ok {
            0nat
        } else {
            1nat
        })
    }
}

/// The message for `failures` failed checks.
pub open spec fn failed_checks_text(failures: nat) -> Seq<char> {
    "check failed with "@ + decimal_seq(failures) + " issue(s)"@
}

/// Counts a check: a failed check adds one to `failures`.
pub fn record(ok: bool, failures: &mut usize)
    requires
        *old(failures) < usize::MAX,
    ensures
        *final(failures) == *old(failures) + (if ok {
            0int
        } else {
            1int
        }),
{
    if !ok {
        *failures = *failures + 1;
    }
}

/// Gives the verdict on the checks of a project: they pass when none has
/// failed, and fail with the number of failed checks otherwise.
pub fn run(items: &Vec<CheckItem>) -> (r: Result<(), CliError>)
    ensures
        match r {
            Ok(()) => failures_among(items@, items@.len()) == 0,
            Err(e) => failures_among(items@, items@.len()) > 0 && (e matches CliError::Message(
                text,
            ) && text@ == failed_checks_text(failures_among(items@, items@.len()))),
        },
{
    let mut failures: usize = 0;
    let mut i: usize = 0;
    while i < items.len()
        invariant
            i <= items.len(),
            failures == failures_among(items@, i as nat),
            failures <= i,
        decreases items.len() - i,
    {
        record(items[i].ok, &mut failures);
        i = i + 1;
    }
    if failures > 0 {
        let mut text = String::from_str("check failed with ");
        append_decimal(&mut text, failures as u64);
        text.append(" issue(s)");
        return Err(CliError::Message(text));
    }
    Ok(())
}

} // verus!
