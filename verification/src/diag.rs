//! Diagnostic output on the error stream, kept off standard output so that
//! piped output stays script-friendly.

use std::io::Write;

use vstd::prelude::*;
use vstd::string::StringExecFns;

verus! {

/// Relies on colored's `Colorize::yellow`: styles the warning label for the
/// terminal. The exact text depends on whether the stream supports colour,
/// so nothing is claimed of it.
#[verifier::external_body]
fn warning_label() -> String {
    colored::Colorize::yellow("Warning").to_string()
}

/// Relies on std::io::stderr: writes one line to the error stream. Failures
/// of the diagnostic sink never abort a secret operation.
#[verifier::external_body]
fn stderr_line(msg: &str) {
    let _ = writeln!(std::io::stderr(), "{}", msg);
}

/// Emits the warning owed before a forced overwrite of `name`.
pub(crate) fn warn_overriding(name: &str) {
    let mut msg = warning_label();
    msg.append(": overriding existing value in ");
    msg.append(name);
    stderr_line(msg.as_str());
}

} // verus!
