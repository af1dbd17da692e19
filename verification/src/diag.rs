//! The structured diagnostics sink. Every unsupported or anomalous
//! construct is recorded here with a severity and enough context to
//! locate the offending spec element; the records are the sole
//! user-visible signal for skip decisions.

use vstd::prelude::*;

verus! {

/// How serious a recorded condition is. `Error` records an anomaly that
/// still did not abort the compilation; fatal conditions are returned as
/// errors instead of being recorded here.
#[derive(Clone, Copy, Debug, PartialEq, Eq, Structural)]
pub enum Severity {
    Error,
    Warn,
    Info,
    Debug,
}

/// One diagnostic record.
#[derive(Debug)]
pub struct Diagnostic {
    pub severity: Severity,
    /// The spec element concerned: an operation id, a schema or field name.
    pub context: Option<String>,
    pub message: String,
}

/// The sink only ever grows: everything recorded stays recorded.
pub open spec fn extends(old: Seq<Diagnostic>, new: Seq<Diagnostic>) -> bool {
    &&& old.len() <= new.len()
    &&& forall|i: int| 0 <= i < old.len() ==> new[i] == old[i]
}

/// Appends one record to the sink: exactly the given severity, context
/// and message text.
pub fn push_diag(
    diags: &mut Vec<Diagnostic>,
    severity: Severity,
    context: Option<String>,
    message: &str,
)
    ensures
        final(diags)@.len() == old(diags)@.len() + 1,
        extends(old(diags)@, final(diags)@),
        final(diags)@.last().severity == severity,
        final(diags)@.last().context == context,
        final(diags)@.last().message@ == message@,
{
    let record = Diagnostic { severity, context, message: message.to_owned() };
    diags.push(record);
}

} // verus!
