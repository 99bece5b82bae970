use vstd::prelude::*;

verus! {

/// The context that every fatal start-up diagnostic opens with.
pub open spec fn fatal_context() -> Seq<char> {
    "error while running Tauri application"@
}

/// The diagnostic for a run loop that failed with error text `err`.
pub open spec fn diagnostic_of(err: Seq<char>) -> Seq<char> {
    fatal_context() + ": "@ + err
}

/// The message the process terminates with when the run loop fails with
/// error text `err`.
pub fn fatal_diagnostic(err: &str) -> (r: String)
    ensures
        r@ == diagnostic_of(err@),
{
    let mut r = String::from_str("error while running Tauri application");
    r.append(": ");
    r.append(err);
    r
}

/// Every fatal diagnostic says that the application failed while running,
/// whatever the error text.
pub proof fn lemma_diagnostic_names_failure(err: Seq<char>)
    ensures
        diagnostic_of(err).take(19) == "error while running"@,
{
    reveal_strlit("error while running Tauri application");
    reveal_strlit("error while running");
    reveal_strlit(": ");
    assert(diagnostic_of(err).take(19) =~= "error while running"@);
}

} // verus!
