//! The safety gate: conflict detection over a directory's entries, and the
//! decision whether a run proceeds, aborts cleanly, or stops on a conflict.
//!
//! Two checks apply in a fixed order: when overwrite was not requested, the
//! conflict scan comes first and a hit short-circuits the run before the
//! generic "this will write files" confirmation is ever reached.  The
//! interactive prompts themselves live outside the library; their answers come
//! in as plain booleans.

use vstd::prelude::*;

verus! {

/// A pre-existing project artifact blocks a run that did not ask to
/// overwrite.
#[derive(Debug, Clone)]
pub struct ConflictError {
    /// The directory entry that marks a pre-existing project.
    pub entry: String,
}

/// Whether a directory entry of this name marks a pre-existing project.
pub open spec fn spec_is_marker(name: Seq<char>) -> bool {
    ||| name == "Cargo.toml"@
    ||| name == "Cargo.lock"@
    ||| name == "src"@
    ||| name == "target"@
}

/// Whether any entry of the directory marks a pre-existing project.
pub open spec fn spec_has_marker(entries: Seq<Seq<char>>) -> bool {
    exists|i: int| 0 <= i < entries.len() && spec_is_marker(#[trigger] entries[i])
}

/// Whether a directory entry of this name marks a pre-existing project.
pub fn is_marker(name: &String) -> (r: bool)
    ensures
        r == spec_is_marker(name@),
{
    let s = name.as_str();
    str_eq(s, "Cargo.toml") || str_eq(s, "Cargo.lock") || str_eq(s, "src") || str_eq(s, "target")
}

/// Relies on `str`'s `PartialEq`: two string slices compare equal exactly when
/// their text is equal.
#[verifier::external_body]
fn str_eq(a: &str, b: &str) -> (r: bool)
    ensures
        r == (a@ == b@),
{
    a == b
}

/// Scans the entries of the target directory for signs of a pre-existing
/// project.  Returns `Ok` exactly when no recognized marker is present;
/// otherwise reports the first marker entry.
pub fn check_artifacts(entries: &Vec<String>) -> (r: Result<(), ConflictError>)
    ensures
        r is Ok <==> !spec_has_marker(entries.deep_view()),
        r is Err ==> {
            exists|i: int|
                {
                    &&& 0 <= i < entries.deep_view().len()
                    &&& #[trigger] entries.deep_view()[i] == r->Err_0.entry@
                    &&& spec_is_marker(entries.deep_view()[i])
                    &&& forall|j: int| 0 <= j < i ==> !spec_is_marker(#[trigger] entries.deep_view()[j])
                }
        },
{
    let mut k: usize = 0;
    while k < entries.len()
        invariant
            k <= entries.len(),
            forall|j: int| 0 <= j < k ==> !spec_is_marker(#[trigger] entries.deep_view()[j]),
        decreases entries.len() - k,
    {
        if is_marker(&entries[k]) {
            assert(entries.deep_view()[k as int] == entries[k as int]@);
            return Err(ConflictError { entry: entries[k].clone() });
        }
        k += 1;
    }
    Ok(())
}

/// What the safety gate decides for one run.
#[derive(Clone, Copy, PartialEq, Eq, Structural, Debug)]
pub enum GateOutcome {
    /// The run goes ahead and materializes (or, dry, previews) the scaffold.
    Proceed,
    /// The user declined a confirmation: the run stops cleanly, with success
    /// and no changes.
    Declined,
    /// A pre-existing project artifact blocks the run: it stops with a
    /// conflict error before anything is written.
    Conflict,
}

/// The safety-gate decision.  With overwrite requested, only the overwrite
/// confirmation counts and conflicts are deliberately ignored.  Without it,
/// a conflict stops the run first; otherwise a non-dry run additionally
/// needs the generic destructive-action confirmation, while a dry run
/// proceeds unprompted.
pub open spec fn spec_gate(
    overwrite: bool,
    dry_run: bool,
    has_conflict: bool,
    overwrite_confirmed: bool,
    destructive_confirmed: bool,
) -> GateOutcome {
    if overwrite {
        if overwrite_confirmed {
            GateOutcome::Proceed
        } else {
            GateOutcome::Declined
        }
    } else if has_conflict {
        GateOutcome::Conflict
    } else if !dry_run {
        if destructive_confirmed {
            GateOutcome::Proceed
        } else {
            GateOutcome::Declined
        }
    } else {
        GateOutcome::Proceed
    }
}

/// Decides whether a run proceeds, stops cleanly on a declined confirmation,
/// or stops on a conflict.  `overwrite_confirmed` and `destructive_confirmed`
/// are the answers to the two prompts; an answer that the decision does not
/// consult (see `spec_gate`) has no effect on the outcome.
pub fn gate_outcome(
    overwrite: bool,
    dry_run: bool,
    has_conflict: bool,
    overwrite_confirmed: bool,
    destructive_confirmed: bool,
) -> (r: GateOutcome)
    ensures
        r == spec_gate(overwrite, dry_run, has_conflict, overwrite_confirmed, destructive_confirmed),
        r == GateOutcome::Conflict <==> (!overwrite && has_conflict),
{
    if overwrite {
        if overwrite_confirmed {
            GateOutcome::Proceed
        } else {
            GateOutcome::Declined
        }
    } else if has_conflict {
        GateOutcome::Conflict
    } else if !dry_run {
        if destructive_confirmed {
            GateOutcome::Proceed
        } else {
            GateOutcome::Declined
        }
    } else {
        GateOutcome::Proceed
    }
}

/// Whether the generic destructive-action confirmation must be posed: only a
/// non-dry run without overwrite and without a conflict reaches it.
pub fn destructive_prompt_required(overwrite: bool, dry_run: bool, has_conflict: bool) -> (r: bool)
    ensures
        r == (!overwrite && !has_conflict && !dry_run),
{
    !overwrite && !has_conflict && !dry_run
}

/// A directory holding a recognized project marker stops every non-overwrite
/// run with a conflict, whatever the mode and whatever the prompt answers.
pub proof fn lemma_conflict_blocks(
    dry_run: bool,
    overwrite_confirmed: bool,
    destructive_confirmed: bool,
)
    ensures
        spec_gate(false, dry_run, true, overwrite_confirmed, destructive_confirmed)
            == GateOutcome::Conflict,
{
}

/// Declining the overwrite confirmation stops the run cleanly, whatever the
/// mode, the directory's contents, and the other prompt's answer.
pub proof fn lemma_overwrite_decline_aborts(
    dry_run: bool,
    has_conflict: bool,
    destructive_confirmed: bool,
)
    ensures
        spec_gate(true, dry_run, has_conflict, false, destructive_confirmed)
            == GateOutcome::Declined,
{
}

} // verus!
