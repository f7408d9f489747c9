//! Finalization decisions: the output's name, the name of a copy when the
//! output exists, and the order of the steps that turn staged output into the
//! final output without ever leaving a half-built one under the final name.
use vstd::prelude::*;
use crate::depots::{sanitize, sanitize_game_name};
use crate::job_metadata::JobMetadataFile;
use crate::text::{decimal, push_decimal, push_str_chars, str_equal, string_of};

verus! {

/// `<name>.Build.<build id>.<platform>.<branch>`, the name sanitized.
pub open spec fn output_name(game: Seq<char>, build: Seq<char>, platform: Seq<char>, branch: Seq<char>) -> Seq<char> {
    sanitize(game) + ".Build."@ + build + seq!['.'] + platform + seq!['.'] + branch
}

/// The directory name of a job's final output.
pub fn compute_output_name(metadata: &JobMetadataFile) -> (r: String)
    ensures
        r@ == output_name(metadata.game_name@, metadata.build_id@, metadata.platform@, metadata.branch@),
{
    let name = sanitize_game_name(metadata.game_name.as_str());
    let mut out: Vec<char> = Vec::new();
    push_str_chars(&mut out, name.as_str());
    push_str_chars(&mut out, ".Build.");
    push_str_chars(&mut out, metadata.build_id.as_str());
    out.push('.');
    push_str_chars(&mut out, metadata.platform.as_str());
    out.push('.');
    push_str_chars(&mut out, metadata.branch.as_str());
    assert(out@ =~= output_name(metadata.game_name@, metadata.build_id@, metadata.platform@, metadata.branch@));
    string_of(&out)
}

/// The name of the compressed archive beside an output: the output's name with `.7z`.
pub open spec fn archive_name(name: Seq<char>) -> Seq<char> {
    name + ".7z"@
}

pub fn resolve_archive_name(name: &str) -> (r: String)
    ensures
        r@ == archive_name(name@),
{
    let mut out: Vec<char> = Vec::new();
    push_str_chars(&mut out, name);
    push_str_chars(&mut out, ".7z");
    string_of(&out)
}

/// The name of the `n`-th copy of an output: `<name> (<n>)`.
pub open spec fn copy_name(base: Seq<char>, n: nat) -> Seq<char> {
    base + seq![' ', '('] + decimal(n) + seq![')']
}

pub fn copy_name_exec(base: &str, n: u64) -> (r: String)
    ensures
        r@ == copy_name(base@, n as nat),
{
    let mut out: Vec<char> = Vec::new();
    push_str_chars(&mut out, base);
    out.push(' ');
    out.push('(');
    push_decimal(&mut out, n);
    out.push(')');
    assert(out@ =~= copy_name(base@, n as nat));
    string_of(&out)
}

/// The largest copy number tried.
pub const MAX_COPY_SUFFIX: u64 = 9999;

/// Whether a name is taken among the entries of the outputs directory.
pub open spec fn taken(existing: Seq<Seq<char>>, name: Seq<char>) -> bool {
    existing.contains(name)
}

/// Whether copy `n` is free: its directory does not exist and, when the output
/// is compressed, neither does its archive.
pub open spec fn copy_free(existing: Seq<Seq<char>>, base: Seq<char>, n: nat, compression: bool) -> bool {
    !taken(existing, copy_name(base, n)) && !(compression && taken(
        existing,
        archive_name(copy_name(base, n)),
    ))
}

pub open spec fn strings_view(v: Seq<String>) -> Seq<Seq<char>> {
    v.map_values(|s: String| s@)
}

fn is_taken(existing: &[String], name: &str) -> (r: bool)
    ensures
        r == taken(strings_view(existing@), name@),
{
    let mut i: usize = 0;
    while i < existing.len()
        invariant
            i <= existing@.len(),
            forall|j: int| 0 <= j < i ==> existing@[j]@ != name@,
        decreases existing@.len() - i,
    {
        if str_equal(existing[i].as_str(), name) {
            assert(strings_view(existing@)[i as int] == name@);
            return true;
        }
        i = i + 1;
    }
    assert(!strings_view(existing@).contains(name@)) by {
        if strings_view(existing@).contains(name@) {
            let j = choose|j: int| 0 <= j < strings_view(existing@).len() && strings_view(existing@)[j] == name@;
            assert(existing@[j]@ == name@);
        }
    }
    false
}

/// Picks the name of a copy of an existing output: the first `<name> (<n>)`,
/// `n` from 1 up to the largest copy number, that is free among `existing`
/// (the entry names of the outputs directory).
pub fn resolve_copy_output_path(base: &str, existing: &[String], compression_enabled: bool) -> (r: Result<String, String>)
    ensures
        r matches Ok(name) ==> exists|n: nat| 1 <= n <= MAX_COPY_SUFFIX && name@ == copy_name(base@, n)
            && copy_free(strings_view(existing@), base@, n, compression_enabled) && forall|m: nat|
            1 <= m < n ==> !copy_free(strings_view(existing@), base@, m, compression_enabled),
        r is Err ==> forall|m: nat| 1 <= m <= MAX_COPY_SUFFIX ==> !copy_free(strings_view(existing@), base@, m, compression_enabled),
{
    let ghost ex = strings_view(existing@);
    let mut n: u64 = 1;
    while n <= MAX_COPY_SUFFIX
        invariant
            1 <= n <= MAX_COPY_SUFFIX + 1,
            ex == strings_view(existing@),
            forall|m: nat| 1 <= m < n ==> !copy_free(ex, base@, m, compression_enabled),
        decreases MAX_COPY_SUFFIX + 1 - n,
    {
        let candidate = copy_name_exec(base, n);
        let mut free = !is_taken(existing, candidate.as_str());
        if free && compression_enabled {
            let archive = resolve_archive_name(candidate.as_str());
            free = !is_taken(existing, archive.as_str());
        }
        if free {
            return Ok(candidate);
        }
        n = n + 1;
    }
    Err("Unable to find available output copy name".to_string())
}

} // verus!

verus! {

/// Where a finalization stands.
#[derive(Clone, Copy, Debug, PartialEq, Eq, Structural)]
pub enum FinalizeStage {
    ValidateStaging,
    CheckConflict,
    AwaitChoice,
    PickCopyName,
    BuildInTemp,
    RemoveExisting,
    AtomicPromote,
    Done,
    Failed,
}

/// What the outside reports after doing the last action.
#[derive(Clone, Copy, Debug, PartialEq, Eq, Structural)]
pub enum FinalizeEvent {
    /// Whether the staged tree holds a non-empty depots container.
    StagingChecked(bool),
    /// Whether the output or its archive already exists.
    ConflictChecked(bool),
    /// The operator's answer.
    Chosen(crate::conflict::OutputConflictChoice),
    /// Whether a free copy name was found.
    CopyNamePicked(bool),
    /// Whether the temporary tree was built.
    Built(bool),
    /// Whether the existing output was removed.
    Removed(bool),
    /// Whether the temporary tree was renamed onto the output name.
    Promoted(bool),
}

/// What the outside does next.
#[derive(Clone, Copy, Debug, PartialEq, Eq, Structural)]
pub enum FinalizeAction {
    CheckConflict,
    AskChoice,
    PickCopyName,
    BuildInTemp,
    RemoveExisting,
    Promote,
    /// Remove the temporary tree, then report failure.
    CleanupTempAndFail,
    /// Report failure; nothing was built.
    Fail,
    /// Report that the operator cancelled.
    Cancelled,
    Finish,
    /// The event does not belong to this stage: nothing to do.
    Ignore,
}

/// A finalization in progress.
#[derive(Clone, Copy, Debug, PartialEq, Eq, Structural)]
pub struct Finalizer {
    pub stage: FinalizeStage,
    /// Whether the existing output is to be replaced.
    pub overwrite: bool,
}

/// The step taken on an event in a stage.
pub open spec fn step_spec(f: Finalizer, e: FinalizeEvent) -> (Finalizer, FinalizeAction) {
    match (f.stage, e) {
        (FinalizeStage::ValidateStaging, FinalizeEvent::StagingChecked(ok)) => if ok {
            (Finalizer { stage: FinalizeStage::CheckConflict, ..f }, FinalizeAction::CheckConflict)
        } else {
            (Finalizer { stage: FinalizeStage::Failed, ..f }, FinalizeAction::Fail)
        },
        (FinalizeStage::CheckConflict, FinalizeEvent::ConflictChecked(exists)) => if exists {
            (Finalizer { stage: FinalizeStage::AwaitChoice, ..f }, FinalizeAction::AskChoice)
        } else {
            (Finalizer { stage: FinalizeStage::BuildInTemp, ..f }, FinalizeAction::BuildInTemp)
        },
        (FinalizeStage::AwaitChoice, FinalizeEvent::Chosen(c)) => match c {
            crate::conflict::OutputConflictChoice::Overwrite => (
                Finalizer { stage: FinalizeStage::BuildInTemp, overwrite: true },
                FinalizeAction::BuildInTemp,
            ),
            crate::conflict::OutputConflictChoice::Copy => (
                Finalizer { stage: FinalizeStage::PickCopyName, ..f },
                FinalizeAction::PickCopyName,
            ),
            crate::conflict::OutputConflictChoice::Cancel => (
                Finalizer { stage: FinalizeStage::Failed, ..f },
                FinalizeAction::Cancelled,
            ),
        },
        (FinalizeStage::PickCopyName, FinalizeEvent::CopyNamePicked(ok)) => if ok {
            (Finalizer { stage: FinalizeStage::BuildInTemp, ..f }, FinalizeAction::BuildInTemp)
        } else {
            (Finalizer { stage: FinalizeStage::Failed, ..f }, FinalizeAction::Fail)
        },
        (FinalizeStage::BuildInTemp, FinalizeEvent::Built(ok)) => if !ok {
            (Finalizer { stage: FinalizeStage::Failed, ..f }, FinalizeAction::CleanupTempAndFail)
        } else if f.overwrite {
            (Finalizer { stage: FinalizeStage::RemoveExisting, ..f }, FinalizeAction::RemoveExisting)
        } else {
            (Finalizer { stage: FinalizeStage::AtomicPromote, ..f }, FinalizeAction::Promote)
        },
        (FinalizeStage::RemoveExisting, FinalizeEvent::Removed(ok)) => if ok {
            (Finalizer { stage: FinalizeStage::AtomicPromote, ..f }, FinalizeAction::Promote)
        } else {
            (Finalizer { stage: FinalizeStage::Failed, ..f }, FinalizeAction::CleanupTempAndFail)
        },
        (FinalizeStage::AtomicPromote, FinalizeEvent::Promoted(ok)) => if ok {
            (Finalizer { stage: FinalizeStage::Done, ..f }, FinalizeAction::Finish)
        } else {
            (Finalizer { stage: FinalizeStage::Failed, ..f }, FinalizeAction::CleanupTempAndFail)
        },
        _ => (f, FinalizeAction::Ignore),
    }
}

impl Finalizer {
    /// A finalization about to validate the staged tree.
    pub fn new() -> (r: Finalizer)
        ensures
            r.stage == FinalizeStage::ValidateStaging,
            !r.overwrite,
    {
        Finalizer { stage: FinalizeStage::ValidateStaging, overwrite: false }
    }

    /// Takes one step: the next stage and the action to perform.
    ///
    /// The existing output is removed only once the new tree is fully built,
    /// and a failed build or rename ends with the temporary tree removed.
    pub fn step(&mut self, e: FinalizeEvent) -> (a: FinalizeAction)
        ensures
            (*final(self), a) == step_spec(*old(self), e),
            a == FinalizeAction::RemoveExisting ==> old(self).stage == FinalizeStage::BuildInTemp
                && e == FinalizeEvent::Built(true) && old(self).overwrite,
            a == FinalizeAction::Promote ==> e == FinalizeEvent::Built(true)
                || e == FinalizeEvent::Removed(true),
            e == FinalizeEvent::Built(false) && old(self).stage == FinalizeStage::BuildInTemp
                ==> a == FinalizeAction::CleanupTempAndFail,
            e == FinalizeEvent::Promoted(false) && old(self).stage == FinalizeStage::AtomicPromote
                ==> a == FinalizeAction::CleanupTempAndFail,
    {
        let f = *self;
        let (next, action) = match (f.stage, e) {
            (FinalizeStage::ValidateStaging, FinalizeEvent::StagingChecked(ok)) => if ok {
                (Finalizer { stage: FinalizeStage::CheckConflict, ..f }, FinalizeAction::CheckConflict)
            } else {
                (Finalizer { stage: FinalizeStage::Failed, ..f }, FinalizeAction::Fail)
            },
            (FinalizeStage::CheckConflict, FinalizeEvent::ConflictChecked(exists)) => if exists {
                (Finalizer { stage: FinalizeStage::AwaitChoice, ..f }, FinalizeAction::AskChoice)
            } else {
                (Finalizer { stage: FinalizeStage::BuildInTemp, ..f }, FinalizeAction::BuildInTemp)
            },
            (FinalizeStage::AwaitChoice, FinalizeEvent::Chosen(c)) => match c {
                crate::conflict::OutputConflictChoice::Overwrite => (
                    Finalizer { stage: FinalizeStage::BuildInTemp, overwrite: true },
                    FinalizeAction::BuildInTemp,
                ),
                crate::conflict::OutputConflictChoice::Copy => (
                    Finalizer { stage: FinalizeStage::PickCopyName, ..f },
                    FinalizeAction::PickCopyName,
                ),
                crate::conflict::OutputConflictChoice::Cancel => (
                    Finalizer { stage: FinalizeStage::Failed, ..f },
                    FinalizeAction::Cancelled,
                ),
            },
            (FinalizeStage::PickCopyName, FinalizeEvent::CopyNamePicked(ok)) => if ok {
                (Finalizer { stage: FinalizeStage::BuildInTemp, ..f }, FinalizeAction::BuildInTemp)
            } else {
                (Finalizer { stage: FinalizeStage::Failed, ..f }, FinalizeAction::Fail)
            },
            (FinalizeStage::BuildInTemp, FinalizeEvent::Built(ok)) => if !ok {
                (Finalizer { stage: FinalizeStage::Failed, ..f }, FinalizeAction::CleanupTempAndFail)
            } else if f.overwrite {
                (Finalizer { stage: FinalizeStage::RemoveExisting, ..f }, FinalizeAction::RemoveExisting)
            } else {
                (Finalizer { stage: FinalizeStage::AtomicPromote, ..f }, FinalizeAction::Promote)
            },
            (FinalizeStage::RemoveExisting, FinalizeEvent::Removed(ok)) => if ok {
                (Finalizer { stage: FinalizeStage::AtomicPromote, ..f }, FinalizeAction::Promote)
            } else {
                (Finalizer { stage: FinalizeStage::Failed, ..f }, FinalizeAction::CleanupTempAndFail)
            },
            (FinalizeStage::AtomicPromote, FinalizeEvent::Promoted(ok)) => if ok {
                (Finalizer { stage: FinalizeStage::Done, ..f }, FinalizeAction::Finish)
            } else {
                (Finalizer { stage: FinalizeStage::Failed, ..f }, FinalizeAction::CleanupTempAndFail)
            },
            _ => (f, FinalizeAction::Ignore),
        };
        *self = next;
        action
    }
}

/// Runs the finalizer over a sequence of reports, collecting its actions.
pub open spec fn run_spec(f: Finalizer, events: Seq<FinalizeEvent>) -> (Finalizer, Seq<FinalizeAction>)
    decreases events.len(),
{
    if events.len() == 0 {
        (f, seq![])
    } else {
        let (g, acts) = run_spec(f, events.drop_last());
        let (h, a) = step_spec(g, events.last());
        (h, acts.push(a))
    }
}

proof fn lemma_failed_is_final(f: Finalizer, events: Seq<FinalizeEvent>)
    requires
        f.stage == FinalizeStage::Failed,
    ensures
        run_spec(f, events).0.stage == FinalizeStage::Failed,
        forall|i: int| 0 <= i < events.len() ==> #[trigger] run_spec(f, events).1[i] == FinalizeAction::Ignore,
        run_spec(f, events).1.len() == events.len(),
    decreases events.len(),
{
    if events.len() > 0 {
        lemma_failed_is_final(f, events.drop_last());
    }
}

/// Atomicity of finalization: once building the temporary tree has failed, no
/// later report leads to removing the existing output or renaming anything
/// onto the output name.
pub proof fn lemma_failed_build_leaves_target(events: Seq<FinalizeEvent>, f: Finalizer)
    requires
        f.stage == FinalizeStage::BuildInTemp,
    ensures
        step_spec(f, FinalizeEvent::Built(false)).1 == FinalizeAction::CleanupTempAndFail,
        forall|i: int|
            0 <= i < events.len() ==> #[trigger] run_spec(step_spec(f, FinalizeEvent::Built(false)).0, events).1[i]
                != FinalizeAction::RemoveExisting && run_spec(
                step_spec(f, FinalizeEvent::Built(false)).0,
                events,
            ).1[i] != FinalizeAction::Promote,
{
    lemma_failed_is_final(step_spec(f, FinalizeEvent::Built(false)).0, events);
}

} // verus!
