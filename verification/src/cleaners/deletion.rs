//! The order in which episode files are removed.
//!
//! The series library takes a file that is missing without warning for one
//! that is still wanted, and fetches it again. So an episode is first taken
//! off the watch list, and only when that call came back well is its file
//! deleted. The two calls share no transaction: what was done stays done.
//! A candidate that fails does not hold up the candidates after it.

use vstd::prelude::*;
use vstd::string::StringExecFns;
use crate::cleaners::episodes::EpisodeFileDeletion;
use crate::text::{decimal, render_decimal};

verus! {

/// A call that changes the series library.
#[derive(Clone, Copy, Debug, PartialEq, Eq, Structural)]
pub enum Mutation {
    /// Stop tracking the episode.
    Unmonitor { episode_id: u64 },
    /// Delete the file of an episode.
    DeleteFile { episode_file_id: u64 },
}

/// What the orchestrator is waiting for.
#[derive(Clone, Copy, Debug, PartialEq, Eq, Structural)]
pub enum Stage {
    /// The outcome of the unmonitor call for the current candidate.
    Unmonitoring,
    /// The outcome of the delete call for the current candidate.
    Deleting,
    /// Nothing: no call is outstanding and none will be issued.
    Finished,
}

/// What became of a candidate.
#[derive(Clone, Copy, Debug, PartialEq, Eq, Structural)]
pub enum Fate {
    /// Both calls came back well.
    Deleted,
    /// The unmonitor call failed; the file was left alone.
    UnmonitorFailed,
    /// The episode is no longer tracked, but deleting its file failed.
    DeleteFailed,
}

/// Issues the calls for a list of episode files, one at a time.
#[derive(Debug)]
pub struct DeletionOrchestrator {
    pub files: Vec<EpisodeFileDeletion>,
    pub current: usize,
    pub stage: Stage,
    pub fates: Vec<Fate>,
}

/// An orchestrator's state in mathematical terms.
pub struct OrchestratorState {
    pub files: Seq<EpisodeFileDeletion>,
    pub current: int,
    pub stage: Stage,
    pub fates: Seq<Fate>,
}

impl View for DeletionOrchestrator {
    type V = OrchestratorState;

    open spec fn view(&self) -> OrchestratorState {
        OrchestratorState {
            files: self.files@,
            current: self.current as int,
            stage: self.stage,
            fates: self.fates@,
        }
    }
}

/// The counts of a run.
#[derive(Clone, Copy, Debug, PartialEq, Eq, Structural)]
pub struct Summary {
    pub succeeded: usize,
    pub failed: usize,
}

/// A run in which at least one candidate failed.
#[derive(Clone, Copy, Debug, PartialEq, Eq, Structural)]
pub struct DeletionFailure {
    pub failed: usize,
    pub total: usize,
}

/// The state and the first call of a run. Without the leave to delete, and
/// without candidates, nothing is issued.
pub open spec fn begin(files: Seq<EpisodeFileDeletion>, force_delete: bool) -> (
    OrchestratorState,
    Option<Mutation>,
) {
    if force_delete && files.len() > 0 {
        (
            OrchestratorState { files, current: 0, stage: Stage::Unmonitoring, fates: Seq::empty() },
            Some(Mutation::Unmonitor { episode_id: files[0].episode_id }),
        )
    } else {
        (OrchestratorState { files, current: 0, stage: Stage::Finished, fates: Seq::empty() }, None)
    }
}

/// Records the fate of the current candidate and turns to the next one.
pub open spec fn settle(s: OrchestratorState, fate: Fate) -> (OrchestratorState, Option<Mutation>) {
    let next = s.current + 1;
    if 0 <= next < s.files.len() {
        (
            OrchestratorState {
                current: next,
                stage: Stage::Unmonitoring,
                fates: s.fates.push(fate),
                ..s
            },
            Some(Mutation::Unmonitor { episode_id: s.files[next].episode_id }),
        )
    } else {
        (
            OrchestratorState { current: next, stage: Stage::Finished, fates: s.fates.push(fate), ..s },
            None,
        )
    }
}

/// The state after the outstanding call came back, well (`ok`) or not, and
/// the call to issue next.
pub open spec fn after(s: OrchestratorState, ok: bool) -> (OrchestratorState, Option<Mutation>) {
    if !(0 <= s.current < s.files.len()) {
        (OrchestratorState { stage: Stage::Finished, ..s }, None)
    } else {
        match s.stage {
            Stage::Unmonitoring => if ok {
                (
                    OrchestratorState { stage: Stage::Deleting, ..s },
                    Some(
                        Mutation::DeleteFile {
                            episode_file_id: s.files[s.current].episode_file_id,
                        },
                    ),
                )
            } else {
                settle(s, Fate::UnmonitorFailed)
            },
            Stage::Deleting => settle(
                s,
                if ok {
                    Fate::Deleted
                } else {
                    Fate::DeleteFailed
                },
            ),
            Stage::Finished => (s, None),
        }
    }
}

/// The calls that a run issues, in order, from a state with `pending`
/// outstanding, when the calls come back as `results` says, one entry for
/// each call.
pub open spec fn trace(s: OrchestratorState, pending: Option<Mutation>, results: Seq<bool>) -> Seq<
    Mutation,
>
    decreases results.len(),
{
    match pending {
        None => Seq::empty(),
        Some(call) => if results.len() == 0 {
            seq![call]
        } else {
            let (next, then_call) = after(s, results[0]);
            seq![call] + trace(next, then_call, results.drop_first())
        },
    }
}

/// The state in which a run ends up from a state with `pending`
/// outstanding, when the calls come back as `results` says.
pub open spec fn outcome_of(s: OrchestratorState, pending: Option<Mutation>, results: Seq<bool>)
    -> OrchestratorState
    decreases results.len(),
{
    match pending {
        None => s,
        Some(_) => if results.len() == 0 {
            s
        } else {
            let (next, then_call) = after(s, results[0]);
            outcome_of(next, then_call, results.drop_first())
        },
    }
}

/// The calls of a whole run.
pub open spec fn calls(files: Seq<EpisodeFileDeletion>, force_delete: bool, results: Seq<bool>)
    -> Seq<Mutation> {
    trace(begin(files, force_delete).0, begin(files, force_delete).1, results)
}

/// Whether `pending` is the call that the state waits for.
pub open spec fn waits_for(s: OrchestratorState, pending: Option<Mutation>) -> bool {
    match s.stage {
        Stage::Unmonitoring => 0 <= s.current < s.files.len() && pending == Some(
            Mutation::Unmonitor { episode_id: s.files[s.current].episode_id },
        ),
        Stage::Deleting => 0 <= s.current < s.files.len() && pending == Some(
            Mutation::DeleteFile { episode_file_id: s.files[s.current].episode_file_id },
        ),
        Stage::Finished => pending is None,
    }
}

/// Whether the call at `k` deletes the file of a candidate whose unmonitor
/// call stands right before it in the trace and came back well.
pub open spec fn delete_follows_unmonitor(
    files: Seq<EpisodeFileDeletion>,
    issued: Seq<Mutation>,
    results: Seq<bool>,
    k: int,
) -> bool {
    &&& 1 <= k < issued.len()
    &&& k - 1 < results.len()
    &&& results[k - 1]
    &&& exists|i: int|
        0 <= i < files.len() && issued[k - 1] == (Mutation::Unmonitor {
            episode_id: (#[trigger] files[i]).episode_id,
        }) && issued[k] == (Mutation::DeleteFile { episode_file_id: files[i].episode_file_id })
}

/// From any state that waits for its outstanding call: a delete call in the
/// trace is either the outstanding one, or follows the successful unmonitor
/// call of the same candidate.
pub proof fn lemma_trace_order(
    s: OrchestratorState,
    pending: Option<Mutation>,
    results: Seq<bool>,
    k: int,
)
    requires
        waits_for(s, pending),
        0 <= k < trace(s, pending, results).len(),
        trace(s, pending, results)[k] is DeleteFile,
    ensures
        (k == 0 && s.stage == Stage::Deleting) || delete_follows_unmonitor(
            s.files,
            trace(s, pending, results),
            results,
            k,
        ),
    decreases results.len(),
{
    let issued = trace(s, pending, results);
    if k > 0 {
        let (next, then_call) = after(s, results[0]);
        let rest = results.drop_first();
        let tail = trace(next, then_call, rest);
        assert(issued =~= seq![pending.unwrap()] + tail);
        assert(issued[k] == tail[k - 1]);
        assert(next.files == s.files);
        lemma_trace_order(next, then_call, rest, k - 1);
        if k - 1 == 0 && next.stage == Stage::Deleting {
            assert(s.stage == Stage::Unmonitoring);
            assert(results[0]);
            assert(issued[0] == Mutation::Unmonitor { episode_id: s.files[s.current].episode_id });
            assert(issued[1] == Mutation::DeleteFile {
                episode_file_id: s.files[s.current].episode_file_id,
            });
        } else {
            assert(delete_follows_unmonitor(s.files, tail, rest, k - 1));
            assert(rest[k - 2] == results[k - 1]);
            let i = choose|i: int|
                0 <= i < s.files.len() && tail[k - 2] == (Mutation::Unmonitor {
                    episode_id: (#[trigger] s.files[i]).episode_id,
                }) && tail[k - 1] == (Mutation::DeleteFile {
                    episode_file_id: s.files[i].episode_file_id,
                });
            assert(issued[k - 1] == tail[k - 2]);
        }
    }
}

/// Unmonitor before delete: in every run, whatever the calls come back
/// with, a file is deleted only right after the unmonitor call for the same
/// episode, and only if that call came back well.
pub proof fn lemma_unmonitor_before_delete(
    files: Seq<EpisodeFileDeletion>,
    force_delete: bool,
    results: Seq<bool>,
    k: int,
)
    requires
        0 <= k < calls(files, force_delete, results).len(),
        calls(files, force_delete, results)[k] is DeleteFile,
    ensures
        delete_follows_unmonitor(files, calls(files, force_delete, results), results, k),
{
    let (s, pending) = begin(files, force_delete);
    lemma_trace_order(s, pending, results, k);
}

/// A run without the leave to delete issues no call at all.
pub proof fn lemma_dry_run_is_silent(files: Seq<EpisodeFileDeletion>, results: Seq<bool>)
    ensures
        calls(files, false, results) == Seq::<Mutation>::empty(),
{
}

/// Whether a state has dealt with `current` candidates, one fate each, and
/// is finished exactly when none is left.
pub open spec fn in_step(s: OrchestratorState) -> bool {
    &&& 0 <= s.current <= s.files.len()
    &&& s.fates.len() == s.current
    &&& (s.stage == Stage::Finished <==> s.current == s.files.len())
}

/// A failure does not end the run: once enough calls have come back, every
/// candidate has its fate, a failed one too.
pub proof fn lemma_every_candidate_settled(
    s: OrchestratorState,
    pending: Option<Mutation>,
    results: Seq<bool>,
)
    requires
        in_step(s),
        waits_for(s, pending),
        results.len() >= 2 * (s.files.len() - s.current),
    ensures
        outcome_of(s, pending, results).files == s.files,
        outcome_of(s, pending, results).stage == Stage::Finished,
        outcome_of(s, pending, results).fates.len() == s.files.len(),
        outcome_of(s, pending, results).fates.take(s.fates.len() as int) == s.fates,
    decreases results.len(),
{
    if pending is Some && results.len() > 0 {
        let (next, then_call) = after(s, results[0]);
        let rest = results.drop_first();
        if s.stage == Stage::Unmonitoring && results[0] {
            // The delete call of the same candidate is outstanding next.
            let (last, last_call) = after(next, rest[0]);
            lemma_every_candidate_settled(last, last_call, rest.drop_first());
            let end = outcome_of(last, last_call, rest.drop_first());
            assert(end.fates.take(last.fates.len() as int).take(s.fates.len() as int)
                =~= end.fates.take(s.fates.len() as int));
            assert(last.fates.take(s.fates.len() as int) =~= s.fates);
        } else {
            lemma_every_candidate_settled(next, then_call, rest);
            let end = outcome_of(next, then_call, rest);
            assert(end.fates.take(next.fates.len() as int).take(s.fates.len() as int)
                =~= end.fates.take(s.fates.len() as int));
            assert(next.fates.take(s.fates.len() as int) =~= s.fates);
        }
    } else {
        assert(s.fates.take(s.fates.len() as int) =~= s.fates);
    }
}

/// The number of candidates in `fates` whose file was deleted.
pub open spec fn deleted_count(fates: Seq<Fate>) -> nat
    decreases fates.len(),
{
    if fates.len() == 0 {
        0
    } else {
        deleted_count(fates.drop_last()) + if fates.last() == Fate::Deleted {
            1nat
        } else {
            0nat
        }
    }
}

/// The text of a failure.
pub open spec fn failure_text(failure: DeletionFailure) -> Seq<char> {
    "failed to delete "@ + decimal(failure.failed as nat) + " out of "@ + decimal(
        failure.total as nat,
    ) + " episodes"@
}

impl DeletionFailure {
    /// The failure in words.
    pub fn message(&self) -> (text: String)
        ensures
            text@ == failure_text(*self),
    {
        let mut text: String = String::from_str("failed to delete ");
        let failed: String = render_decimal(self.failed as u64);
        text.append(failed.as_str());
        text.append(" out of ");
        let total: String = render_decimal(self.total as u64);
        text.append(total.as_str());
        text.append(" episodes");
        text
    }
}

impl DeletionOrchestrator {
    /// Starts a run over `files`. With `force_delete` the first call is
    /// handed back; without it nothing is ever issued, and the files are
    /// there to be listed.
    pub fn start(files: Vec<EpisodeFileDeletion>, force_delete: bool) -> (run: (
        DeletionOrchestrator,
        Option<Mutation>,
    ))
        ensures
            (run.0@, run.1) == begin(files@, force_delete),
    {
        if force_delete && files.len() > 0 {
            let first = Mutation::Unmonitor { episode_id: files[0].episode_id };
            (
                DeletionOrchestrator {
                    files,
                    current: 0,
                    stage: Stage::Unmonitoring,
                    fates: Vec::new(),
                },
                Some(first),
            )
        } else {
            (
                DeletionOrchestrator { files, current: 0, stage: Stage::Finished, fates: Vec::new() },
                None,
            )
        }
    }

    fn settle(&mut self, fate: Fate) -> (call: Option<Mutation>)
        requires
            old(self).current < old(self).files.len(),
        ensures
            (final(self)@, call) == settle(old(self)@, fate),
    {
        self.fates.push(fate);
        self.current = self.current + 1;
        if self.current < self.files.len() {
            self.stage = Stage::Unmonitoring;
            Some(Mutation::Unmonitor { episode_id: self.files[self.current].episode_id })
        } else {
            self.stage = Stage::Finished;
            None
        }
    }

    /// Takes the outcome of the call that was issued last and hands back the
    /// next call, if there is one.
    ///
    /// After a failed unmonitor call the file of that episode is left alone
    /// and the run goes on with the next candidate.
    pub fn report(&mut self, ok: bool) -> (call: Option<Mutation>)
        ensures
            (final(self)@, call) == after(old(self)@, ok),
    {
        if self.current >= self.files.len() {
            self.stage = Stage::Finished;
            None
        } else {
            match self.stage {
                Stage::Unmonitoring => if ok {
                    self.stage = Stage::Deleting;
                    Some(
                        Mutation::DeleteFile {
                            episode_file_id: self.files[self.current].episode_file_id,
                        },
                    )
                } else {
                    self.settle(Fate::UnmonitorFailed)
                },
                Stage::Deleting => {
                    let fate = if ok {
                        Fate::Deleted
                    } else {
                        Fate::DeleteFailed
                    };
                    self.settle(fate)
                },
                Stage::Finished => None,
            }
        }
    }

    /// Whether no call is outstanding and none will follow.
    pub fn is_finished(&self) -> (done: bool)
        ensures
            done == (self.stage == Stage::Finished),
    {
        match self.stage {
            Stage::Finished => true,
            _ => false,
        }
    }

    /// How many candidates went well and how many did not, so far.
    pub fn summary(&self) -> (counts: Summary)
        ensures
            counts.succeeded == deleted_count(self.fates@),
            counts.succeeded + counts.failed == self.fates@.len(),
    {
        let mut succeeded: usize = 0;
        let mut i: usize = 0;
        assert(self.fates@.take(0) =~= Seq::<Fate>::empty());
        while i < self.fates.len()
            invariant
                i <= self.fates.len(),
                succeeded == deleted_count(self.fates@.take(i as int)),
                succeeded <= i,
            decreases self.fates.len() - i,
        {
            assert(self.fates@.take(i + 1).drop_last() =~= self.fates@.take(i as int));
            match self.fates[i] {
                Fate::Deleted => {
                    succeeded += 1;
                },
                _ => {},
            }
            i += 1;
        }
        assert(self.fates@.take(i as int) =~= self.fates@);
        Summary { succeeded, failed: self.fates.len() - succeeded }
    }

    /// The result of the run: a failure as soon as one candidate failed,
    /// though the others went through.
    pub fn outcome(&self) -> (result: Result<Summary, DeletionFailure>)
        ensures
            match result {
                Ok(counts) => {
                    &&& deleted_count(self.fates@) == self.fates@.len()
                    &&& counts.succeeded == self.fates@.len()
                    &&& counts.failed == 0
                },
                Err(failure) => {
                    &&& deleted_count(self.fates@) < self.fates@.len()
                    &&& failure.failed == self.fates@.len() - deleted_count(self.fates@)
                    &&& failure.total == self.files@.len()
                },
            },
    {
        let counts: Summary = self.summary();
        if counts.failed > 0 {
            Err(DeletionFailure { failed: counts.failed, total: self.files.len() })
        } else {
            Ok(counts)
        }
    }
}

} // verus!
