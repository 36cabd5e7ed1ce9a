//! The execution controller: a manifest is run twice over the same plugins,
//! first to validate it, then to apply it.
//!
//! Each pass gets a bridge of its own, built for the phase. The apply pass
//! begins only when the validate pass has ended without error. A failure while
//! applying leaves what was applied before it applied.
//!
//! A run borrows the plugins exclusively: no two runs over one set of plugins
//! are under way at a time.

use crate::bridge::{build, ends, EngineError, PhaseFailure, ScriptFailure};
use crate::protocol::PluginLibrary;
use crate::manifest::ManifestScript;
use crate::registry::ModuleDescriptor;
use crate::ExecutionPhase;
use vstd::prelude::*;

verus! {

/// Why a run failed.
#[derive(Debug, Clone, PartialEq, Eq)]
pub enum RunError {
    /// The manifest did not validate. Nothing was applied.
    Validation(ScriptFailure),
    /// The manifest validated and then failed to apply. What was applied
    /// before the failure stays applied.
    Apply(ScriptFailure),
    /// A plugin or the scripting engine failed.
    Fatal(EngineError),
}

/// Where a run stands.
#[derive(Debug, Clone, PartialEq, Eq)]
pub enum RunState {
    Idle,
    Validating,
    Validated,
    Applying,
    Applied,
    Failed(RunError),
}

impl RunState {
    /// The state in which the next pass has begun, where one is due.
    pub open spec fn begun(self) -> RunState {
        match self {
            RunState::Idle => RunState::Validating,
            RunState::Validated => RunState::Applying,
            other => other,
        }
    }

    /// The pass that is under way.
    pub open spec fn phase_spec(self) -> Option<ExecutionPhase> {
        match self {
            RunState::Validating => Some(ExecutionPhase::Validating),
            RunState::Applying => Some(ExecutionPhase::Applying),
            _ => None,
        }
    }

    /// The state in which the pass under way has ended with `outcome`.
    pub open spec fn finished(self, outcome: Result<(), PhaseFailure>) -> RunState {
        match self {
            RunState::Validating => match outcome {
                Ok(_) => RunState::Validated,
                Err(PhaseFailure::Script(failure)) => RunState::Failed(
                    RunError::Validation(failure),
                ),
                Err(PhaseFailure::Fatal(failure)) => RunState::Failed(RunError::Fatal(failure)),
            },
            RunState::Applying => match outcome {
                Ok(_) => RunState::Applied,
                Err(PhaseFailure::Script(failure)) => RunState::Failed(RunError::Apply(failure)),
                Err(PhaseFailure::Fatal(failure)) => RunState::Failed(RunError::Fatal(failure)),
            },
            other => other,
        }
    }

    /// What the run came to, once it is over.
    pub open spec fn result_spec(self) -> Option<Result<(), RunError>> {
        match self {
            RunState::Applied => Some(Ok(())),
            RunState::Failed(error) => Some(Err(error)),
            _ => None,
        }
    }

    /// Begins the pass that is due: validation from `Idle`, application from
    /// `Validated`. In any other state nothing is due and nothing changes.
    pub fn begin(self) -> (next: RunState)
        ensures
            next == self.begun(),
    {
        match self {
            RunState::Idle => RunState::Validating,
            RunState::Validated => RunState::Applying,
            other => other,
        }
    }

    /// The pass that is under way, if one is.
    pub fn phase(&self) -> (phase: Option<ExecutionPhase>)
        ensures
            phase == self.phase_spec(),
    {
        match self {
            RunState::Validating => Some(ExecutionPhase::Validating),
            RunState::Applying => Some(ExecutionPhase::Applying),
            _ => None,
        }
    }

    /// Ends the pass under way with `outcome`. A pass that ended well leads
    /// on, any failure ends the run. While no pass is under way nothing
    /// changes.
    pub fn finish(self, outcome: Result<(), PhaseFailure>) -> (next: RunState)
        ensures
            next == self.finished(outcome),
    {
        match self {
            RunState::Validating => match outcome {
                Ok(_) => RunState::Validated,
                Err(PhaseFailure::Script(failure)) => RunState::Failed(
                    RunError::Validation(failure),
                ),
                Err(PhaseFailure::Fatal(failure)) => RunState::Failed(RunError::Fatal(failure)),
            },
            RunState::Applying => match outcome {
                Ok(_) => RunState::Applied,
                Err(PhaseFailure::Script(failure)) => RunState::Failed(RunError::Apply(failure)),
                Err(PhaseFailure::Fatal(failure)) => RunState::Failed(RunError::Fatal(failure)),
            },
            other => other,
        }
    }

    /// What the run came to, once it is over.
    pub fn result(self) -> (r: Option<Result<(), RunError>>)
        ensures
            r == self.result_spec(),
    {
        match self {
            RunState::Applied => Some(Ok(())),
            RunState::Failed(error) => Some(Err(error)),
            _ => None,
        }
    }
}

/// The state of a run whose passes ended with `outcomes`, in turn.
pub open spec fn after(outcomes: Seq<Result<(), PhaseFailure>>) -> RunState
    decreases outcomes.len(),
{
    if outcomes.len() == 0 {
        RunState::Idle
    } else {
        after(outcomes.drop_last()).begun().finished(outcomes.last())
    }
}

/// What a run comes to when its passes end with `outcomes`, in turn: the
/// failure of the first pass if it failed, else that of the second, else
/// success. A run of fewer passes than that is not over.
pub open spec fn conclusion(outcomes: Seq<Result<(), PhaseFailure>>) -> Option<Result<(), RunError>> {
    if outcomes.len() == 0 {
        None
    } else {
        match outcomes[0] {
            Err(PhaseFailure::Script(failure)) => Some(Err(RunError::Validation(failure))),
            Err(PhaseFailure::Fatal(failure)) => Some(Err(RunError::Fatal(failure))),
            Ok(_) => if outcomes.len() == 1 {
                None
            } else {
                match outcomes[1] {
                    Err(PhaseFailure::Script(failure)) => Some(Err(RunError::Apply(failure))),
                    Err(PhaseFailure::Fatal(failure)) => Some(Err(RunError::Fatal(failure))),
                    Ok(_) => Some(Ok(())),
                }
            },
        }
    }
}

/// The state machine comes to this conclusion: the result of a run is decided by
/// its first failure, and by nothing that follows it.
pub proof fn machine_reaches_conclusion(outcomes: Seq<Result<(), PhaseFailure>>)
    ensures
        after(outcomes).result_spec() == conclusion(outcomes),
    decreases outcomes.len(),
{
    if outcomes.len() > 0 {
        let front = outcomes.drop_last();
        machine_reaches_conclusion(front);
        applied_after_two_good_passes(front);
        if front.len() > 0 {
            assert(front[0] == outcomes[0]);
        }
        if front.len() > 1 {
            assert(front[1] == outcomes[1]);
        }
    }
}

/// A run whose validation failed never begins to apply, whatever follows: it
/// has failed, and stays so.
pub proof fn failed_validation_never_applies(outcomes: Seq<Result<(), PhaseFailure>>, k: int)
    requires
        outcomes.len() > 0,
        outcomes[0] is Err,
        0 <= k <= outcomes.len(),
    ensures
        after(outcomes.take(k)).begun().phase_spec() != Some(ExecutionPhase::Applying),
        k > 0 ==> after(outcomes.take(k)) == after(outcomes.take(1)),
        after(outcomes.take(1)) is Failed,
    decreases k,
{
    reveal_with_fuel(after, 3);
    assert(outcomes.take(1).drop_last() =~= Seq::<Result<(), PhaseFailure>>::empty());
    assert(outcomes.take(1).last() == outcomes[0]);
    assert(after(outcomes.take(1)) == RunState::Validating.finished(outcomes[0]));
    if k > 1 {
        failed_validation_never_applies(outcomes, k - 1);
        assert(outcomes.take(k).drop_last() =~= outcomes.take(k - 1));
    } else if k == 0 {
        assert(outcomes.take(0) =~= Seq::<Result<(), PhaseFailure>>::empty());
    }
}

/// A run has applied the manifest exactly when its first two passes ended
/// well.
pub proof fn applied_after_two_good_passes(outcomes: Seq<Result<(), PhaseFailure>>)
    ensures
        after(outcomes) is Applied <==> outcomes.len() >= 2 && outcomes[0] is Ok && outcomes[1]
            is Ok,
        after(outcomes) is Idle <==> outcomes.len() == 0,
        after(outcomes) is Validated <==> outcomes.len() == 1 && outcomes[0] is Ok,
        !(after(outcomes) is Validating) && !(after(outcomes) is Applying),
    decreases outcomes.len(),
{
    if outcomes.len() > 0 {
        applied_after_two_good_passes(outcomes.drop_last());
    }
}

impl RunError {
    /// The text that reports this failure: the message of the script's error,
    /// which is the plugin's where a plugin refused, or that of the engine's
    /// failure.
    pub open spec fn text(self) -> Seq<char> {
        match self {
            RunError::Validation(failure) => failure.text(),
            RunError::Apply(failure) => failure.text(),
            RunError::Fatal(failure) => failure.text(),
        }
    }

    /// The text that reports this failure.
    pub fn message(&self) -> (s: String)
        ensures
            s@ == self.text(),
    {
        match self {
            RunError::Validation(failure) => failure.message(),
            RunError::Apply(failure) => failure.message(),
            RunError::Fatal(failure) => failure.message(),
        }
    }
}

/// `r` is how a pass ends. Where the bridge could not be built, which
/// `unbuilt` then says, the pass fails with that failure of the scripting
/// engine. Else the manifest ran in the bridge, and the pass ends as the
/// bridge says of how the script ended, `ended`, and of what the bindings set
/// aside, `aside`.
pub open spec fn pass_ends(
    r: Result<(), PhaseFailure>,
    unbuilt: Option<EngineError>,
    ended: Result<(), mlua::Error>,
    aside: Option<EngineError>,
) -> bool {
    match unbuilt {
        Some(failure) => failure is Scripting && r == Err::<(), PhaseFailure>(
            PhaseFailure::Fatal(failure),
        ),
        None => ends(r, ended, aside),
    }
}

/// Runs one pass: builds the bridge for `phase` and runs the manifest in it.
/// Without modules the bridge is always built.
fn run_phase<H: PluginLibrary + Clone + 'static>(
    phase: ExecutionPhase,
    manifest: &ManifestScript,
    modules: &Vec<ModuleDescriptor<H>>,
) -> (r: Result<(), PhaseFailure>)
    ensures
        exists|
            unbuilt: Option<EngineError>,
            ended: Result<(), mlua::Error>,
            aside: Option<EngineError>,
        |
            #[trigger] pass_ends(r, unbuilt, ended, aside) && (modules.len() == 0 ==> unbuilt
                is None),
{
    match build(phase, modules) {
        Ok(context) => {
            let r = context.execute(manifest);
            proof {
                let (ended, aside) = choose|
                    ended: Result<(), mlua::Error>,
                    aside: Option<EngineError>,
                | #[trigger] ends(r, ended, aside);
                assert(pass_ends(r, None, ended, aside));
            }
            r
        },
        Err(failure) => {
            let r = Err(PhaseFailure::Fatal(failure));
            assert(pass_ends(
                r,
                Some(failure),
                vstd::pervasive::arbitrary(),
                vstd::pervasive::arbitrary(),
            ));
            r
        },
    }
}

/// A pass that was run: its phase, and how it ended.
pub type PassEntry = (ExecutionPhase, Result<(), PhaseFailure>);

/// What runs the passes of a manifest. It keeps a log of the passes that it
/// ran.
pub trait Passes {
    /// The passes run so far, in order, each with how it ended.
    spec fn log(&self) -> Seq<PassEntry>;

    /// Runs one pass for `phase`. The log grows by this pass and how it ended.
    fn pass(&mut self, phase: ExecutionPhase) -> (outcome: Result<(), PhaseFailure>)
        ensures
            final(self).log() == old(self).log().push((phase, outcome)),
    ;
}

/// How the passes of `entries` ended, in order.
pub open spec fn outcomes_of(entries: Seq<PassEntry>) -> Seq<Result<(), PhaseFailure>> {
    Seq::new(entries.len(), |i: int| entries[i].1)
}

/// A run took the log from `before` to `now` and came to `r`: the log grew by
/// a validating pass alone where that pass failed, and by a validating pass
/// and an applying pass after it where it ended well; and `r` is the
/// conclusion on how these passes ended.
pub open spec fn ran(before: Seq<PassEntry>, now: Seq<PassEntry>, r: Result<(), RunError>) -> bool {
    let start = before.len() as int;
    &&& now.len() > start
    &&& now.take(start) == before
    &&& now[start].0 == ExecutionPhase::Validating
    &&& match now[start].1 {
        Err(_) => now.len() == start + 1,
        Ok(_) => now.len() == start + 2 && now[start + 1].0 == ExecutionPhase::Applying,
    }
    &&& conclusion(outcomes_of(now.skip(start))) == Some(r)
}

/// Runs the two passes of a manifest with `passes`: validation, and, only if
/// that ended well, application. The result is the failure of the first pass
/// that failed, and success after two passes that ended well.
pub fn run_passes<P: Passes>(passes: &mut P) -> (r: Result<(), RunError>)
    ensures
        ran(old(passes).log(), final(passes).log(), r),
{
    let ghost before = passes.log();
    let validating = RunState::Idle.begin();
    let first = passes.pass(ExecutionPhase::Validating);
    let ghost one = passes.log();
    let validated = validating.finish(first);
    let applying = validated.begin();
    match applying.phase() {
        Some(phase) => {
            let second = passes.pass(phase);
            let done = applying.finish(second);
            proof {
                let now = passes.log();
                assert(now.take(before.len() as int) =~= before);
                assert(outcomes_of(now.skip(before.len() as int)) =~= seq![first, second]);
            }
            match done.result() {
                Some(r) => r,
                None => Ok(()),
            }
        },
        None => {
            proof {
                assert(one.take(before.len() as int) =~= before);
                assert(outcomes_of(one.skip(before.len() as int)) =~= seq![first]);
            }
            match applying.result() {
                Some(r) => r,
                None => Ok(()),
            }
        },
    }
}

/// The passes of one manifest over one set of plugins, each in a bridge of its
/// own.
struct BridgePasses<'a, H> {
    manifest: &'a ManifestScript,
    modules: &'a Vec<ModuleDescriptor<H>>,
    log: Ghost<Seq<PassEntry>>,
}

impl<'a, H: PluginLibrary + Clone + 'static> Passes for BridgePasses<'a, H> {
    closed spec fn log(&self) -> Seq<PassEntry> {
        self.log@
    }

    fn pass(&mut self, phase: ExecutionPhase) -> (outcome: Result<(), PhaseFailure>) {
        let outcome = run_phase(phase, self.manifest, self.modules);
        proof {
            self.log@ = self.log@.push((phase, outcome));
        }
        outcome
    }
}

/// Validates `manifest` against `modules` and, if that went well, applies it.
///
/// Both passes run the same text, each in a bridge of its own, as
/// [`run_passes`] says. The result is the [`conclusion`] on the outcomes of
/// the passes that ran: `Ok` only after two passes that ended well, and the
/// failure of the first pass that failed otherwise. The plugins are borrowed
/// exclusively for the run and are handed back as they were.
pub fn run<H: PluginLibrary + Clone + 'static>(
    manifest: &ManifestScript,
    modules: &mut Vec<ModuleDescriptor<H>>,
) -> (r: Result<(), RunError>)
    ensures
        *final(modules) == *old(modules),
        exists|outcomes: Seq<Result<(), PhaseFailure>>|
            0 < outcomes.len() <= 2 && #[trigger] conclusion(outcomes) == Some(r),
{
    let mut passes = BridgePasses { manifest, modules: &*modules, log: Ghost(Seq::empty()) };
    let r = run_passes(&mut passes);
    proof {
        let outcomes = outcomes_of(passes.log().skip(0));
        assert(conclusion(outcomes) == Some(r));
    }
    r
}

} // verus!
