//! The step pipeline executor.
//!
//! Given a test plan, every step is executed in declared order and the
//! run succeeds only if every step succeeds; the first failure stops
//! the pipeline at once and later steps never run.  Each step's outside
//! work (processes, files) is performed by the surrounding binary
//! against the plans the other modules produce; the executor tracks
//! which step runs next and turns the observed step results into the
//! run's verdict.

use vstd::prelude::*;

use crate::plan::{TestPlan, TestStep};
use crate::template::RepoConfig;

verus! {

/// The run's invocation arguments: build-only suppresses the
/// run/judge phase of every step while still performing builds.
#[derive(Debug, Clone, Copy)]
pub struct TestArgs {
    pub build_only: bool,
}

/// Everything one invocation works against: the repository root, the
/// task directory, the repository configuration and the arguments.
pub struct TestContext {
    pub repo_root: String,
    pub task_dir: String,
    pub repo_config: RepoConfig,
    pub args: TestArgs,
}

impl TestContext {
    /// Builds the context for one invocation from the discovered
    /// repository root and task directory.
    pub fn new(repo_root: String, task_dir: String, args: TestArgs) -> (r: Self)
        ensures
            r.repo_root == repo_root,
            r.task_dir == task_dir,
            r.args == args,
            r.repo_config.repo_root == repo_root,
            r.repo_config.tools@.len() == 2,
            r.repo_config.tools@[0].0@ == "nej-runner"@,
            r.repo_config.tools@[0].1@ == "common/tools/test.py"@,
            r.repo_config.tools@[1].0@ == "clang-fmt-runner"@,
            r.repo_config.tools@[1].1@ == "common/tools/run-clang-format.py"@,
    {
        let repo_config = RepoConfig::new(repo_root.clone());
        TestContext { repo_root, task_dir, repo_config, args }
    }
}

/// The step kinds the executor dispatches on.
#[derive(PartialEq, Eq, Structural, Debug, Clone, Copy)]
pub enum StepKind {
    RunCmd,
    ForbiddenPatterns,
    JudgeRun,
}

/// The kind of a step, for dispatch to its handler.
pub fn step_kind(step: &TestStep) -> (r: StepKind)
    ensures
        r == StepKind::RunCmd <==> step is RunCmd,
        r == StepKind::ForbiddenPatterns <==> step is ForbiddenPatterns,
        r == StepKind::JudgeRun <==> step is JudgeRun,
{
    match step {
        TestStep::RunCmd(_) => StepKind::RunCmd,
        TestStep::ForbiddenPatterns(_) => StepKind::ForbiddenPatterns,
        TestStep::JudgeRun(_) => StepKind::JudgeRun,
    }
}

// ---------------------------------------------------------------------
// The run, step by step.
// ---------------------------------------------------------------------
/// The index of the first failing step, if any.
pub open spec fn spec_first_failure(results: Seq<bool>) -> Option<int>
    decreases results.len(),
{
    if results.len() == 0 {
        None
    } else if !results[0] {
        Some(0)
    } else {
        match spec_first_failure(results.drop_first()) {
            Some(i) => Some(i + 1),
            None => None,
        }
    }
}

/// How many steps a fail-fast run executes: every step up to and
/// including the first failing one, or all of them.
pub open spec fn spec_steps_executed(results: Seq<bool>) -> int {
    match spec_first_failure(results) {
        Some(i) => i + 1,
        None => results.len() as int,
    }
}

/// Fail-fast: when the steps before `i` succeed and step `i` fails,
/// the run executes exactly the steps up to and including `i`, the
/// failure is attributed to step `i`, and no later step is executed —
/// its effects never occur.
pub proof fn lemma_fail_fast(results: Seq<bool>, i: int)
    requires
        0 <= i < results.len(),
        !results[i],
        forall|j: int| 0 <= j < i ==> results[j],
    ensures
        spec_first_failure(results) == Some(i),
        spec_steps_executed(results) == i + 1,
    decreases i,
{
    if i == 0 {
    } else {
        assert(results[0]);
        assert(forall|j: int|
            0 <= j < i - 1 ==> #[trigger] results.drop_first()[j] == results[j + 1]);
        assert(results.drop_first()[i - 1] == results[i]);
        lemma_fail_fast(results.drop_first(), i - 1);
    }
}

/// A run with no failing step executes every step.
pub proof fn lemma_all_succeed(results: Seq<bool>)
    requires
        forall|j: int| 0 <= j < results.len() ==> results[j],
    ensures
        spec_first_failure(results) is None,
        spec_steps_executed(results) == results.len(),
    decreases results.len(),
{
    if results.len() > 0 {
        assert(results[0]);
        assert(forall|j: int|
            0 <= j < results.len() - 1 ==> #[trigger] results.drop_first()[j] == results[j + 1]);
        lemma_all_succeed(results.drop_first());
    }
}

/// One fail-fast run over a plan's steps.
pub struct TestRun {
    pub total_steps: usize,
    pub next_step: usize,
    pub failed: Option<usize>,
}

impl TestRun {
    /// A consistent run state: the cursor is within the plan and a
    /// recorded failure lies behind the cursor.
    pub open spec fn wf(self) -> bool {
        &&& self.next_step <= self.total_steps
        &&& match self.failed {
            Some(i) => i + 1 == self.next_step,
            None => true,
        }
    }

    /// The step to execute next: none once the run has failed or every
    /// step has finished.
    pub fn current_step(&self) -> (r: Option<usize>)
        ensures
            r == if self.failed is None && self.next_step < self.total_steps {
                Some(self.next_step)
            } else {
                None::<usize>
            },
    {
        if self.failed.is_none() && self.next_step < self.total_steps {
            Some(self.next_step)
        } else {
            None
        }
    }

    /// Takes the running step's result: success moves on to the next
    /// step, failure stops the run and charges it to this step.
    pub fn on_step_result(&mut self, ok: bool)
        requires
            old(self).wf(),
            old(self).failed is None,
            old(self).next_step < old(self).total_steps,
        ensures
            final(self).wf(),
            final(self).total_steps == old(self).total_steps,
            final(self).next_step == old(self).next_step + 1,
            ok ==> final(self).failed is None,
            !ok ==> final(self).failed == Some(old(self).next_step),
    {
        if !ok {
            self.failed = Some(self.next_step);
        }
        self.next_step = self.next_step + 1;
    }

    /// The run's verdict once no step is left to execute: success
    /// exactly when every executed step succeeded.
    pub fn outcome(&self) -> (r: Option<Result<(), usize>>)
        ensures
            self.failed is None && self.next_step < self.total_steps ==> r is None,
            self.failed matches Some(i) ==> r == Some(Err::<(), usize>(i)),
            self.failed is None && self.next_step == self.total_steps ==> r == Some(
                Ok::<(), usize>(()),
            ),
    {
        match self.failed {
            Some(i) => Some(Err(i)),
            None => {
                if self.next_step == self.total_steps {
                    Some(Ok(()))
                } else {
                    None
                }
            },
        }
    }
}

/// Starts one run of a task's test plan: the executor begins at the
/// first step with no failure recorded.
pub fn do_test(ctx: &TestContext, plan: &TestPlan) -> (r: TestRun)
    ensures
        r.wf(),
        r.total_steps == plan.tests@.len(),
        r.next_step == 0,
        r.failed is None,
{
    TestRun { total_steps: plan.tests.len(), next_step: 0, failed: None }
}

// ---------------------------------------------------------------------
// The formatting step's version policy.
// ---------------------------------------------------------------------
/// What to do with the detected formatter version.
#[derive(PartialEq, Eq, Structural, Debug, Clone, Copy)]
pub enum FormatVersionPolicy {
    /// Below the minimal supported version: the step fails.
    TooOld,
    /// Supported but below the desired version: use the conservative
    /// configuration.
    Conservative,
    /// At or above the desired version: use the current configuration.
    Current,
}

/// The minimal supported major version of the formatter.
pub const MINIMAL_SUPPORTED_FORMAT_VERSION: u8 = 11;

/// The desired major version of the formatter.
pub const DESIRED_FORMAT_VERSION: u8 = 15;

/// Classifies the formatter's major version against the supported and
/// desired thresholds.
pub fn classify_format_version(version: u8) -> (r: FormatVersionPolicy)
    ensures
        r == FormatVersionPolicy::TooOld <==> version < MINIMAL_SUPPORTED_FORMAT_VERSION,
        r == FormatVersionPolicy::Conservative <==> (MINIMAL_SUPPORTED_FORMAT_VERSION <= version
            && version < DESIRED_FORMAT_VERSION),
        r == FormatVersionPolicy::Current <==> version >= DESIRED_FORMAT_VERSION,
{
    if version < MINIMAL_SUPPORTED_FORMAT_VERSION {
        FormatVersionPolicy::TooOld
    } else if version < DESIRED_FORMAT_VERSION {
        FormatVersionPolicy::Conservative
    } else {
        FormatVersionPolicy::Current
    }
}

} // verus!
