//! The loaded test plan: an ordered step list plus the editable-file
//! globs.  Steps are read-only once the plan is built; the engine walks
//! them in declared order.

use vstd::prelude::*;

use crate::profile::BuildProfile;

verus! {

/// A command template step: a token list, an echo flag and the profiles
/// to run the command under.
pub struct RunCmd {
    pub cmd: Vec<String>,
    pub echo: bool,
    pub profiles: Vec<BuildProfile>,
}

/// One pattern group: literal substrings (matched verbatim), tokens
/// (matched only at word boundaries), raw pattern fragments (used as-is),
/// and an optional hint attached to every match of the group.
pub struct ForbiddenPatternsGroup {
    pub substring: Vec<String>,
    pub token: Vec<String>,
    pub regex: Vec<String>,
    pub hint: Option<String>,
}

impl ForbiddenPatternsGroup {
    /// A group with all three match-source lists empty produces no
    /// matcher and is ignored by the scanner.
    pub open spec fn spec_is_empty(&self) -> bool {
        self.substring@.len() == 0 && self.token@.len() == 0 && self.regex@.len() == 0
    }

    pub fn is_empty(&self) -> (r: bool)
        ensures
            r == self.spec_is_empty(),
    {
        self.substring.len() == 0 && self.token.len() == 0 && self.regex.len() == 0
    }
}

/// A forbidden-patterns step: the inline default group followed by the
/// explicitly listed groups.
pub struct ForbiddenPatterns {
    pub groups: Vec<ForbiddenPatternsGroup>,
}

impl ForbiddenPatterns {
    /// Builds the step from the inline default group and the listed
    /// groups; the inline group comes first.
    pub fn new(base: ForbiddenPatternsGroup, extra: Vec<ForbiddenPatternsGroup>) -> (r: Self)
        ensures
            r.groups@ == extra@.insert(0, base),
    {
        let ghost extra0 = extra@;
        let mut groups: Vec<ForbiddenPatternsGroup> = Vec::new();
        groups.push(base);
        let mut rest = extra;
        while rest.len() > 0
            invariant
                rest@.len() <= extra0.len(),
                groups@ =~= seq![base] + extra0.take(extra0.len() - rest@.len()),
                rest@ =~= extra0.skip(extra0.len() - rest@.len()),
            decreases rest@.len(),
        {
            let g = rest.remove(0);
            groups.push(g);
        }
        proof {
            assert(groups@ =~= extra0.insert(0, base));
        }
        ForbiddenPatterns { groups }
    }

    pub fn groups(&self) -> (r: &Vec<ForbiddenPatternsGroup>)
        ensures
            r == &self.groups,
    {
        &self.groups
    }
}

/// A judge step: the solution target, optional checker and interactor
/// references, extra judge arguments, the retest and retry counts handed
/// to the judge, and the profiles to judge under.
pub struct JudgeRun {
    pub solution: String,
    pub checker: Option<String>,
    pub interactor: Option<String>,
    pub extra_args: Vec<String>,
    pub retests_count: u64,
    pub retries_count: u64,
    pub profiles: Vec<BuildProfile>,
}

/// One step of a test plan.
pub enum TestStep {
    RunCmd(RunCmd),
    ForbiddenPatterns(ForbiddenPatterns),
    JudgeRun(JudgeRun),
}

/// The whole plan of one task: its ordered steps and the glob patterns
/// that identify the task's editable files.
pub struct TestPlan {
    pub tests: Vec<TestStep>,
    pub editable: Vec<String>,
}

} // verus!
