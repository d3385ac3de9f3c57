//! The command-argument template processor.
//!
//! A command token is either a literal argument or a reference of the
//! shape `<processor>:<payload>`.  The recognized processors resolve a
//! tool from the static registry, a task-local file, or a build artifact
//! under the iteration profile or an explicitly tagged one.  Resolution
//! is a pure function of the repository configuration, the task
//! directory, the active profile and the token.

use vstd::prelude::*;

use crate::errors::TestError;
use crate::plan::RunCmd;
use crate::profile::BuildProfile;
use crate::strutil::{find_char, path_join, spec_path_join};

verus! {

// ---------------------------------------------------------------------
// The static tool registry.
// ---------------------------------------------------------------------
/// First-match lookup in the tool registry.
pub open spec fn spec_tool_lookup(tools: Seq<(String, String)>, name: Seq<char>) -> Option<
    Seq<char>,
>
    decreases tools.len(),
{
    if tools.len() == 0 {
        None
    } else if tools[0].0@ == name {
        Some(tools[0].1@)
    } else {
        spec_tool_lookup(tools.drop_first(), name)
    }
}

/// The repository-level configuration: the static registry of symbolic
/// tool names and the repository root path.
pub struct RepoConfig {
    pub tools: Vec<(String, String)>,
    pub repo_root: String,
}

impl RepoConfig {
    /// Builds the configuration with the two registered tools: the
    /// judge-runner script and the format-runner script.
    pub fn new(repo_root: String) -> (r: Self)
        ensures
            r.repo_root == repo_root,
            r.tools@.len() == 2,
            r.tools@[0].0@ == "nej-runner"@,
            r.tools@[0].1@ == "common/tools/test.py"@,
            r.tools@[1].0@ == "clang-fmt-runner"@,
            r.tools@[1].1@ == "common/tools/run-clang-format.py"@,
    {
        let mut tools: Vec<(String, String)> = Vec::new();
        tools.push((String::from_str("nej-runner"), String::from_str("common/tools/test.py")));
        tools.push(
            (String::from_str("clang-fmt-runner"), String::from_str(
                "common/tools/run-clang-format.py",
            )),
        );
        RepoConfig { tools, repo_root }
    }

    /// Looks a symbolic tool name up in the registry.
    pub fn get_tool(&self, name: &str) -> (r: Result<String, TestError>)
        ensures
            match r {
                Ok(p) => spec_tool_lookup(self.tools@, name@) == Some(p@),
                Err(e) => spec_tool_lookup(self.tools@, name@) is None && (e
                    matches TestError::ToolNotFound { name: n } && n@ == name@),
            },
    {
        let name_s = String::from_str(name);
        let n = self.tools.len();
        proof {
            assert(self.tools@.skip(0) =~= self.tools@);
        }
        for i in 0..n
            invariant
                n == self.tools@.len(),
                name_s@ == name@,
                spec_tool_lookup(self.tools@, name@) == spec_tool_lookup(
                    self.tools@.skip(i as int),
                    name@,
                ),
                forall|j: int| 0 <= j < i ==> (#[trigger] self.tools@[j]).0@ != name@,
        {
            proof {
                assert(self.tools@.skip(i as int)[0] == self.tools@[i as int]);
                assert(self.tools@.skip(i as int).drop_first() =~= self.tools@.skip(i + 1));
            }
            if self.tools[i].0 == name_s {
                return Ok(self.tools[i].1.clone());
            }
        }
        Err(TestError::ToolNotFound { name: name_s })
    }

    /// The repository-relative tool path joined under the repository
    /// root.
    pub fn get_tool_path(&self, name: &str) -> (r: Result<String, TestError>)
        ensures
            match r {
                Ok(p) => spec_tool_lookup(self.tools@, name@) matches Some(t) && p@
                    == spec_path_join(self.repo_root@, t),
                Err(e) => spec_tool_lookup(self.tools@, name@) is None && (e
                    matches TestError::ToolNotFound { name: n } && n@ == name@),
            },
    {
        match self.get_tool(name) {
            Ok(t) => Ok(path_join(self.repo_root.as_str(), t.as_str())),
            Err(e) => Err(e),
        }
    }
}

// ---------------------------------------------------------------------
// Token resolution.
// ---------------------------------------------------------------------
/// The index of the first occurrence of `c` in `s`, if any.
pub open spec fn spec_find_char(s: Seq<char>, c: char) -> Option<int>
    decreases s.len(),
{
    if s.len() == 0 {
        None
    } else if s[0] == c {
        Some(0)
    } else {
        match spec_find_char(s.drop_first(), c) {
            Some(i) => Some(i + 1),
            None => None,
        }
    }
}

/// `spec_find_char` picks exactly the first occurrence.
pub proof fn lemma_find_char_props(s: Seq<char>, c: char)
    ensures
        match spec_find_char(s, c) {
            Some(i) => 0 <= i < s.len() && s[i] == c && forall|j: int| 0 <= j < i ==> s[j] != c,
            None => forall|j: int| 0 <= j < s.len() ==> s[j] != c,
        },
    decreases s.len(),
{
    if s.len() == 0 {
    } else if s[0] == c {
    } else {
        lemma_find_char_props(s.drop_first(), c);
        match spec_find_char(s.drop_first(), c) {
            Some(i) => {
                assert(s[i + 1] == s.drop_first()[i]);
                assert forall|j: int| 0 <= j < i + 1 implies s[j] != c by {
                    if j >= 1 {
                        assert(s.drop_first()[j - 1] != c);
                        assert(s[j] == s.drop_first()[j - 1]);
                    }
                }
            },
            None => {
                assert forall|j: int| 0 <= j < s.len() implies s[j] != c by {
                    if j >= 1 {
                        assert(s.drop_first()[j - 1] != c);
                        assert(s[j] == s.drop_first()[j - 1]);
                    }
                }
            },
        }
    }
}

/// The artifact path of a target under a profile's build directory.
pub open spec fn spec_artifact_path(
    repo_root: Seq<char>,
    target: Seq<char>,
    profile: BuildProfile,
) -> Seq<char> {
    spec_path_join(spec_path_join(repo_root, profile.spec_build_dir()), target)
}

/// Computes the artifact path `<repo-root>/<build-dir>/<target>`.
pub fn artifact_path(repo_root: &str, target: &str, profile: BuildProfile) -> (r: String)
    ensures
        r@ == spec_artifact_path(repo_root@, target@, profile),
{
    let dir = path_join(repo_root, profile.build_dir());
    path_join(dir.as_str(), target)
}

/// What resolving one token comes to.
pub ghost enum ArgSpecOutcome {
    /// The token resolves to this process argument with no build needed.
    Ready(Seq<char>),
    /// The token resolves to this artifact path, and the named target
    /// must be built under the given profile first.
    NeedsBuild(Seq<char>, Seq<char>, BuildProfile),
    /// The token named an unregistered processor.
    ProcessorNotFound(Seq<char>),
    /// A `tool:` token named an unregistered tool.
    ToolNotFound(Seq<char>),
}

/// Resolves one token against the registry, the task directory and the
/// iteration profile.  A token without `:` is a literal; otherwise the
/// part before the first `:` picks the processor and the rest is its
/// payload.
pub open spec fn spec_process_arg(
    tools: Seq<(String, String)>,
    repo_root: Seq<char>,
    task_dir: Seq<char>,
    profile: BuildProfile,
    arg: Seq<char>,
) -> ArgSpecOutcome {
    match spec_find_char(arg, ':') {
        None => ArgSpecOutcome::Ready(arg),
        Some(ci) => {
            let proc = arg.take(ci);
            let payload = arg.skip(ci + 1);
            if proc == "tool"@ {
                match spec_tool_lookup(tools, payload) {
                    Some(t) => ArgSpecOutcome::Ready(spec_path_join(repo_root, t)),
                    None => ArgSpecOutcome::ToolNotFound(payload),
                }
            } else if proc == "local"@ {
                ArgSpecOutcome::Ready(spec_path_join(task_dir, payload))
            } else if proc == "build"@ {
                ArgSpecOutcome::NeedsBuild(
                    spec_artifact_path(repo_root, payload, profile),
                    payload,
                    profile,
                )
            } else if proc == "build(rel)"@ {
                ArgSpecOutcome::NeedsBuild(
                    spec_artifact_path(repo_root, payload, BuildProfile::Release),
                    payload,
                    BuildProfile::Release,
                )
            } else if proc == "build(dbg)"@ {
                ArgSpecOutcome::NeedsBuild(
                    spec_artifact_path(repo_root, payload, BuildProfile::Debug),
                    payload,
                    BuildProfile::Debug,
                )
            } else if proc == "build(asan)"@ {
                ArgSpecOutcome::NeedsBuild(
                    spec_artifact_path(repo_root, payload, BuildProfile::ASan),
                    payload,
                    BuildProfile::ASan,
                )
            } else if proc == "build(tsan)"@ {
                ArgSpecOutcome::NeedsBuild(
                    spec_artifact_path(repo_root, payload, BuildProfile::TSan),
                    payload,
                    BuildProfile::TSan,
                )
            } else {
                ArgSpecOutcome::ProcessorNotFound(proc)
            }
        },
    }
}

/// One resolved token: the process argument it contributes, and the
/// build it requires first, if any.
#[derive(Debug)]
pub struct ProcessedArg {
    pub arg: String,
    pub build: Option<(String, BuildProfile)>,
}

/// Resolves one command token.
pub fn process_cmd_arg(cfg: &RepoConfig, task_dir: &str, profile: BuildProfile, arg: &str) -> (r:
    Result<ProcessedArg, TestError>)
    ensures
        match spec_process_arg(cfg.tools@, cfg.repo_root@, task_dir@, profile, arg@) {
            ArgSpecOutcome::Ready(s) => r matches Ok(pa) && pa.arg@ == s && pa.build is None,
            ArgSpecOutcome::NeedsBuild(p, t, pr) => r matches Ok(pa) && pa.arg@ == p && (pa.build
                matches Some(b) && b.0@ == t && b.1 == pr),
            ArgSpecOutcome::ProcessorNotFound(n) => r matches Err(e) && e
                matches TestError::ProcessorNotFound { name } && name@ == n,
            ArgSpecOutcome::ToolNotFound(n) => r matches Err(e) && e
                matches TestError::ToolNotFound { name } && name@ == n,
        },
{
    proof {
        lemma_find_char_props(arg@, ':');
    }
    let colon = find_char(arg, ':');
    match colon {
        None => {
            proof {
                if spec_find_char(arg@, ':') is Some {
                    let i = spec_find_char(arg@, ':').unwrap();
                    assert(arg@[i] == ':');
                }
            }
            Ok(ProcessedArg { arg: String::from_str(arg), build: None })
        },
        Some(ci) => {
            proof {
                match spec_find_char(arg@, ':') {
                    None => {
                        assert(false);
                    },
                    Some(i) => {
                        if i < ci {
                            assert(arg@[i] == ':');
                        }
                        if i > ci {
                            assert(arg@[ci as int] == ':');
                        }
                        assert(i == ci);
                    },
                }
            }
            let n = arg.unicode_len();
            let proc = arg.substring_char(0, ci);
            let payload_str = arg.substring_char(ci + 1, n);
            let payload = String::from_str(payload_str);
            proof {
                assert(proc@ =~= arg@.take(ci as int));
                assert(payload@ =~= arg@.skip(ci + 1));
            }
            let proc_s = String::from_str(proc);
            if proc_s == String::from_str("tool") {
                match cfg.get_tool_path(payload.as_str()) {
                    Ok(p) => Ok(ProcessedArg { arg: p, build: None }),
                    Err(e) => Err(e),
                }
            } else if proc_s == String::from_str("local") {
                Ok(
                    ProcessedArg {
                        arg: path_join(task_dir, payload.as_str()),
                        build: None,
                    },
                )
            } else if proc_s == String::from_str("build") {
                let p = artifact_path(cfg.repo_root.as_str(), payload.as_str(), profile);
                Ok(ProcessedArg { arg: p, build: Some((payload, profile)) })
            } else if proc_s == String::from_str("build(rel)") {
                let p = artifact_path(
                    cfg.repo_root.as_str(),
                    payload.as_str(),
                    BuildProfile::Release,
                );
                Ok(ProcessedArg { arg: p, build: Some((payload, BuildProfile::Release)) })
            } else if proc_s == String::from_str("build(dbg)") {
                let p = artifact_path(cfg.repo_root.as_str(), payload.as_str(), BuildProfile::Debug);
                Ok(ProcessedArg { arg: p, build: Some((payload, BuildProfile::Debug)) })
            } else if proc_s == String::from_str("build(asan)") {
                let p = artifact_path(cfg.repo_root.as_str(), payload.as_str(), BuildProfile::ASan);
                Ok(ProcessedArg { arg: p, build: Some((payload, BuildProfile::ASan)) })
            } else if proc_s == String::from_str("build(tsan)") {
                let p = artifact_path(cfg.repo_root.as_str(), payload.as_str(), BuildProfile::TSan);
                Ok(ProcessedArg { arg: p, build: Some((payload, BuildProfile::TSan)) })
            } else {
                Err(TestError::ProcessorNotFound { name: proc_s })
            }
        },
    }
}

// ---------------------------------------------------------------------
// Planning a whole command line.
// ---------------------------------------------------------------------
/// Whether a token resolves without error.
pub open spec fn spec_arg_ok(
    tools: Seq<(String, String)>,
    repo_root: Seq<char>,
    task_dir: Seq<char>,
    profile: BuildProfile,
    arg: Seq<char>,
) -> bool {
    match spec_process_arg(tools, repo_root, task_dir, profile, arg) {
        ArgSpecOutcome::Ready(_) => true,
        ArgSpecOutcome::NeedsBuild(_, _, _) => true,
        ArgSpecOutcome::ProcessorNotFound(_) => false,
        ArgSpecOutcome::ToolNotFound(_) => false,
    }
}

/// The process argument a token resolves to (meaningful when the token
/// resolves without error).
pub open spec fn spec_arg_value(
    tools: Seq<(String, String)>,
    repo_root: Seq<char>,
    task_dir: Seq<char>,
    profile: BuildProfile,
    arg: Seq<char>,
) -> Seq<char> {
    match spec_process_arg(tools, repo_root, task_dir, profile, arg) {
        ArgSpecOutcome::Ready(s) => s,
        ArgSpecOutcome::NeedsBuild(p, _, _) => p,
        ArgSpecOutcome::ProcessorNotFound(_) => Seq::empty(),
        ArgSpecOutcome::ToolNotFound(_) => Seq::empty(),
    }
}

/// The build a token requires, if any.
pub open spec fn spec_arg_build(
    tools: Seq<(String, String)>,
    repo_root: Seq<char>,
    task_dir: Seq<char>,
    profile: BuildProfile,
    arg: Seq<char>,
) -> Option<(Seq<char>, BuildProfile)> {
    match spec_process_arg(tools, repo_root, task_dir, profile, arg) {
        ArgSpecOutcome::NeedsBuild(_, t, pr) => Some((t, pr)),
        _ => None,
    }
}

/// Whether a required error value reports the failing token's outcome.
pub open spec fn spec_err_matches(o: ArgSpecOutcome, e: TestError) -> bool {
    match o {
        ArgSpecOutcome::ProcessorNotFound(n) => e matches TestError::ProcessorNotFound { name }
            && name@ == n,
        ArgSpecOutcome::ToolNotFound(n) => e matches TestError::ToolNotFound { name } && name@ == n,
        _ => false,
    }
}

/// Whether a command-step failure under one profile is reported as
/// planning demands: the missing-command error on an empty runnable
/// command, or else the first failing token's own outcome.
pub open spec fn spec_plan_err(
    tools: Seq<(String, String)>,
    repo_root: Seq<char>,
    task_dir: Seq<char>,
    profile: BuildProfile,
    cmd: Seq<String>,
    build_only: bool,
    e: TestError,
) -> bool {
    ||| (spec_args_ok(tools, repo_root, task_dir, profile, cmd) && !build_only && cmd.len() == 0
        && e == TestError::NoCmdGiven)
    ||| (exists|k: int|
        0 <= k < cmd.len() && !spec_arg_ok(
            tools,
            repo_root,
            task_dir,
            profile,
            (#[trigger] cmd[k])@,
        ) && (forall|j: int|
            0 <= j < k ==> spec_arg_ok(tools, repo_root, task_dir, profile, (#[trigger] cmd[j])@))
            && spec_err_matches(spec_process_arg(tools, repo_root, task_dir, profile, cmd[k]@), e))
}

/// Every token of the command resolves without error.
pub open spec fn spec_args_ok(
    tools: Seq<(String, String)>,
    repo_root: Seq<char>,
    task_dir: Seq<char>,
    profile: BuildProfile,
    args: Seq<String>,
) -> bool {
    forall|i: int|
        0 <= i < args.len() ==> spec_arg_ok(
            tools,
            repo_root,
            task_dir,
            profile,
            (#[trigger] args[i])@,
        )
}

/// The fully resolved argument vector of the command.
pub open spec fn spec_argv(
    tools: Seq<(String, String)>,
    repo_root: Seq<char>,
    task_dir: Seq<char>,
    profile: BuildProfile,
    args: Seq<String>,
) -> Seq<Seq<char>> {
    args.map_values(|a: String| spec_arg_value(tools, repo_root, task_dir, profile, a@))
}

/// The builds the command requires, in token order.
pub open spec fn spec_builds(
    tools: Seq<(String, String)>,
    repo_root: Seq<char>,
    task_dir: Seq<char>,
    profile: BuildProfile,
    args: Seq<String>,
) -> Seq<(Seq<char>, BuildProfile)>
    decreases args.len(),
{
    if args.len() == 0 {
        Seq::empty()
    } else {
        spec_builds(tools, repo_root, task_dir, profile, args.drop_last()) + (match spec_arg_build(
            tools,
            repo_root,
            task_dir,
            profile,
            args.last()@,
        ) {
            Some(b) => seq![b],
            None => Seq::<(Seq<char>, BuildProfile)>::empty(),
        })
    }
}

/// One profile's plan for a command step: the builds to perform first,
/// the resolved argument vector, whether to echo the command line, and
/// whether to run it at all (builds still happen in build-only mode).
#[derive(Debug)]
pub struct CmdPlan {
    pub argv: Vec<String>,
    pub builds: Vec<(String, BuildProfile)>,
    pub echo: bool,
    pub run: bool,
}

/// Plans one command step under one profile: resolves every token,
/// collects the builds the tokens require, and decides whether the
/// command is run afterwards.  An empty token list is an error unless
/// only builds were asked for.
pub fn run_cmd_profile(
    cfg: &RepoConfig,
    task_dir: &str,
    rc: &RunCmd,
    profile: BuildProfile,
    build_only: bool,
) -> (r: Result<CmdPlan, TestError>)
    ensures
        r is Ok <==> (spec_args_ok(cfg.tools@, cfg.repo_root@, task_dir@, profile, rc.cmd@) && (
        build_only || rc.cmd@.len() > 0)),
        r matches Ok(plan) ==> {
            &&& plan.argv@.map_values(|a: String| a@) == spec_argv(
                cfg.tools@,
                cfg.repo_root@,
                task_dir@,
                profile,
                rc.cmd@,
            )
            &&& plan.builds@.map_values(|b: (String, BuildProfile)| (b.0@, b.1)) == spec_builds(
                cfg.tools@,
                cfg.repo_root@,
                task_dir@,
                profile,
                rc.cmd@,
            )
            &&& plan.echo == rc.echo
            &&& plan.run == !build_only
        },
        r matches Err(e) ==> spec_plan_err(
            cfg.tools@,
            cfg.repo_root@,
            task_dir@,
            profile,
            rc.cmd@,
            build_only,
            e,
        ),
{
    let mut argv: Vec<String> = Vec::new();
    let mut builds: Vec<(String, BuildProfile)> = Vec::new();
    let n = rc.cmd.len();
    for i in 0..n
        invariant
            n == rc.cmd@.len(),
            forall|j: int|
                0 <= j < i ==> spec_arg_ok(
                    cfg.tools@,
                    cfg.repo_root@,
                    task_dir@,
                    profile,
                    (#[trigger] rc.cmd@[j])@,
                ),
            argv@.map_values(|a: String| a@) == spec_argv(
                cfg.tools@,
                cfg.repo_root@,
                task_dir@,
                profile,
                rc.cmd@.take(i as int),
            ),
            builds@.map_values(|b: (String, BuildProfile)| (b.0@, b.1)) == spec_builds(
                cfg.tools@,
                cfg.repo_root@,
                task_dir@,
                profile,
                rc.cmd@.take(i as int),
            ),
    {
        let ghost argv_before = argv@;
        let ghost builds_before = builds@;
        match process_cmd_arg(cfg, task_dir, profile, rc.cmd[i].as_str()) {
            Ok(pa) => {
                argv.push(pa.arg);
                match pa.build {
                    Some(b) => {
                        builds.push(b);
                    },
                    None => {},
                }
                proof {
                    let fa = |a: String| a@;
                    let fb = |b: (String, BuildProfile)| (b.0@, b.1);
                    assert(rc.cmd@.take(i + 1).drop_last() =~= rc.cmd@.take(i as int));
                    assert(rc.cmd@.take(i + 1).last() == rc.cmd@[i as int]);
                    assert(rc.cmd@.take(i + 1) =~= rc.cmd@.take(i as int).push(
                        rc.cmd@[i as int],
                    ));
                    assert(rc.cmd@.take(i + 1).map_values(fa) =~= rc.cmd@.take(
                        i as int,
                    ).map_values(fa).push(fa(rc.cmd@[i as int])));
                    assert(argv@.map_values(fa) =~= argv_before.map_values(fa).push(pa.arg@));
                    assert(argv@.map_values(fa) =~= spec_argv(
                        cfg.tools@,
                        cfg.repo_root@,
                        task_dir@,
                        profile,
                        rc.cmd@.take(i + 1),
                    ));
                    assert(builds@.map_values(fb) =~= spec_builds(
                        cfg.tools@,
                        cfg.repo_root@,
                        task_dir@,
                        profile,
                        rc.cmd@.take(i + 1),
                    ));
                }
            },
            Err(e) => {
                proof {
                    assert(!spec_arg_ok(
                        cfg.tools@,
                        cfg.repo_root@,
                        task_dir@,
                        profile,
                        rc.cmd@[i as int]@,
                    ));
                }
                return Err(e);
            },
        }
    }
    proof {
        assert(rc.cmd@.take(n as int) =~= rc.cmd@);
    }
    if !build_only && argv.len() == 0 {
        return Err(TestError::NoCmdGiven);
    }
    Ok(CmdPlan { argv, builds, echo: rc.echo, run: !build_only })
}

/// Plans one command step: one plan per requested profile, in order.
pub fn run_cmd(cfg: &RepoConfig, task_dir: &str, rc: &RunCmd, build_only: bool) -> (r: Result<
    Vec<CmdPlan>,
    TestError,
>)
    ensures
        r is Ok <==> forall|k: int|
            0 <= k < rc.profiles@.len() ==> (spec_args_ok(
                cfg.tools@,
                cfg.repo_root@,
                task_dir@,
                #[trigger] rc.profiles@[k],
                rc.cmd@,
            ) && (build_only || rc.cmd@.len() > 0)),
        r matches Ok(plans) ==> plans@.len() == rc.profiles@.len() && forall|k: int|
            0 <= k < plans@.len() ==> {
                &&& (#[trigger] plans@[k]).argv@.map_values(|a: String| a@) == spec_argv(
                    cfg.tools@,
                    cfg.repo_root@,
                    task_dir@,
                    rc.profiles@[k],
                    rc.cmd@,
                )
                &&& plans@[k].builds@.map_values(|b: (String, BuildProfile)| (b.0@, b.1))
                    == spec_builds(
                    cfg.tools@,
                    cfg.repo_root@,
                    task_dir@,
                    rc.profiles@[k],
                    rc.cmd@,
                )
                &&& plans@[k].echo == rc.echo
                &&& plans@[k].run == !build_only
            },
        r matches Err(e) ==> exists|k: int|
            0 <= k < rc.profiles@.len() && !(spec_args_ok(
                cfg.tools@,
                cfg.repo_root@,
                task_dir@,
                #[trigger] rc.profiles@[k],
                rc.cmd@,
            ) && (build_only || rc.cmd@.len() > 0)) && (forall|j: int|
                0 <= j < k ==> spec_args_ok(
                    cfg.tools@,
                    cfg.repo_root@,
                    task_dir@,
                    #[trigger] rc.profiles@[j],
                    rc.cmd@,
                ) && (build_only || rc.cmd@.len() > 0)) && spec_plan_err(
                cfg.tools@,
                cfg.repo_root@,
                task_dir@,
                rc.profiles@[k],
                rc.cmd@,
                build_only,
                e,
            ),
{
    let mut plans: Vec<CmdPlan> = Vec::new();
    let n = rc.profiles.len();
    let mut i: usize = 0;
    while i < n
        invariant
            n == rc.profiles@.len(),
            i <= n,
            plans@.len() == i,
            forall|k: int|
                0 <= k < i ==> (spec_args_ok(
                    cfg.tools@,
                    cfg.repo_root@,
                    task_dir@,
                    #[trigger] rc.profiles@[k],
                    rc.cmd@,
                ) && (build_only || rc.cmd@.len() > 0)),
            forall|k: int|
                0 <= k < i ==> {
                    &&& (#[trigger] plans@[k]).argv@.map_values(|a: String| a@) == spec_argv(
                        cfg.tools@,
                        cfg.repo_root@,
                        task_dir@,
                        rc.profiles@[k],
                        rc.cmd@,
                    )
                    &&& plans@[k].builds@.map_values(|b: (String, BuildProfile)| (b.0@, b.1))
                        == spec_builds(
                        cfg.tools@,
                        cfg.repo_root@,
                        task_dir@,
                        rc.profiles@[k],
                        rc.cmd@,
                    )
                    &&& plans@[k].echo == rc.echo
                    &&& plans@[k].run == !build_only
                },
        decreases n - i,
    {
        let profile = rc.profiles[i];
        proof {
            assert(profile == rc.profiles@[i as int]);
        }
        match run_cmd_profile(cfg, task_dir, rc, profile, build_only) {
            Ok(plan) => {
                proof {
                    assert(spec_args_ok(
                        cfg.tools@,
                        cfg.repo_root@,
                        task_dir@,
                        rc.profiles@[i as int],
                        rc.cmd@,
                    ) && (build_only || rc.cmd@.len() > 0));
                }
                plans.push(plan);
                proof {
                    assert forall|k: int| 0 <= k < i + 1 implies (spec_args_ok(
                        cfg.tools@,
                        cfg.repo_root@,
                        task_dir@,
                        #[trigger] rc.profiles@[k],
                        rc.cmd@,
                    ) && (build_only || rc.cmd@.len() > 0)) by {
                        if k == i {
                            assert(rc.profiles@[k] == profile);
                        }
                    }
                }
            },
            Err(e) => {
                proof {
                    assert(!(spec_args_ok(
                        cfg.tools@,
                        cfg.repo_root@,
                        task_dir@,
                        rc.profiles@[i as int],
                        rc.cmd@,
                    ) && (build_only || rc.cmd@.len() > 0)));
                    assert(spec_plan_err(
                        cfg.tools@,
                        cfg.repo_root@,
                        task_dir@,
                        rc.profiles@[i as int],
                        rc.cmd@,
                        build_only,
                        e,
                    ));
                }
                return Err(e);
            },
        }
        i = i + 1;
    }
    proof {
        assert(i == n);
        assert forall|k: int| 0 <= k < rc.profiles@.len() implies (spec_args_ok(
            cfg.tools@,
            cfg.repo_root@,
            task_dir@,
            #[trigger] rc.profiles@[k],
            rc.cmd@,
        ) && (build_only || rc.cmd@.len() > 0)) by {
            assert(0 <= k < i);
            assert(spec_args_ok(
                cfg.tools@,
                cfg.repo_root@,
                task_dir@,
                rc.profiles@[k],
                rc.cmd@,
            ));
            assert(build_only || rc.cmd@.len() > 0);
        }
    }
    Ok(plans)
}

} // verus!
