//! The judge-run controller.
//!
//! For each requested profile the solution target is resolved to an
//! artifact, checker and interactor references are resolved (a
//! `build:<target>` reference is built first; anything else is passed
//! through as a literal facility name or path), and the external judge
//! is invoked with the resolved paths and the configured retest and
//! retry counts.  Build-only mode stops after the builds.

use vstd::prelude::*;

use crate::errors::TestError;
use crate::plan::JudgeRun;
use crate::profile::BuildProfile;
use crate::strutil::{spec_dec, u64_to_string};
use crate::template::{artifact_path, spec_artifact_path, spec_tool_lookup, RepoConfig};

verus! {

/// How one checker or interactor reference resolves: the value handed
/// to the judge, and the build it requires first, if any.
pub open spec fn spec_judge_ref(
    repo_root: Seq<char>,
    profile: BuildProfile,
    r: Seq<char>,
) -> (Seq<char>, Option<(Seq<char>, BuildProfile)>) {
    if r.len() >= 6 && r.take(6) == "build:"@ {
        let target = r.skip(6);
        (spec_artifact_path(repo_root, target, profile), Some((target, profile)))
    } else {
        (r, None)
    }
}

/// One resolved reference.
pub struct ResolvedRef {
    pub value: String,
    pub build: Option<(String, BuildProfile)>,
}

/// Resolves a checker or interactor reference under a profile.
pub fn resolve_judge_ref(cfg: &RepoConfig, profile: BuildProfile, r: &str) -> (res: ResolvedRef)
    ensures
        ({
            let (v, b) = spec_judge_ref(cfg.repo_root@, profile, r@);
            &&& res.value@ == v
            &&& (match (res.build, b) {
                (Some(rb), Some(sb)) => rb.0@ == sb.0 && rb.1 == sb.1,
                (None, None) => true,
                _ => false,
            })
        }),
{
    let n = r.unicode_len();
    if n >= 6 {
        let prefix = r.substring_char(0, 6);
        let prefix_s = String::from_str(prefix);
        if prefix_s == String::from_str("build:") {
            let target_str = r.substring_char(6, n);
            let target = String::from_str(target_str);
            proof {
                assert(prefix@ =~= r@.take(6));
                assert(target@ =~= r@.skip(6));
            }
            let path = artifact_path(cfg.repo_root.as_str(), target.as_str(), profile);
            return ResolvedRef { value: path, build: Some((target, profile)) };
        }
        proof {
            assert(prefix@ =~= r@.take(6));
        }
    }
    ResolvedRef { value: String::from_str(r), build: None }
}

/// The judge's argument vector: the runner script, the optional
/// checker and interactor flags, the retest and retry counts, the
/// solution as the run command, then the extra arguments.
pub open spec fn spec_judge_argv(
    tool_path: Seq<char>,
    checker: Option<Seq<char>>,
    interactor: Option<Seq<char>>,
    retests: nat,
    retries: nat,
    run_cmd: Seq<char>,
    extra: Seq<Seq<char>>,
) -> Seq<Seq<char>> {
    seq![tool_path] + (match checker {
        Some(c) => seq!["--checker"@, c],
        None => Seq::<Seq<char>>::empty(),
    }) + (match interactor {
        Some(x) => seq!["--interactor"@, x],
        None => Seq::<Seq<char>>::empty(),
    }) + seq![
        "--retests-count"@,
        spec_dec(retests),
        "--retries-count"@,
        spec_dec(retries),
        "--run-cmd"@,
        run_cmd,
    ] + extra
}

/// One profile's judge plan: the builds to perform first, the judge's
/// argument vector, and whether the judge is invoked afterwards.
pub struct JudgePlan {
    pub builds: Vec<(String, BuildProfile)>,
    pub argv: Vec<String>,
    pub run: bool,
}

/// The builds a judge step requires under one profile: the solution,
/// then the checker's target if it is a build reference, then the
/// interactor's.
pub open spec fn spec_judge_builds(
    repo_root: Seq<char>,
    jr: JudgeRun,
    profile: BuildProfile,
) -> Seq<(Seq<char>, BuildProfile)> {
    seq![(jr.solution@, profile)] + (match jr.checker {
        Some(c) => match spec_judge_ref(repo_root, profile, c@).1 {
            Some(b) => seq![b],
            None => Seq::<(Seq<char>, BuildProfile)>::empty(),
        },
        None => Seq::<(Seq<char>, BuildProfile)>::empty(),
    }) + (match jr.interactor {
        Some(x) => match spec_judge_ref(repo_root, profile, x@).1 {
            Some(b) => seq![b],
            None => Seq::<(Seq<char>, BuildProfile)>::empty(),
        },
        None => Seq::<(Seq<char>, BuildProfile)>::empty(),
    })
}

/// Plans one judge run under one profile.  Fails exactly when the
/// judge-runner tool is missing from the registry.
pub fn plan_judge_run(cfg: &RepoConfig, jr: &JudgeRun, profile: BuildProfile, build_only: bool) -> (
    r: Result<JudgePlan, TestError>)
    ensures
        r is Ok <==> spec_tool_lookup(cfg.tools@, "nej-runner"@) is Some,
        r matches Ok(plan) ==> {
            &&& plan.builds@.map_values(|b: (String, BuildProfile)| (b.0@, b.1))
                == spec_judge_builds(cfg.repo_root@, *jr, profile)
            &&& plan.argv@.map_values(|a: String| a@) == spec_judge_argv(
                crate::strutil::spec_path_join(
                    cfg.repo_root@,
                    spec_tool_lookup(cfg.tools@, "nej-runner"@).unwrap(),
                ),
                match jr.checker {
                    Some(c) => Some(spec_judge_ref(cfg.repo_root@, profile, c@).0),
                    None => None,
                },
                match jr.interactor {
                    Some(x) => Some(spec_judge_ref(cfg.repo_root@, profile, x@).0),
                    None => None,
                },
                jr.retests_count as nat,
                jr.retries_count as nat,
                spec_artifact_path(cfg.repo_root@, jr.solution@, profile),
                jr.extra_args@.map_values(|a: String| a@),
            )
            &&& plan.run == !build_only
        },
        r matches Err(e) ==> e matches TestError::ToolNotFound { name } && name@ == "nej-runner"@,
{
    let tool = match cfg.get_tool_path("nej-runner") {
        Ok(t) => t,
        Err(e) => {
            return Err(e);
        },
    };
    let mut builds: Vec<(String, BuildProfile)> = Vec::new();
    builds.push((jr.solution.clone(), profile));
    let solution_path = artifact_path(cfg.repo_root.as_str(), jr.solution.as_str(), profile);

    let mut argv: Vec<String> = Vec::new();
    argv.push(tool);
    match &jr.checker {
        Some(c) => {
            let rr = resolve_judge_ref(cfg, profile, c.as_str());
            argv.push(String::from_str("--checker"));
            argv.push(rr.value);
            match rr.build {
                Some(b) => {
                    builds.push(b);
                },
                None => {},
            }
        },
        None => {},
    }
    match &jr.interactor {
        Some(x) => {
            let rr = resolve_judge_ref(cfg, profile, x.as_str());
            argv.push(String::from_str("--interactor"));
            argv.push(rr.value);
            match rr.build {
                Some(b) => {
                    builds.push(b);
                },
                None => {},
            }
        },
        None => {},
    }
    argv.push(String::from_str("--retests-count"));
    argv.push(u64_to_string(jr.retests_count));
    argv.push(String::from_str("--retries-count"));
    argv.push(u64_to_string(jr.retries_count));
    argv.push(String::from_str("--run-cmd"));
    argv.push(solution_path);
    let ne = jr.extra_args.len();
    let ghost argv_prefix = argv@;
    for i in 0..ne
        invariant
            ne == jr.extra_args@.len(),
            argv@.len() == argv_prefix.len() + i,
            argv@.map_values(|a: String| a@) =~= argv_prefix.map_values(|a: String| a@)
                + jr.extra_args@.take(i as int).map_values(|a: String| a@),
    {
        let ghost before = argv@;
        argv.push(jr.extra_args[i].clone());
        proof {
            assert(argv@ =~= before.push(argv@.last()));
            assert(argv@.last()@ == jr.extra_args@[i as int]@);
            assert(argv@.map_values(|a: String| a@) =~= before.map_values(|a: String| a@).push(
                jr.extra_args@[i as int]@,
            ));
            assert(jr.extra_args@.take(i + 1).map_values(|a: String| a@)
                =~= jr.extra_args@.take(i as int).map_values(|a: String| a@).push(
                jr.extra_args@[i as int]@,
            ));
        }
    }
    proof {
        assert(jr.extra_args@.take(ne as int) =~= jr.extra_args@);
        assert(builds@.map_values(|b: (String, BuildProfile)| (b.0@, b.1)) =~= spec_judge_builds(
            cfg.repo_root@,
            *jr,
            profile,
        ));
        assert(argv@.map_values(|a: String| a@) =~= spec_judge_argv(
            crate::strutil::spec_path_join(
                cfg.repo_root@,
                spec_tool_lookup(cfg.tools@, "nej-runner"@).unwrap(),
            ),
            match jr.checker {
                Some(c) => Some(spec_judge_ref(cfg.repo_root@, profile, c@).0),
                None => None,
            },
            match jr.interactor {
                Some(x) => Some(spec_judge_ref(cfg.repo_root@, profile, x@).0),
                None => None,
            },
            jr.retests_count as nat,
            jr.retries_count as nat,
            spec_artifact_path(cfg.repo_root@, jr.solution@, profile),
            jr.extra_args@.map_values(|a: String| a@),
        ));
    }
    Ok(JudgePlan { builds, argv, run: !build_only })
}

} // verus!
