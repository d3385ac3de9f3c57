//! The build-target resolver.
//!
//! Resolving `(target, profile)` guarantees a compiled artifact at
//! `<repo-root>/<build-dir>/<target>`.  The resolver is a state machine:
//! the surrounding binary performs each requested action (check or
//! create the build directory, configure the build tree, run one
//! incremental build) and feeds the observed result back in.  A missing
//! directory is created and freshly configured; a failed incremental
//! build triggers exactly one forced reconfiguration and one retry
//! before the failure is fatal.

use vstd::prelude::*;

use crate::profile::BuildProfile;
use crate::strutil::{spec_dec, u64_to_string};

verus! {

/// What the resolver asks the outside world to do next.
#[derive(PartialEq, Eq, Structural, Debug, Clone, Copy)]
pub enum ResolverAction {
    /// Test whether the profile's build directory exists.
    CheckDir,
    /// Create the build directory.
    CreateDir,
    /// Configure the build tree; `fresh` forces a from-scratch
    /// reconfiguration.
    Configure { fresh: bool },
    /// Run one incremental build of the target.
    Build,
}

/// What the outside world observed.
#[derive(PartialEq, Eq, Structural, Debug, Clone, Copy)]
pub enum ResolverEvent {
    DirChecked { exists: bool },
    DirCreated { ok: bool },
    Configured { ok: bool },
    Built { ok: bool },
}

/// Where a resolution stands.
#[derive(PartialEq, Eq, Structural, Debug, Clone, Copy)]
pub enum ResolverState {
    /// Waiting for the build-directory check.
    AwaitDir,
    /// Waiting for the directory creation.
    AwaitCreate,
    /// Waiting for the first configuration of a fresh build tree.
    AwaitConfigure,
    /// Waiting for the incremental build.
    AwaitBuild,
    /// The build failed once; waiting for the forced reconfiguration.
    AwaitReconfigure,
    /// Waiting for the single retried build.
    AwaitRetry,
    /// The artifact exists at the resolved path.
    Succeeded,
    /// The build directory could not be created; fatal.
    FailedCreate,
    /// A configuration failed; fatal, never retried.
    FailedConfigure,
    /// The retried build failed too; fatal.
    FailedBuild,
}

/// The action pending in a state, if the resolution is still running.
pub open spec fn spec_next_action(s: ResolverState) -> Option<ResolverAction> {
    match s {
        ResolverState::AwaitDir => Some(ResolverAction::CheckDir),
        ResolverState::AwaitCreate => Some(ResolverAction::CreateDir),
        ResolverState::AwaitConfigure => Some(ResolverAction::Configure { fresh: false }),
        ResolverState::AwaitBuild => Some(ResolverAction::Build),
        ResolverState::AwaitReconfigure => Some(ResolverAction::Configure { fresh: true }),
        ResolverState::AwaitRetry => Some(ResolverAction::Build),
        _ => None,
    }
}

/// Whether an event answers the action pending in a state.
pub open spec fn spec_event_fits(s: ResolverState, ev: ResolverEvent) -> bool {
    match s {
        ResolverState::AwaitDir => ev is DirChecked,
        ResolverState::AwaitCreate => ev is DirCreated,
        ResolverState::AwaitConfigure => ev is Configured,
        ResolverState::AwaitBuild => ev is Built,
        ResolverState::AwaitReconfigure => ev is Configured,
        ResolverState::AwaitRetry => ev is Built,
        _ => false,
    }
}

/// The transition relation of the resolver.
pub open spec fn spec_step(s: ResolverState, ev: ResolverEvent) -> ResolverState {
    match (s, ev) {
        (ResolverState::AwaitDir, ResolverEvent::DirChecked { exists }) => if exists {
            ResolverState::AwaitBuild
        } else {
            ResolverState::AwaitCreate
        },
        (ResolverState::AwaitCreate, ResolverEvent::DirCreated { ok }) => if ok {
            ResolverState::AwaitConfigure
        } else {
            ResolverState::FailedCreate
        },
        (ResolverState::AwaitConfigure, ResolverEvent::Configured { ok }) => if ok {
            ResolverState::AwaitBuild
        } else {
            ResolverState::FailedConfigure
        },
        (ResolverState::AwaitBuild, ResolverEvent::Built { ok }) => if ok {
            ResolverState::Succeeded
        } else {
            ResolverState::AwaitReconfigure
        },
        (ResolverState::AwaitReconfigure, ResolverEvent::Configured { ok }) => if ok {
            ResolverState::AwaitRetry
        } else {
            ResolverState::FailedConfigure
        },
        (ResolverState::AwaitRetry, ResolverEvent::Built { ok }) => if ok {
            ResolverState::Succeeded
        } else {
            ResolverState::FailedBuild
        },
        (s, _) => s,
    }
}

/// The terminal state of one whole resolution, as a function of what
/// the outside world answers: whether the directory existed, whether it
/// could be created, whether each configuration succeeded, and whether
/// each build succeeded.
pub open spec fn spec_resolve_outcome(
    dir_exists: bool,
    create_ok: bool,
    configure_ok: bool,
    first_build_ok: bool,
    reconfigure_ok: bool,
    retry_ok: bool,
) -> ResolverState {
    if !dir_exists && !create_ok {
        ResolverState::FailedCreate
    } else if !dir_exists && !configure_ok {
        ResolverState::FailedConfigure
    } else if first_build_ok {
        ResolverState::Succeeded
    } else if !reconfigure_ok {
        ResolverState::FailedConfigure
    } else if retry_ok {
        ResolverState::Succeeded
    } else {
        ResolverState::FailedBuild
    }
}

/// How many forced (from-scratch) reconfigurations one resolution
/// performs: none while the incremental build succeeds, exactly one
/// after it fails.
pub open spec fn spec_reconfigure_count(
    dir_exists: bool,
    create_ok: bool,
    configure_ok: bool,
    first_build_ok: bool,
) -> nat {
    if !dir_exists && (!create_ok || !configure_ok) {
        0
    } else if first_build_ok {
        0
    } else {
        1
    }
}

/// One running resolution of `(target, profile)`.
pub struct BuildResolver {
    pub target: String,
    pub profile: BuildProfile,
    pub state: ResolverState,
}

impl BuildResolver {
    /// Starts resolving a target under a profile.
    pub fn new(target: String, profile: BuildProfile) -> (r: Self)
        ensures
            r.target == target,
            r.profile == profile,
            r.state == ResolverState::AwaitDir,
    {
        BuildResolver { target, profile, state: ResolverState::AwaitDir }
    }

    /// The action to perform next, or nothing once the resolution has
    /// finished.
    pub fn next_action(&self) -> (r: Option<ResolverAction>)
        ensures
            r == spec_next_action(self.state),
    {
        match self.state {
            ResolverState::AwaitDir => Some(ResolverAction::CheckDir),
            ResolverState::AwaitCreate => Some(ResolverAction::CreateDir),
            ResolverState::AwaitConfigure => Some(ResolverAction::Configure { fresh: false }),
            ResolverState::AwaitBuild => Some(ResolverAction::Build),
            ResolverState::AwaitReconfigure => Some(ResolverAction::Configure { fresh: true }),
            ResolverState::AwaitRetry => Some(ResolverAction::Build),
            _ => None,
        }
    }

    /// Feeds the observed result of the pending action back in.
    pub fn on_event(&mut self, ev: ResolverEvent)
        requires
            spec_event_fits(old(self).state, ev),
        ensures
            final(self).state == spec_step(old(self).state, ev),
            final(self).target == old(self).target,
            final(self).profile == old(self).profile,
    {
        let next = match (&self.state, &ev) {
            (ResolverState::AwaitDir, ResolverEvent::DirChecked { exists }) => if *exists {
                ResolverState::AwaitBuild
            } else {
                ResolverState::AwaitCreate
            },
            (ResolverState::AwaitCreate, ResolverEvent::DirCreated { ok }) => if *ok {
                ResolverState::AwaitConfigure
            } else {
                ResolverState::FailedCreate
            },
            (ResolverState::AwaitConfigure, ResolverEvent::Configured { ok }) => if *ok {
                ResolverState::AwaitBuild
            } else {
                ResolverState::FailedConfigure
            },
            (ResolverState::AwaitBuild, ResolverEvent::Built { ok }) => if *ok {
                ResolverState::Succeeded
            } else {
                ResolverState::AwaitReconfigure
            },
            (ResolverState::AwaitReconfigure, ResolverEvent::Configured { ok }) => if *ok {
                ResolverState::AwaitRetry
            } else {
                ResolverState::FailedConfigure
            },
            (ResolverState::AwaitRetry, ResolverEvent::Built { ok }) => if *ok {
                ResolverState::Succeeded
            } else {
                ResolverState::FailedBuild
            },
            _ => self.state,
        };
        self.state = next;
    }

    /// Whether the resolution has reached a terminal state.
    pub fn is_finished(&self) -> (r: bool)
        ensures
            r == spec_next_action(self.state) is None,
    {
        match self.state {
            ResolverState::Succeeded => true,
            ResolverState::FailedCreate => true,
            ResolverState::FailedConfigure => true,
            ResolverState::FailedBuild => true,
            _ => false,
        }
    }
}

/// The machine realises the resolution protocol: stepping it through
/// the events the outside world answers ends in exactly the terminal
/// state of `spec_resolve_outcome`.
pub proof fn lemma_machine_matches_protocol(
    dir_exists: bool,
    create_ok: bool,
    configure_ok: bool,
    first_build_ok: bool,
    reconfigure_ok: bool,
    retry_ok: bool,
)
    ensures
        ({
            let s0 = ResolverState::AwaitDir;
            let s1 = spec_step(s0, ResolverEvent::DirChecked { exists: dir_exists });
            let s2 = if dir_exists {
                s1
            } else {
                spec_step(
                    spec_step(s1, ResolverEvent::DirCreated { ok: create_ok }),
                    ResolverEvent::Configured { ok: configure_ok },
                )
            };
            let s3 = spec_step(s2, ResolverEvent::Built { ok: first_build_ok });
            let s4 = if first_build_ok {
                s3
            } else {
                spec_step(
                    spec_step(s3, ResolverEvent::Configured { ok: reconfigure_ok }),
                    ResolverEvent::Built { ok: retry_ok },
                )
            };
            s4 == spec_resolve_outcome(
                dir_exists,
                create_ok,
                configure_ok,
                first_build_ok,
                reconfigure_ok,
                retry_ok,
            )
        }),
{
}

/// Resolving a pair whose build directory is in place and whose
/// incremental build succeeds performs no reconfiguration at all: the
/// visited states ask only for the directory check and one build, and
/// the resolution succeeds.  Together with `spec_artifact_path` being a
/// function of `(repo_root, target, profile)` alone, resolving the same
/// pair twice without any source change yields the same path and never
/// forces a second full reconfiguration.
pub proof fn lemma_resolution_idempotent()
    ensures
        spec_step(
            ResolverState::AwaitDir,
            ResolverEvent::DirChecked { exists: true },
        ) == ResolverState::AwaitBuild,
        spec_step(ResolverState::AwaitBuild, ResolverEvent::Built { ok: true })
            == ResolverState::Succeeded,
        forall|f: bool|
            spec_next_action(ResolverState::AwaitDir) != Some(ResolverAction::Configure { fresh: f }),
        forall|f: bool|
            spec_next_action(ResolverState::AwaitBuild) != Some(
                ResolverAction::Configure { fresh: f },
            ),
        spec_reconfigure_count(true, true, true, true) == 0,
{
}

/// Build recovery: when the first build fails, the resolver performs
/// exactly one forced reconfiguration and one retried build; it
/// succeeds when the retried build succeeds and fails fatally when the
/// retried build fails too.
pub proof fn lemma_build_recovery(retry_ok: bool)
    ensures
        spec_step(ResolverState::AwaitBuild, ResolverEvent::Built { ok: false })
            == ResolverState::AwaitReconfigure,
        spec_next_action(ResolverState::AwaitReconfigure) == Some(
            ResolverAction::Configure { fresh: true },
        ),
        spec_step(
            ResolverState::AwaitReconfigure,
            ResolverEvent::Configured { ok: true },
        ) == ResolverState::AwaitRetry,
        spec_next_action(ResolverState::AwaitRetry) == Some(ResolverAction::Build),
        spec_step(ResolverState::AwaitRetry, ResolverEvent::Built { ok: retry_ok }) == if retry_ok {
            ResolverState::Succeeded
        } else {
            ResolverState::FailedBuild
        },
        spec_reconfigure_count(true, true, true, false) == 1,
{
}

// ---------------------------------------------------------------------
// The build tool's command lines.
// ---------------------------------------------------------------------
/// Relies on `num_cpus::get`: the number of available CPUs of the
/// current system, always at least 1.
#[verifier::external_body]
pub fn host_cpu_count() -> (n: usize)
    ensures
        n >= 1,
{
    num_cpus::get()
}

/// The program that configures and builds the tree.
pub fn build_tool_program() -> (r: &'static str)
    ensures
        r@ == "cmake"@,
{
    "cmake"
}

/// The argument vector of one configuration run:
/// `-B <build-dir> -S <source-dir> -DCMAKE_BUILD_TYPE=<type>`, with
/// `--fresh` appended when a from-scratch reconfiguration is forced.
pub open spec fn spec_configure_args(
    build_dir: Seq<char>,
    source_dir: Seq<char>,
    profile: BuildProfile,
    fresh: bool,
) -> Seq<Seq<char>> {
    let base = seq![
        "-B"@,
        build_dir,
        "-S"@,
        source_dir,
        "-DCMAKE_BUILD_TYPE="@ + profile.spec_cmake_build_type(),
    ];
    if fresh {
        base.push("--fresh"@)
    } else {
        base
    }
}

/// Builds the configuration command's arguments.
pub fn configure_args(build_dir: &str, source_dir: &str, profile: BuildProfile, fresh: bool) -> (r:
    Vec<String>)
    ensures
        r@.map_values(|a: String| a@) == spec_configure_args(
            build_dir@,
            source_dir@,
            profile,
            fresh,
        ),
{
    let mut args: Vec<String> = Vec::new();
    args.push(String::from_str("-B"));
    args.push(String::from_str(build_dir));
    args.push(String::from_str("-S"));
    args.push(String::from_str(source_dir));
    let mut ty = String::from_str("-DCMAKE_BUILD_TYPE=");
    ty.append(profile.cmake_build_type());
    args.push(ty);
    if fresh {
        args.push(String::from_str("--fresh"));
    }
    proof {
        assert(args@.map_values(|a: String| a@) =~= spec_configure_args(
            build_dir@,
            source_dir@,
            profile,
            fresh,
        ));
    }
    args
}

/// The argument vector of one incremental build:
/// `--build <build-dir> --target <target> -j <jobs>`.
pub open spec fn spec_build_args(build_dir: Seq<char>, target: Seq<char>, jobs: nat) -> Seq<
    Seq<char>,
> {
    seq!["--build"@, build_dir, "--target"@, target, "-j"@, spec_dec(jobs)]
}

/// Builds the build command's arguments, parallelised over `jobs`
/// processes.
pub fn build_args(build_dir: &str, target: &str, jobs: u64) -> (r: Vec<String>)
    ensures
        r@.map_values(|a: String| a@) == spec_build_args(build_dir@, target@, jobs as nat),
{
    let mut args: Vec<String> = Vec::new();
    args.push(String::from_str("--build"));
    args.push(String::from_str(build_dir));
    args.push(String::from_str("--target"));
    args.push(String::from_str(target));
    args.push(String::from_str("-j"));
    args.push(u64_to_string(jobs));
    proof {
        assert(args@.map_values(|a: String| a@) =~= spec_build_args(
            build_dir@,
            target@,
            jobs as nat,
        ));
    }
    args
}

} // verus!
