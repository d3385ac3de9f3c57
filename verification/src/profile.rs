//! The closed catalog of build profiles and their fixed string
//! representations.

use vstd::prelude::*;

verus! {

/// A build configuration variant.  Each variant maps one-to-one to a
/// configuration-type string handed to the build tool, a build-directory
/// name under the repository root, and a short tag used inside command
/// template tokens.
#[derive(Clone, Copy, Debug, PartialEq, Eq, Structural)]
pub enum BuildProfile {
    Release,
    Debug,
    ASan,
    TSan,
}

/// The three fixed string representations of one profile.
pub struct ProfileRepresentations {
    pub cmake_build_type: &'static str,
    pub build_dir: &'static str,
    pub short: &'static str,
}

impl ProfileRepresentations {
    pub fn new(cmake_build_type: &'static str, build_dir: &'static str, short: &'static str) -> (r:
        Self)
        ensures
            r.cmake_build_type == cmake_build_type,
            r.build_dir == build_dir,
            r.short == short,
    {
        ProfileRepresentations { cmake_build_type, build_dir, short }
    }
}

impl BuildProfile {
    /// The configuration-type string for this profile.
    pub open spec fn spec_cmake_build_type(self) -> Seq<char> {
        match self {
            BuildProfile::Release => "Release"@,
            BuildProfile::Debug => "Debug"@,
            BuildProfile::ASan => "Asan"@,
            BuildProfile::TSan => "Tsan"@,
        }
    }

    /// The build-directory name for this profile.
    pub open spec fn spec_build_dir(self) -> Seq<char> {
        match self {
            BuildProfile::Release => "build_release"@,
            BuildProfile::Debug => "build_debug"@,
            BuildProfile::ASan => "build_asan"@,
            BuildProfile::TSan => "build_tsan"@,
        }
    }

    /// The short tag for this profile, used in `build(<tag>):` tokens.
    pub open spec fn spec_short(self) -> Seq<char> {
        match self {
            BuildProfile::Release => "rel"@,
            BuildProfile::Debug => "dbg"@,
            BuildProfile::ASan => "asan"@,
            BuildProfile::TSan => "tsan"@,
        }
    }

    pub fn representations(self) -> (r: ProfileRepresentations)
        ensures
            r.cmake_build_type@ == self.spec_cmake_build_type(),
            r.build_dir@ == self.spec_build_dir(),
            r.short@ == self.spec_short(),
    {
        match self {
            BuildProfile::Release => ProfileRepresentations::new(
                "Release",
                "build_release",
                "rel",
            ),
            BuildProfile::Debug => ProfileRepresentations::new("Debug", "build_debug", "dbg"),
            BuildProfile::ASan => ProfileRepresentations::new("Asan", "build_asan", "asan"),
            BuildProfile::TSan => ProfileRepresentations::new("Tsan", "build_tsan", "tsan"),
        }
    }

    pub fn cmake_build_type(self) -> (r: &'static str)
        ensures
            r@ == self.spec_cmake_build_type(),
    {
        self.representations().cmake_build_type
    }

    pub fn build_dir(self) -> (r: &'static str)
        ensures
            r@ == self.spec_build_dir(),
    {
        self.representations().build_dir
    }

    pub fn short(self) -> (r: &'static str)
        ensures
            r@ == self.spec_short(),
    {
        self.representations().short
    }

    /// Every profile, in declaration order.
    pub fn all() -> (r: Vec<BuildProfile>)
        ensures
            r@ == seq![
                BuildProfile::Release,
                BuildProfile::Debug,
                BuildProfile::ASan,
                BuildProfile::TSan,
            ],
    {
        let mut v: Vec<BuildProfile> = Vec::new();
        v.push(BuildProfile::Release);
        v.push(BuildProfile::Debug);
        v.push(BuildProfile::ASan);
        v.push(BuildProfile::TSan);
        proof {
            assert(v@ =~= seq![
                BuildProfile::Release,
                BuildProfile::Debug,
                BuildProfile::ASan,
                BuildProfile::TSan,
            ]);
        }
        v
    }
}

} // verus!
