//! Target kinds and the entrypoint file that convention gives each of them.

use vstd::prelude::*;

verus! {

/// A conventional entrypoint file of a target's source directory.
#[derive(Clone, Copy, Debug, PartialEq, Eq, Structural)]
pub enum Entrypoint {
    /// The entrypoint of something that is run.
    Main,
    /// The entrypoint of something that is linked.
    Lib,
}

impl Entrypoint {
    /// The file's name, as a sequence of characters.
    pub open spec fn spec_file_name(self) -> Seq<char> {
        match self {
            Entrypoint::Main => "main.rs"@,
            Entrypoint::Lib => "lib.rs"@,
        }
    }

    /// The name of the file to look for inside a directory.
    pub fn file_name(self) -> (name: &'static str)
        ensures
            name@ == self.spec_file_name(),
    {
        match self {
            Entrypoint::Main => "main.rs",
            Entrypoint::Lib => "lib.rs",
        }
    }
}

/// What a target is built as.
#[derive(Clone, Copy, Debug, PartialEq, Eq, Structural)]
pub enum TargetKind {
    /// A library.
    Lib,
    /// A binary.
    Bin,
    /// An integration test.
    Test,
    /// A benchmark.
    Bench,
    /// An example that is built as a library.
    ExampleLib,
    /// An example that is built as a binary.
    ExampleBin,
    /// A build script. Convention gives it no entrypoint inside a directory.
    CustomBuild,
}

impl TargetKind {
    /// The label under which diagnostics speak of a target of this kind.
    pub open spec fn spec_description(self) -> Seq<char> {
        match self {
            TargetKind::Lib => "lib"@,
            TargetKind::Bin => "bin"@,
            TargetKind::Test => "integration-test"@,
            TargetKind::ExampleBin | TargetKind::ExampleLib => "example"@,
            TargetKind::Bench => "bench"@,
            TargetKind::CustomBuild => "build-script"@,
        }
    }

    /// The entrypoint that convention gives a target of this kind: `Lib` for
    /// what is linked, `Main` for what is run, none for a build script.
    pub open spec fn spec_entrypoint(self) -> Option<Entrypoint> {
        match self {
            TargetKind::Lib | TargetKind::ExampleLib => Some(Entrypoint::Lib),
            TargetKind::Bin | TargetKind::Test | TargetKind::ExampleBin | TargetKind::Bench => Some(
                Entrypoint::Main,
            ),
            TargetKind::CustomBuild => None,
        }
    }

    /// The short human-readable label of this kind.
    pub fn description(&self) -> (text: &'static str)
        ensures
            text@ == self.spec_description(),
    {
        match self {
            TargetKind::Lib => "lib",
            TargetKind::Bin => "bin",
            TargetKind::Test => "integration-test",
            TargetKind::ExampleBin | TargetKind::ExampleLib => "example",
            TargetKind::Bench => "bench",
            TargetKind::CustomBuild => "build-script",
        }
    }

    /// The conventional entrypoint file of a target of this kind, if it has one.
    pub fn entrypoint(&self) -> (entry: Option<Entrypoint>)
        ensures
            entry == self.spec_entrypoint(),
    {
        match self {
            TargetKind::Lib | TargetKind::ExampleLib => Some(Entrypoint::Lib),
            TargetKind::Bin | TargetKind::Test | TargetKind::ExampleBin | TargetKind::Bench => Some(
                Entrypoint::Main,
            ),
            TargetKind::CustomBuild => None,
        }
    }
}

} // verus!
