//! The arguments of the commands.

use crate::build_runner::BuildTarget;
use vstd::prelude::*;

verus! {

/// Which modules a build makes.
#[derive(Clone, Copy, Debug, PartialEq, Eq, Structural)]
pub enum BuildScope {
    /// The on-chain contract module.
    Contract,
    /// The off-chain data-driver module.
    DataDriver,
    /// Both modules.
    All,
}

impl BuildScope {
    /// The targets of the scope, the contract first.
    pub fn expand(self) -> (r: Vec<BuildTarget>)
        ensures
            r@ == (match self {
                BuildScope::Contract => seq![BuildTarget::Contract],
                BuildScope::DataDriver => seq![BuildTarget::DataDriver],
                BuildScope::All => seq![BuildTarget::Contract, BuildTarget::DataDriver],
            }),
    {
        let mut targets: Vec<BuildTarget> = Vec::new();
        match self {
            BuildScope::Contract => {
                targets.push(BuildTarget::Contract);
            },
            BuildScope::DataDriver => {
                targets.push(BuildTarget::DataDriver);
            },
            BuildScope::All => {
                targets.push(BuildTarget::Contract);
                targets.push(BuildTarget::DataDriver);
            },
        }
        proof {
            match self {
                BuildScope::Contract => {
                    assert(targets@ =~= seq![BuildTarget::Contract]);
                },
                BuildScope::DataDriver => {
                    assert(targets@ =~= seq![BuildTarget::DataDriver]);
                },
                BuildScope::All => {
                    assert(targets@ =~= seq![BuildTarget::Contract, BuildTarget::DataDriver]);
                },
            }
        }
        targets
    }

    /// Whether the scope builds the contract, which needs the sources of
    /// the standard library.
    pub fn needs_rust_src(self) -> (r: bool)
        ensures
            r == (self == BuildScope::Contract || self == BuildScope::All),
    {
        match self {
            BuildScope::Contract => true,
            BuildScope::All => true,
            BuildScope::DataDriver => false,
        }
    }
}

impl Default for BuildScope {
    fn default() -> (r: BuildScope)
        ensures
            r == BuildScope::All,
    {
        BuildScope::All
    }
}

/// The built-in templates to choose from.
#[derive(Clone, Copy, Debug, PartialEq, Eq, Structural)]
pub enum TemplateChoice {
    Counter,
    Empty,
}

/// The arguments of `new`.
#[derive(Debug)]
pub struct NewArgs {
    /// Name of the new contract project (kebab-case).
    pub name: String,
    /// Directory in which the new project folder will be created.
    pub path: String,
    /// Built-in template to use.
    pub template: TemplateChoice,
    /// Skip `git init` in the created project.
    pub no_git: bool,
    /// Enable verbose output.
    pub verbose: bool,
}

/// The options that every project command takes.
#[derive(Debug)]
pub struct ProjectOptions {
    /// Path to the contract project directory.
    pub path: String,
    /// Enable verbose output.
    pub verbose: bool,
}

/// The arguments of `build`.
#[derive(Debug)]
pub struct BuildArgs {
    pub project: ProjectOptions,
    /// Which module to build.
    pub target: BuildScope,
}

/// The arguments of `test`.
#[derive(Debug)]
pub struct TestArgs {
    pub project: ProjectOptions,
    /// Extra arguments passed through to the test run.
    pub cargo_test_args: Vec<String>,
}

/// The arguments of `expand`.
#[derive(Debug)]
pub struct ExpandArgs {
    pub project: ProjectOptions,
    /// Expand with the data-driver feature.
    pub data_driver: bool,
}

/// The arguments of `schema`.
#[derive(Debug)]
pub struct SchemaArgs {
    pub project: ProjectOptions,
    /// Pretty-print the JSON output.
    pub pretty: bool,
}

/// The arguments of `call`.
#[derive(Debug)]
pub struct CallArgs {
    pub project: ProjectOptions,
    /// Contract function name to encode.
    pub function: String,
    /// JSON input payload for the function.
    pub input: String,
}

/// The arguments of `verify`.
#[derive(Debug)]
pub struct VerifyArgs {
    pub project: ProjectOptions,
    /// Optional expected BLAKE3 hash of the contract module.
    pub expected_blake3: Option<String>,
    /// Skip rebuilding and verify existing files only.
    pub skip_build: bool,
}

} // verus!
