//! Build targets and the project's paths.

use crate::text::{
    append_decimal, decimal_seq, join, join_seq, replace, replace_seq, words, words_seq,
};
use vstd::prelude::*;

verus! {

/// Where the parts of a contract project lie.
#[derive(Debug)]
pub struct ProjectMetadata {
    pub project_dir: String,
    pub manifest_path: String,
    pub crate_name: String,
    pub contract_target_dir: String,
    pub data_driver_target_dir: String,
    pub contract_wasm_path: String,
    pub data_driver_wasm_path: String,
}

/// What can be built.
#[derive(Clone, Copy, Debug, PartialEq, Eq, Structural)]
pub enum BuildTarget {
    /// The on-chain contract module.
    Contract,
    /// The off-chain data-driver module.
    DataDriver,
}

impl BuildTarget {
    /// The name of the target in messages.
    pub fn label(self) -> (r: &'static str)
        ensures
            r@ == (match self {
                BuildTarget::Contract => "contract"@,
                BuildTarget::DataDriver => "data-driver"@,
            }),
    {
        match self {
            BuildTarget::Contract => "contract",
            BuildTarget::DataDriver => "data-driver",
        }
    }

    /// The path of the module that the target builds.
    pub fn wasm_path(self, project: &ProjectMetadata) -> (r: String)
        ensures
            r@ == (match self {
                BuildTarget::Contract => project.contract_wasm_path@,
                BuildTarget::DataDriver => project.data_driver_wasm_path@,
            }),
    {
        match self {
            BuildTarget::Contract => project.contract_wasm_path.clone(),
            BuildTarget::DataDriver => project.data_driver_wasm_path.clone(),
        }
    }

    /// The feature that the target is built with.
    pub fn feature(self) -> (r: &'static str)
        ensures
            r@ == (match self {
                BuildTarget::Contract => "contract"@,
                BuildTarget::DataDriver => "data-driver-js"@,
            }),
    {
        match self {
            BuildTarget::Contract => "contract",
            BuildTarget::DataDriver => "data-driver-js",
        }
    }
}

/// The stack size, in bytes, that a contract module is linked with.
pub const STACK_SIZE: u32 = 65_536;

/// The compiler flags of a build, one by one: the words of the flags that
/// the caller's environment already holds; the removal of the home
/// directory from the paths in the artifact, where the home directory is
/// known and not empty; and, for a contract, the stack size.
pub open spec fn rustflag_parts(
    existing: Option<Seq<char>>,
    home: Option<Seq<char>>,
    target: BuildTarget,
) -> Seq<Seq<char>> {
    let inherited = match existing {
        Some(flags) => words_seq(flags),
        None => Seq::empty(),
    };
    let remap = match home {
        Some(dir) => if dir.len() > 0 {
            seq!["--remap-path-prefix"@, dir + "="@]
        } else {
            Seq::empty()
        },
        None => Seq::empty(),
    };
    let stack = match target {
        BuildTarget::Contract => seq![
            "-C"@,
            "link-args=-zstack-size="@ + decimal_seq(STACK_SIZE as nat),
        ],
        BuildTarget::DataDriver => Seq::empty(),
    };
    inherited + remap + stack
}

/// Composes the compiler flags of a build, separated by single spaces.
/// `existing` is the value of the flags in the caller's environment and
/// `home` the caller's home directory, each where it is set.
pub fn compose_rustflags(existing: Option<&str>, home: Option<&str>, target: BuildTarget) -> (r:
    String)
    ensures
        r@ == join_seq(
            rustflag_parts(
                match existing {
                    Some(flags) => Some(flags@),
                    None => None,
                },
                match home {
                    Some(dir) => Some(dir@),
                    None => None,
                },
                target,
            ),
            " "@,
        ),
{
    let mut parts: Vec<String> = match existing {
        Some(flags) => words(flags),
        None => Vec::new(),
    };
    let ghost inherited = parts.deep_view();
    let ghost mut remap = Seq::<Seq<char>>::empty();
    let ghost mut stack = Seq::<Seq<char>>::empty();
    proof {
        assert(inherited =~= match existing {
            Some(flags) => words_seq(flags@),
            None => Seq::empty(),
        });
    }
    match home {
        Some(dir) => {
            if dir.unicode_len() > 0 {
                let mut prefix = String::from_str(dir);
                prefix.append("=");
                parts.push(String::from_str("--remap-path-prefix"));
                parts.push(prefix);
                proof {
                    remap = seq!["--remap-path-prefix"@, dir@ + "="@];
                }
            }
        },
        None => {},
    }
    proof {
        assert(parts.deep_view() =~= inherited + remap);
    }
    match target {
        BuildTarget::Contract => {
            let mut size = String::from_str("link-args=-zstack-size=");
            append_decimal(&mut size, STACK_SIZE as u64);
            parts.push(String::from_str("-C"));
            parts.push(size);
            proof {
                stack = seq!["-C"@, "link-args=-zstack-size="@ + decimal_seq(STACK_SIZE as nat)];
            }
        },
        BuildTarget::DataDriver => {},
    }
    proof {
        assert(parts.deep_view() =~= inherited + remap + stack);
    }
    join(&parts, " ")
}

/// `raw` as it stands inside a quoted string of a configuration value.
pub open spec fn toml_escaped(raw: Seq<char>) -> Seq<char> {
    replace_seq(replace_seq(raw, "\\"@, "\\\\"@), "\""@, "\\\""@)
}

/// Escapes `raw` for a quoted string of a configuration value: every
/// backslash is doubled, then every double quote gets a backslash.
pub fn toml_escape(raw: &str) -> (r: String)
    ensures
        r@ == toml_escaped(raw@),
{
    proof {
        reveal_strlit("\\");
        reveal_strlit("\"");
    }
    let doubled = replace(raw, "\\", "\\\\");
    replace(doubled.as_str(), "\"", "\\\"")
}

} // verus!
