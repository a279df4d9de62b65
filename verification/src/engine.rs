//! The template engine: contract names and the rendering of templates.

use crate::cli_error::CliError;
use crate::embedded::{TemplateKind, files, template_files};
use crate::text::{
    append_range, append_upper, contains, contains_seq, is_ascii_digit, is_ascii_lower, replace,
    replace_seq, to_chars, upper_seq,
};
use vstd::prelude::*;

verus! {

/// The names of a contract project: as given, as a module and as a type.
#[derive(Debug)]
pub struct ContractName {
    pub kebab: String,
    pub module: String,
    pub pascal: String,
}

/// The rendered files of a new project.
#[derive(Debug)]
pub struct RenderedTemplate {
    pub cargo_toml: String,
    pub lib_rs: String,
    pub test_rs: String,
    pub rust_toolchain_toml: String,
    pub gitignore: String,
    pub makefile: String,
}

/// What is wrong with a contract name.
#[derive(Clone, Copy, Debug, PartialEq, Eq, Structural)]
pub enum NameFault {
    Empty,
    Characters,
    Start,
    TrailingHyphen,
    DoubleHyphen,
}

/// `c` may stand in a contract name.
pub open spec fn name_char(c: char) -> bool {
    is_ascii_lower(c) || is_ascii_digit(c) || c == '-'
}

/// The first rule that `name` breaks, if any: a name is not empty, holds
/// lower-case letters, digits and hyphens only, starts with a letter, does
/// not end with a hyphen and has no two hyphens in a row.
pub open spec fn name_fault(name: Seq<char>) -> Option<NameFault> {
    if name.len() == 0 {
        Some(NameFault::Empty)
    } else if !(forall|i: int| 0 <= i < name.len() ==> name_char(#[trigger] name[i])) {
        Some(NameFault::Characters)
    } else if !is_ascii_lower(name[0]) {
        Some(NameFault::Start)
    } else if name.last() == '-' {
        Some(NameFault::TrailingHyphen)
    } else if contains_seq(name, "--"@) {
        Some(NameFault::DoubleHyphen)
    } else {
        None
    }
}

/// The reason given for a fault.
pub open spec fn fault_reason(fault: NameFault) -> Seq<char> {
    match fault {
        NameFault::Empty => "name cannot be empty"@,
        NameFault::Characters => "use lowercase letters, digits, and hyphens only"@,
        NameFault::Start => "name must start with a lowercase letter"@,
        NameFault::TrailingHyphen => "name cannot end with a hyphen"@,
        NameFault::DoubleHyphen => "name cannot contain consecutive hyphens"@,
    }
}

/// The module name of a contract: its name with an underscore for each
/// hyphen.
pub open spec fn module_name(name: Seq<char>) -> Seq<char> {
    replace_seq(name, "-"@, "_"@)
}

/// The type name made of the first `n` characters of a contract name: the
/// hyphens are dropped, and each character that starts the name or follows
/// a hyphen is made upper-case.
pub open spec fn pascal_upto(name: Seq<char>, n: nat) -> Seq<char>
    decreases n,
{
    if n == 0 || n > name.len() {
        Seq::empty()
    } else {
        let prev = pascal_upto(name, (n - 1) as nat);
        let c = name[n - 1];
        if c == '-' {
            prev
        } else if n == 1 || name[n - 2] == '-' {
            prev + upper_seq(c)
        } else {
            prev.push(c)
        }
    }
}

/// The type name of a contract.
pub open spec fn pascal_name(name: Seq<char>) -> Seq<char> {
    pascal_upto(name, name.len())
}

/// A segment with its first character made upper-case.
pub open spec fn pascal_segment(segment: Seq<char>) -> Seq<char> {
    if segment.len() == 0 {
        Seq::empty()
    } else {
        upper_seq(segment[0]) + segment.skip(1)
    }
}

/// Makes the first character of a segment upper-case.
pub fn to_pascal_segment(segment: &str) -> (r: String)
    ensures
        r@ == pascal_segment(segment@),
{
    let chars = to_chars(segment);
    let mut out = String::new();
    if chars.len() > 0 {
        append_upper(&mut out, segment, &chars, 0);
        append_range(&mut out, segment, 1, chars.len());
        proof {
            assert(segment@.subrange(1, segment@.len() as int) =~= segment@.skip(1));
            assert(out@ =~= upper_seq(segment@[0]) + segment@.skip(1));
        }
    }
    out
}

/// Writes the type name of a contract.
fn to_pascal_case(name: &str) -> (r: String)
    ensures
        r@ == pascal_name(name@),
{
    let chars = to_chars(name);
    let mut out = String::new();
    let mut i: usize = 0;
    while i < chars.len()
        invariant
            i <= chars.len(),
            chars@ == name@,
            out@ == pascal_upto(chars@, i as nat),
        decreases chars.len() - i,
    {
        let c = chars[i];
        if c != '-' {
            if i == 0 || chars[i - 1] == '-' {
                append_upper(&mut out, name, &chars, i);
            } else {
                append_range(&mut out, name, i, i + 1);
                proof {
                    assert(name@.subrange(i as int, i + 1) =~= seq![c]);
                    assert(pascal_upto(chars@, i as nat) + seq![c] =~= pascal_upto(
                        chars@,
                        i as nat,
                    ).push(c));
                }
            }
        }
        i = i + 1;
    }
    out
}

/// Finds the first rule that a name breaks.
fn check_name(name: &str) -> (r: Option<NameFault>)
    ensures
        r == name_fault(name@),
{
    let chars = to_chars(name);
    if chars.len() == 0 {
        return Some(NameFault::Empty);
    }
    let mut i: usize = 0;
    while i < chars.len()
        invariant
            i <= chars.len(),
            chars@ == name@,
            forall|j: int| 0 <= j < i ==> name_char(#[trigger] chars@[j]),
        decreases chars.len() - i,
    {
        let c = chars[i];
        let allowed = ('a' <= c && c <= 'z') || ('0' <= c && c <= '9') || c == '-';
        if !allowed {
            return Some(NameFault::Characters);
        }
        i = i + 1;
    }
    let first = chars[0];
    if !('a' <= first && first <= 'z') {
        return Some(NameFault::Start);
    }
    if chars[chars.len() - 1] == '-' {
        return Some(NameFault::TrailingHyphen);
    }
    if contains(name, "--") {
        return Some(NameFault::DoubleHyphen);
    }
    None
}

/// Validates a contract name and derives its module and type names.
pub fn validate_contract_name(name: &str) -> (r: Result<ContractName, CliError>)
    ensures
        match r {
            Ok(parsed) => name_fault(name@) is None && parsed.kebab@ == name@ && parsed.module@
                == module_name(name@) && parsed.pascal@ == pascal_name(name@),
            Err(e) => name_fault(name@) is Some && (e matches CliError::InvalidContractName {
                name: given,
                reason,
            } && given@ == name@ && reason@ == fault_reason(name_fault(name@)->0)),
        },
{
    match check_name(name) {
        Some(fault) => {
            let reason = match fault {
                NameFault::Empty => "name cannot be empty",
                NameFault::Characters => "use lowercase letters, digits, and hyphens only",
                NameFault::Start => "name must start with a lowercase letter",
                NameFault::TrailingHyphen => "name cannot end with a hyphen",
                NameFault::DoubleHyphen => "name cannot contain consecutive hyphens",
            };
            Err(
                CliError::InvalidContractName {
                    name: String::from_str(name),
                    reason: String::from_str(reason),
                },
            )
        },
        None => {
            proof {
                reveal_strlit("-");
            }
            Ok(
                ContractName {
                    kebab: String::from_str(name),
                    module: replace(name, "-", "_"),
                    pascal: to_pascal_case(name),
                },
            )
        },
    }
}

/// A template text with the names of the contract in place of the
/// placeholders.
pub open spec fn common_replacements(
    content: Seq<char>,
    kebab: Seq<char>,
    module: Seq<char>,
    pascal: Seq<char>,
) -> Seq<char> {
    replace_seq(
        replace_seq(
            replace_seq(
                replace_seq(
                    replace_seq(content, "YOUR_CONTRACT_NAME"@, kebab),
                    "YOUR_MODULE_NAME"@,
                    module,
                ),
                "YOUR_STRUCT_NAME"@,
                pascal,
            ),
            "mod counter"@,
            "mod "@ + module,
        ),
        "Counter"@,
        pascal,
    )
}

/// A test template with the names of the contract in place: the name of
/// the compiled module first, then the common placeholders.
pub open spec fn test_replacements(
    content: Seq<char>,
    kebab: Seq<char>,
    module: Seq<char>,
    pascal: Seq<char>,
) -> Seq<char> {
    common_replacements(
        replace_seq(content, "YOUR_CONTRACT_NAME.wasm"@, module + ".wasm"@),
        kebab,
        module,
        pascal,
    )
}

/// Puts the names of the contract in place of the common placeholders.
pub fn apply_common_replacements(content: &str, name: &ContractName) -> (r: String)
    ensures
        r@ == common_replacements(content@, name.kebab@, name.module@, name.pascal@),
{
    proof {
        reveal_strlit("YOUR_CONTRACT_NAME");
        reveal_strlit("YOUR_MODULE_NAME");
        reveal_strlit("YOUR_STRUCT_NAME");
        reveal_strlit("mod counter");
        reveal_strlit("Counter");
    }
    let mut module_decl = String::from_str("mod ");
    module_decl.append(name.module.as_str());
    let a = replace(content, "YOUR_CONTRACT_NAME", name.kebab.as_str());
    let b = replace(a.as_str(), "YOUR_MODULE_NAME", name.module.as_str());
    let c = replace(b.as_str(), "YOUR_STRUCT_NAME", name.pascal.as_str());
    let d = replace(c.as_str(), "mod counter", module_decl.as_str());
    replace(d.as_str(), "Counter", name.pascal.as_str())
}

/// Puts the names of the contract in place in a test template.
pub fn apply_test_replacements(content: &str, name: &ContractName) -> (r: String)
    ensures
        r@ == test_replacements(content@, name.kebab@, name.module@, name.pascal@),
{
    proof {
        reveal_strlit("YOUR_CONTRACT_NAME.wasm");
    }
    let mut wasm_name = name.module.clone();
    wasm_name.append(".wasm");
    let with_wasm_name = replace(content, "YOUR_CONTRACT_NAME.wasm", wasm_name.as_str());
    apply_common_replacements(with_wasm_name.as_str(), name)
}

/// Renders a template for a contract: the manifest, the contract and its
/// tests get the contract's names; the other files are copied.
pub fn render_template(template: TemplateKind, name: &ContractName) -> (r: RenderedTemplate)
    ensures
        ({
            let source = template_files(template);
            &&& r.cargo_toml@ == common_replacements(
                source.cargo_toml@,
                name.kebab@,
                name.module@,
                name.pascal@,
            )
            &&& r.lib_rs@ == common_replacements(
                source.lib_rs@,
                name.kebab@,
                name.module@,
                name.pascal@,
            )
            &&& r.test_rs@ == test_replacements(
                source.test_rs@,
                name.kebab@,
                name.module@,
                name.pascal@,
            )
            &&& r.rust_toolchain_toml@ == source.rust_toolchain_toml@
            &&& r.gitignore@ == source.gitignore@
            &&& r.makefile@ == source.makefile@
        }),
{
    let template = files(template);
    RenderedTemplate {
        cargo_toml: apply_common_replacements(template.cargo_toml, name),
        lib_rs: apply_common_replacements(template.lib_rs, name),
        test_rs: apply_test_replacements(template.test_rs, name),
        rust_toolchain_toml: String::from_str(template.rust_toolchain_toml),
        gitignore: String::from_str(template.gitignore),
        makefile: String::from_str(template.makefile),
    }
}

} // verus!
