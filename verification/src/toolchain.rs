//! The Rust toolchain that a project is built with.

use crate::cli_error::CliError;
use crate::outside::{toml_as_str, toml_document, toml_entry, toml_get, toml_parse, toml_text};
use crate::text::{
    append_range, contains, contains_seq, find_from, first_occurrence, same_text, to_chars, trim,
    trim_seq,
};
use vstd::prelude::*;

verus! {

/// The target that contracts are compiled for.
pub const WASM_TARGET: &'static str = "wasm32-unknown-unknown";

/// What is installed of a toolchain.
#[derive(Debug)]
pub struct ToolchainStatus {
    pub channel: String,
    pub installed: bool,
    pub wasm_target: bool,
    pub rust_src: bool,
    pub wasm_opt: Option<String>,
}

/// The first line of `content`: what precedes its first line feed.
pub open spec fn first_line(content: Seq<char>) -> Seq<char> {
    match first_occurrence(content, "\n"@, 0) {
        Some(at) => content.subrange(0, at),
        None => content,
    }
}

/// The channel that a plain toolchain file names: its first line without
/// surrounding white space, unless that is empty.
pub open spec fn plain_channel(content: Seq<char>) -> Option<Seq<char>> {
    let value = trim_seq(first_line(content));
    if value.len() == 0 {
        None
    } else {
        Some(value)
    }
}

/// The channel that a TOML toolchain file names: the string at
/// `toolchain.channel` of the document.
pub open spec fn toml_channel(content: Seq<char>) -> Option<Seq<char>> {
    match toml_document(content) {
        None => None,
        Some(document) => match toml_entry(document, "toolchain"@) {
            None => None,
            Some(toolchain) => match toml_entry(toolchain, "channel"@) {
                None => None,
                Some(channel) => toml_text(channel),
            },
        },
    }
}

/// The channel that the toolchain file called `file_name` names.
pub open spec fn file_channel(file_name: Seq<char>, content: Seq<char>) -> Option<Seq<char>> {
    if file_name == "rust-toolchain.toml"@ {
        toml_channel(content)
    } else {
        plain_channel(content)
    }
}

/// The model of an optional string.
pub open spec fn text_view(s: Option<String>) -> Option<Seq<char>> {
    match s {
        Some(s) => Some(s@),
        None => None,
    }
}

/// Reads the channel from a plain toolchain file.
pub fn parse_toolchain_plain_channel(content: &str) -> (r: Option<String>)
    ensures
        text_view(r) == plain_channel(content@),
{
    let chars = to_chars(content);
    let line_feed = to_chars("\n");
    let end = match find_from(&chars, &line_feed, 0) {
        Some(at) => at,
        None => chars.len(),
    };
    proof {
        crate::text::lemma_first_occurrence(content@, "\n"@, 0);
    }
    let mut line = String::new();
    append_range(&mut line, content, 0, end);
    proof {
        assert(line@ =~= content@.subrange(0, end as int));
        if first_occurrence(content@, "\n"@, 0) is None {
            assert(content@.subrange(0, end as int) =~= content@);
        }
    }
    let value = trim(line.as_str());
    if value.as_str().is_empty() {
        None
    } else {
        Some(value)
    }
}

/// Reads the channel from a TOML toolchain file.
pub fn parse_toolchain_toml_channel(content: &str) -> (r: Option<String>)
    ensures
        text_view(r) == toml_channel(content@),
{
    let document = match toml_parse(content) {
        Ok(document) => document,
        Err(_) => {
            return None;
        },
    };
    let toolchain = match toml_get(&document, "toolchain") {
        Some(toolchain) => toolchain,
        None => {
            return None;
        },
    };
    match toml_get(toolchain, "channel") {
        Some(channel) => toml_as_str(channel),
        None => None,
    }
}

/// Reads the channel from the content of a toolchain file, by the kind of
/// file that its name tells.
pub fn read_toolchain_channel(file_name: &str, content: &str) -> (r: Option<String>)
    ensures
        text_view(r) == file_channel(file_name@, content@),
{
    if same_text(file_name, "rust-toolchain.toml") {
        parse_toolchain_toml_channel(content)
    } else {
        parse_toolchain_plain_channel(content)
    }
}

/// The channel that a project is configured for. `toolchain_file` is the
/// path, the name and the content of the project's toolchain file, where
/// one was found.
pub fn configured_channel(project_dir: &str, toolchain_file: Option<(&str, &str, &str)>) -> (r:
    Result<String, CliError>)
    ensures
        match toolchain_file {
            None => r matches Err(CliError::Message(text)) && text@
                == "missing rust-toolchain.toml (or rust-toolchain) in "@ + project_dir@
                + " or its parents"@,
            Some((path, name, content)) => match file_channel(name@, content@) {
                Some(channel) => r matches Ok(found) && found@ == channel,
                None => r matches Err(CliError::Message(text)) && text@
                    == "unable to read toolchain channel from "@ + path@,
            },
        },
{
    match toolchain_file {
        None => {
            let mut text = String::from_str("missing rust-toolchain.toml (or rust-toolchain) in ");
            text.append(project_dir);
            text.append(" or its parents");
            Err(CliError::Message(text))
        },
        Some((path, name, content)) => match read_toolchain_channel(name, content) {
            Some(channel) => Ok(channel),
            None => {
                let mut text = String::from_str("unable to read toolchain channel from ");
                text.append(path);
                Err(CliError::Message(text))
            },
        },
    }
}

/// The argument that selects the channel for a cargo command.
pub fn cargo_toolchain_arg(channel: &str) -> (r: String)
    ensures
        r@ == "+"@ + channel@,
{
    let mut out = String::from_str("+");
    out.append(channel);
    out
}

/// Puts together what is installed of the toolchain `channel`.
/// `installed_targets` and `installed_components` are what the toolchain
/// manager listed, where it could be asked.
pub fn inspect(
    channel: &str,
    installed: bool,
    installed_targets: Option<&str>,
    installed_components: Option<&str>,
    wasm_opt: Option<String>,
) -> (r: ToolchainStatus)
    ensures
        r.channel@ == channel@,
        r.installed == installed,
        r.wasm_target == (match installed_targets {
            Some(listing) => contains_seq(listing@, WASM_TARGET@),
            None => false,
        }),
        r.rust_src == (match installed_components {
            Some(listing) => contains_seq(listing@, "rust-src"@),
            None => false,
        }),
        r.wasm_opt == wasm_opt,
{
    let wasm_target = match installed_targets {
        Some(listing) => contains(listing, WASM_TARGET),
        None => false,
    };
    let rust_src = match installed_components {
        Some(listing) => contains(listing, "rust-src"),
        None => false,
    };
    ToolchainStatus { channel: String::from_str(channel), installed, wasm_target, rust_src, wasm_opt }
}

/// What keeps a build from starting.
#[derive(Clone, Copy, Debug, PartialEq, Eq, Structural)]
pub enum MissingPart {
    Toolchain,
    WasmTarget,
    RustSrc,
}

/// The first part that a build needs and the toolchain lacks.
pub open spec fn missing_part(status: ToolchainStatus, needs_rust_src: bool) -> Option<
    MissingPart,
> {
    if !status.installed {
        Some(MissingPart::Toolchain)
    } else if !status.wasm_target {
        Some(MissingPart::WasmTarget)
    } else if needs_rust_src && !status.rust_src {
        Some(MissingPart::RustSrc)
    } else {
        None
    }
}

/// The message for a missing part, with the command that installs it.
pub open spec fn missing_part_text(part: MissingPart, channel: Seq<char>) -> Seq<char> {
    match part {
        MissingPart::Toolchain => "missing Rust toolchain '"@ + channel
            + "'. Install with: rustup toolchain install "@ + channel,
        MissingPart::WasmTarget => "missing wasm32-unknown-unknown target for toolchain '"@
            + channel
            + "'. Install with: rustup target add wasm32-unknown-unknown --toolchain "@
            + channel,
        MissingPart::RustSrc => "missing rust-src component for toolchain '"@ + channel
            + "'. Install with: rustup component add rust-src --toolchain "@ + channel,
    }
}

/// Checks that the toolchain can build: it must be installed and have the
/// WebAssembly target and, where the build needs them, the sources of the
/// standard library.
pub fn ensure_build(status: ToolchainStatus, needs_rust_src: bool) -> (r: Result<
    ToolchainStatus,
    CliError,
>)
    ensures
        match missing_part(status, needs_rust_src) {
            None => r == Ok::<ToolchainStatus, CliError>(status),
            Some(part) => r matches Err(CliError::Message(text)) && text@ == missing_part_text(
                part,
                status.channel@,
            ),
        },
{
    if !status.installed {
        let mut text = String::from_str("missing Rust toolchain '");
        text.append(status.channel.as_str());
        text.append("'. Install with: rustup toolchain install ");
        text.append(status.channel.as_str());
        return Err(CliError::Message(text));
    }
    if !status.wasm_target {
        let mut text = String::from_str("missing wasm32-unknown-unknown target for toolchain '");
        text.append(status.channel.as_str());
        text.append("'. Install with: rustup target add wasm32-unknown-unknown --toolchain ");
        text.append(status.channel.as_str());
        return Err(CliError::Message(text));
    }
    if needs_rust_src && !status.rust_src {
        let mut text = String::from_str("missing rust-src component for toolchain '");
        text.append(status.channel.as_str());
        text.append("'. Install with: rustup component add rust-src --toolchain ");
        text.append(status.channel.as_str());
        return Err(CliError::Message(text));
    }
    Ok(status)
}

} // verus!
