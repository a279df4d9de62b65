//! The project templates that scaffolding starts from.

use vstd::prelude::*;

verus! {

/// The built-in templates.
#[derive(Clone, Copy, Debug, PartialEq, Eq, Structural)]
pub enum TemplateKind {
    /// A counter contract with an event.
    Counter,
    /// A contract without state or operations.
    Empty,
}

/// The files of a template, with placeholders for the project's names.
#[derive(Clone, Copy, Debug)]
pub struct TemplateFiles {
    pub cargo_toml: &'static str,
    pub lib_rs: &'static str,
    pub test_rs: &'static str,
    pub rust_toolchain_toml: &'static str,
    pub gitignore: &'static str,
    pub makefile: &'static str,
}

/// The manifest of a scaffolded project.
pub const COUNTER_CARGO_TOML: &'static str = r##"[package]
name = "YOUR_CONTRACT_NAME"
version = "0.1.0"
edition = "2021"

[lib]
crate-type = ["cdylib", "rlib"]

[dependencies]
dusk-core = "1"
dusk-forge = "0.1"

[dev-dependencies]
dusk-vm = "1"

[features]
contract = []
data-driver = []
data-driver-js = ["data-driver"]

[profile.release]
overflow-checks = true
"##;

/// The contract of the counter template.
pub const COUNTER_LIB_RS: &'static str = r##"//! Example contract demonstrating the `#[contract]` macro.
//!
//! This is a minimal counter contract showing:
//! - Contract state definition
//! - Public methods (automatically exported)
//! - Event emission

#![no_std]
#![cfg(target_family = "wasm")]

// Require explicit feature selection for WASM builds
#[cfg(not(any(feature = "contract", feature = "data-driver")))]
compile_error!("Enable either 'contract' or 'data-driver' feature for WASM builds");

extern crate alloc;

/// Counter contract with basic increment/decrement functionality.
#[dusk_wasm::contract]
mod counter {
    use dusk_core::abi;

    /// Contract state.
    pub struct Counter {
        /// Current count value.
        value: u64,
    }

    /// Event emitted when the counter changes.
    #[derive(Debug)]
    pub struct CountChanged {
        /// Previous value.
        pub old_value: u64,
        /// New value.
        pub new_value: u64,
    }

    impl Counter {
        /// Initialize a new counter with zero.
        pub fn new() -> Self {
            Self { value: 0 }
        }

        /// Get the current count.
        pub fn get_count(&self) -> u64 {
            self.value
        }

        /// Increment the counter by one.
        pub fn increment(&mut self) {
            let old_value = self.value;
            self.value = self.value.saturating_add(1);
            abi::emit("count_changed", CountChanged {
                old_value,
                new_value: self.value,
            });
        }

        /// Decrement the counter by one.
        pub fn decrement(&mut self) {
            let old_value = self.value;
            self.value = self.value.saturating_sub(1);
            abi::emit("count_changed", CountChanged {
                old_value,
                new_value: self.value,
            });
        }

        /// Set the counter to a specific value.
        pub fn set_count(&mut self, value: u64) {
            let old_value = self.value;
            self.value = value;
            abi::emit("count_changed", CountChanged {
                old_value,
                new_value: self.value,
            });
        }
    }
}
"##;

/// The tests of the counter template.
pub const COUNTER_TEST_RS: &'static str = r##"//! Contract deployment and integration tests.

use dusk_core::abi::ContractId;
use dusk_vm::{ContractData, Session, VM};

const CONTRACT_BYTECODE: &[u8] =
    include_bytes!("../target/contract/wasm32-unknown-unknown/release/YOUR_CONTRACT_NAME.wasm");
const CONTRACT_ID: ContractId = ContractId::from_bytes([1; 32]);
const CHAIN_ID: u8 = 1;
const GAS_LIMIT: u64 = u64::MAX;
const OWNER: [u8; 32] = [0; 32];

struct TestHarness {
    _vm: VM,
    session: Session,
}

fn deploy_counter() -> TestHarness {
    let vm = VM::ephemeral().expect("creating ephemeral VM should succeed");
    let mut session = vm.genesis_session(CHAIN_ID);

    let deployed_id = session
        .deploy(
            CONTRACT_BYTECODE,
            ContractData::builder()
                .owner(OWNER)
                .contract_id(CONTRACT_ID),
            GAS_LIMIT,
        )
        .expect("deploying contract should succeed");

    assert_eq!(deployed_id, CONTRACT_ID);

    TestHarness { _vm: vm, session }
}

fn get_count(session: &mut Session) -> u64 {
    session
        .call::<_, u64>(CONTRACT_ID, "get_count", &(), GAS_LIMIT)
        .expect("get_count call should succeed")
        .data
}

#[test]
fn test_contract_deploys_with_zero_state() {
    let mut harness = deploy_counter();
    assert_eq!(get_count(&mut harness.session), 0);
}

#[test]
fn test_counter_mutations() {
    let mut harness = deploy_counter();

    harness
        .session
        .call::<_, ()>(CONTRACT_ID, "increment", &(), GAS_LIMIT)
        .expect("increment call should succeed");
    harness
        .session
        .call::<_, ()>(CONTRACT_ID, "set_count", &42_u64, GAS_LIMIT)
        .expect("set_count call should succeed");
    harness
        .session
        .call::<_, ()>(CONTRACT_ID, "decrement", &(), GAS_LIMIT)
        .expect("decrement call should succeed");

    assert_eq!(get_count(&mut harness.session), 41);
}

#[test]
fn test_decrement_saturates_at_zero() {
    let mut harness = deploy_counter();

    harness
        .session
        .call::<_, ()>(CONTRACT_ID, "decrement", &(), GAS_LIMIT)
        .expect("decrement call should succeed");

    assert_eq!(get_count(&mut harness.session), 0);
}
"##;

/// The toolchain file of a scaffolded project.
pub const COUNTER_RUST_TOOLCHAIN_TOML: &'static str = r##"[toolchain]
channel = "nightly-2024-07-30"
components = ["rust-src"]
targets = ["wasm32-unknown-unknown"]
"##;

/// The ignore file of a scaffolded project.
pub const COUNTER_GITIGNORE: &'static str = r##"/target
"##;

/// The makefile of a scaffolded project.
pub const COUNTER_MAKEFILE: &'static str = r##".PHONY: build test check clean

build:
	dusk-forge build

test:
	dusk-forge test

check:
	dusk-forge check

clean:
	dusk-forge clean
"##;

/// The contract of the empty template.
pub const EMPTY_LIB_RS: &'static str = r##"//! Minimal contract template for `#[contract]`.

#![no_std]
#![cfg(target_family = "wasm")]

#[cfg(not(any(feature = "contract", feature = "data-driver")))]
compile_error!("Enable either 'contract' or 'data-driver' feature for WASM builds");

extern crate alloc;
use dusk_core as _;

#[dusk_forge::contract]
mod YOUR_MODULE_NAME {
    /// Contract state.
    pub struct YOUR_STRUCT_NAME;

    impl YOUR_STRUCT_NAME {
        /// Initialize an empty contract state.
        pub const fn new() -> Self {
            Self
        }
    }
}
"##;

/// The tests of the empty template.
pub const EMPTY_TEST_RS: &'static str = r##"//! Contract deployment and integration tests.

use dusk_core::abi::ContractId;
use dusk_vm::{ContractData, VM};

const CONTRACT_BYTECODE: &[u8] =
    include_bytes!("../target/contract/wasm32-unknown-unknown/release/YOUR_CONTRACT_NAME.wasm");

const CONTRACT_ID: ContractId = ContractId::from_bytes([1; 32]);
const CHAIN_ID: u8 = 1;
const GAS_LIMIT: u64 = u64::MAX;
const OWNER: [u8; 32] = [0; 32];

#[test]
fn test_contract_deploys() {
    let vm = VM::ephemeral().expect("creating ephemeral VM should succeed");
    let mut session = vm.genesis_session(CHAIN_ID);

    let deployed_id = session
        .deploy(
            CONTRACT_BYTECODE,
            ContractData::builder()
                .owner(OWNER)
                .contract_id(CONTRACT_ID),
            GAS_LIMIT,
        )
        .expect("deploying contract should succeed");

    assert_eq!(deployed_id, CONTRACT_ID);
}
"##;

/// The files of `template`. Both templates share the manifest, the
/// toolchain file, the ignore file and the makefile.
pub open spec fn template_files(template: TemplateKind) -> TemplateFiles {
    match template {
        TemplateKind::Counter => TemplateFiles {
            cargo_toml: COUNTER_CARGO_TOML,
            lib_rs: COUNTER_LIB_RS,
            test_rs: COUNTER_TEST_RS,
            rust_toolchain_toml: COUNTER_RUST_TOOLCHAIN_TOML,
            gitignore: COUNTER_GITIGNORE,
            makefile: COUNTER_MAKEFILE,
        },
        TemplateKind::Empty => TemplateFiles {
            cargo_toml: COUNTER_CARGO_TOML,
            lib_rs: EMPTY_LIB_RS,
            test_rs: EMPTY_TEST_RS,
            rust_toolchain_toml: COUNTER_RUST_TOOLCHAIN_TOML,
            gitignore: COUNTER_GITIGNORE,
            makefile: COUNTER_MAKEFILE,
        },
    }
}

/// Hands out the files of a template.
pub fn files(template: TemplateKind) -> (r: TemplateFiles)
    ensures
        r == template_files(template),
{
    match template {
        TemplateKind::Counter => TemplateFiles {
            cargo_toml: COUNTER_CARGO_TOML,
            lib_rs: COUNTER_LIB_RS,
            test_rs: COUNTER_TEST_RS,
            rust_toolchain_toml: COUNTER_RUST_TOOLCHAIN_TOML,
            gitignore: COUNTER_GITIGNORE,
            makefile: COUNTER_MAKEFILE,
        },
        TemplateKind::Empty => TemplateFiles {
            cargo_toml: COUNTER_CARGO_TOML,
            lib_rs: EMPTY_LIB_RS,
            test_rs: EMPTY_TEST_RS,
            rust_toolchain_toml: COUNTER_RUST_TOOLCHAIN_TOML,
            gitignore: COUNTER_GITIGNORE,
            makefile: COUNTER_MAKEFILE,
        },
    }
}

} // verus!
