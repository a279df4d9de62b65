//! The `verify` command: the hash of the contract module and the sanity
//! of its schema.

use crate::cli_error::CliError;
use crate::data_driver_wasm::{
    DataDriverWasm, SCHEMA_OFFSET, bridge_error_text, failure_message, framed_text,
};
use crate::outside::{
    blake3_digest, blake3_of, json_array_len, json_as_str, json_document, json_error_text,
    json_get, json_length, json_member, json_parse, json_text,
};
use crate::text::{
    ascii_lowercase, hex, hex_seq, lowercase_seq, same_text, strip_prefixes, without_prefixes,
};
use vstd::prelude::*;

verus! {

/// What a verification found.
#[derive(Debug)]
pub struct VerifyReport {
    /// The BLAKE3 hash of the contract module in hexadecimal.
    pub contract_blake3: String,
    /// The name of the contract in the schema.
    pub schema_contract: String,
    /// The number of functions in the schema.
    pub schema_functions: usize,
}

/// An expected hash as it is compared: without leading `0x` and in lower
/// case.
pub open spec fn normalized_hash(expected: Seq<char>) -> Seq<char> {
    lowercase_seq(without_prefixes(expected, "0x"@))
}

/// The expected hash, if one is given, is the actual one.
pub open spec fn hash_matches(actual: Seq<char>, expected: Option<Seq<char>>) -> bool {
    match expected {
        Some(expected) => normalized_hash(expected) == actual,
        None => true,
    }
}

/// What is wrong with a schema.
#[derive(Clone, Copy, Debug, PartialEq, Eq, Structural)]
pub enum SchemaFault {
    NotJson,
    MissingName,
    MissingFunctions,
    NoFunctions,
}

/// The name and the number of functions of a schema, or what is wrong with
/// it: a schema is a JSON object with a string `name` and a non-empty
/// array `functions`.
pub open spec fn schema_summary(schema_json: Seq<char>) -> Result<(Seq<char>, nat), SchemaFault> {
    match json_document(schema_json) {
        None => Err(SchemaFault::NotJson),
        Some(schema) => {
            let name = match json_member(schema, "name"@) {
                Some(name) => json_text(name),
                None => None,
            };
            let count = match json_member(schema, "functions"@) {
                Some(functions) => json_length(functions),
                None => None,
            };
            if name is None {
                Err(SchemaFault::MissingName)
            } else if count is None {
                Err(SchemaFault::MissingFunctions)
            } else if count->0 == 0 {
                Err(SchemaFault::NoFunctions)
            } else {
                Ok((name->0, count->0))
            }
        },
    }
}

/// The message for a mismatch of hashes.
pub open spec fn mismatch_text(expected: Seq<char>, actual: Seq<char>) -> Seq<char> {
    "BLAKE3 mismatch: expected "@ + expected + ", got "@ + actual
}

/// Compares the hash of the contract module with the expected one.
pub fn check_hash(actual_hash: &str, expected_blake3: Option<&str>) -> (r: Result<(), CliError>)
    ensures
        match r {
            Ok(()) => hash_matches(
                actual_hash@,
                match expected_blake3 {
                    Some(expected) => Some(expected@),
                    None => None,
                },
            ),
            Err(e) => expected_blake3 is Some && normalized_hash(expected_blake3->0@)
                != actual_hash@ && (e matches CliError::Message(text) && text@ == mismatch_text(
                normalized_hash(expected_blake3->0@),
                actual_hash@,
            )),
        },
{
    match expected_blake3 {
        Some(expected) => {
            proof {
                reveal_strlit("0x");
            }
            let stripped = strip_prefixes(expected, "0x");
            let normalized = ascii_lowercase(stripped.as_str());
            if !same_text(actual_hash, normalized.as_str()) {
                let mut text = String::from_str("BLAKE3 mismatch: expected ");
                text.append(normalized.as_str());
                text.append(", got ");
                text.append(actual_hash);
                return Err(CliError::Message(text));
            }
            Ok(())
        },
        None => Ok(()),
    }
}

/// Reads the name and the number of functions from a schema.
pub fn summarize_schema(schema_json: &str) -> (r: Result<(String, usize), CliError>)
    ensures
        match schema_summary(schema_json@) {
            Ok((name, count)) => r matches Ok((found, functions)) && found@ == name && functions
                == count,
            Err(SchemaFault::NotJson) => r matches Err(e) && e is Message,
            Err(SchemaFault::MissingName) => r matches Err(CliError::Message(text)) && text@
                == "schema is missing 'name'"@,
            Err(SchemaFault::MissingFunctions) => r matches Err(CliError::Message(text)) && text@
                == "schema is missing 'functions' array"@,
            Err(SchemaFault::NoFunctions) => r matches Err(CliError::Message(text)) && text@
                == "schema contains zero functions"@,
        },
{
    let schema = match json_parse(schema_json) {
        Ok(schema) => schema,
        Err(e) => {
            return Err(CliError::Message(json_error_text(&e)));
        },
    };
    let name = match json_get(&schema, "name") {
        Some(name) => json_as_str(name),
        None => None,
    };
    let contract_name = match name {
        Some(name) => name,
        None => {
            return Err(CliError::Message(String::from_str("schema is missing 'name'")));
        },
    };
    let count = match json_get(&schema, "functions") {
        Some(functions) => json_array_len(functions),
        None => None,
    };
    let function_count = match count {
        Some(count) => count,
        None => {
            return Err(
                CliError::Message(String::from_str("schema is missing 'functions' array")),
            );
        },
    };
    if function_count == 0 {
        return Err(CliError::Message(String::from_str("schema contains zero functions")));
    }
    Ok((contract_name, function_count))
}

/// Fetches the schema from a loaded data driver and reports what it
/// says: the name of the contract and the number of its functions, beside
/// the hash `contract_blake3` of the contract module. A schema that the
/// driver cannot serve, or that lacks the name or the functions, is an
/// error.
pub fn served_report(driver: &mut DataDriverWasm, contract_blake3: String) -> (r: Result<
    VerifyReport,
    CliError,
>)
    requires
        old(driver).well_formed(),
    ensures
        final(driver).well_formed(),
        ({
            let served = framed_text(final(driver).memory_bytes(), SCHEMA_OFFSET as nat);
            match r {
                Ok(report) => served is Ok && schema_summary(served->Ok_0) == Ok::<
                    (Seq<char>, nat),
                    SchemaFault,
                >((report.schema_contract@, report.schema_functions as nat))
                    && report.contract_blake3@ == contract_blake3@,
                Err(e) => e matches CliError::Message(message) && ((served is Ok
                    && schema_summary(served->Ok_0) is Err) || failure_message(
                    message@,
                    "get_schema"@,
                    final(driver).memory_bytes(),
                    SCHEMA_OFFSET as nat,
                )),
            }
        }),
{
    let schema_json = match driver.get_schema_json() {
        Ok(text) => text,
        Err(e) => {
            let message = e.message();
            proof {
                assert(bridge_error_text(e) == message@);
            }
            return Err(CliError::Message(message));
        },
    };
    match summarize_schema(schema_json.as_str()) {
        Ok((schema_contract, schema_functions)) => Ok(
            VerifyReport { contract_blake3, schema_contract, schema_functions },
        ),
        Err(e) => Err(e),
    }
}

/// Verifies the artifacts of a contract: both modules must be valid, the
/// hash of the contract module must be the expected one where one is
/// given, and the schema that the data driver serves must name the
/// contract and list at least one function.
pub fn run(contract_wasm: &Vec<u8>, data_driver_wasm: &Vec<u8>, expected_blake3: Option<&str>)
    -> (r: Result<VerifyReport, CliError>)
    ensures
        match r {
            Ok(report) => report.contract_blake3@ == hex_seq(blake3_of(contract_wasm@))
                && hash_matches(
                report.contract_blake3@,
                match expected_blake3 {
                    Some(expected) => Some(expected@),
                    None => None,
                },
            ) && report.schema_functions > 0,
            Err(e) => e is Message,
        },
{
    match DataDriverWasm::validate_module(contract_wasm) {
        Ok(()) => {},
        Err(e) => {
            return Err(CliError::Message(e.message()));
        },
    }
    match DataDriverWasm::validate_module(data_driver_wasm) {
        Ok(()) => {},
        Err(e) => {
            return Err(CliError::Message(e.message()));
        },
    }
    let actual_hash = hex(&blake3_digest(contract_wasm));
    match check_hash(actual_hash.as_str(), expected_blake3) {
        Ok(()) => {},
        Err(e) => {
            return Err(e);
        },
    }
    let mut driver = match DataDriverWasm::load(data_driver_wasm) {
        Ok(driver) => driver,
        Err(e) => {
            return Err(CliError::Message(e.message()));
        },
    };
    served_report(&mut driver, actual_hash)
}

} // verus!
