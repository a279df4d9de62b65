//! The `schema` command: the contract's schema as JSON text.

use crate::cli_error::CliError;
use crate::data_driver_wasm::{
    DataDriverWasm, SCHEMA_OFFSET, bridge_error_text, failure_message, framed_text,
};
use crate::outside::{
    json_compact, json_document, json_error_text, json_parse, json_pretty, json_to_string,
    json_to_string_pretty,
};
use vstd::prelude::*;

verus! {

/// Writes the schema anew, compact or indented. A schema that is no JSON
/// text is an error.
pub fn render_schema(schema_json: &str, pretty: bool) -> (r: Result<String, CliError>)
    ensures
        match json_document(schema_json@) {
            Some(schema) => r matches Ok(text) && text@ == (if pretty {
                json_pretty(schema)
            } else {
                json_compact(schema)
            }),
            None => r matches Err(e) && e is Message,
        },
{
    let parsed = match json_parse(schema_json) {
        Ok(parsed) => parsed,
        Err(e) => {
            return Err(CliError::Message(json_error_text(&e)));
        },
    };
    if pretty {
        Ok(json_to_string_pretty(&parsed))
    } else {
        Ok(json_to_string(&parsed))
    }
}

/// Fetches the schema from the data driver and writes it as JSON text.
pub fn run(driver: &mut DataDriverWasm, pretty: bool) -> (r: Result<String, CliError>)
    requires
        old(driver).well_formed(),
    ensures
        final(driver).well_formed(),
        ({
            let served = framed_text(final(driver).memory_bytes(), SCHEMA_OFFSET as nat);
            match r {
                Ok(text) => served is Ok && json_document(served->Ok_0) is Some && text@ == (
                if pretty {
                    json_pretty(json_document(served->Ok_0)->0)
                } else {
                    json_compact(json_document(served->Ok_0)->0)
                }),
                Err(e) => e matches CliError::Message(message) && ((served is Ok
                    && json_document(served->Ok_0) is None) || failure_message(
                    message@,
                    "get_schema"@,
                    final(driver).memory_bytes(),
                    SCHEMA_OFFSET as nat,
                )),
            }
        }),
{
    let schema_json = match driver.get_schema_json() {
        Ok(text) => text,
        Err(e) => {
            let message = e.message();
            proof {
                assert(bridge_error_text(e) == message@);
            }
            return Err(CliError::Message(message));
        },
    };
    render_schema(schema_json.as_str(), pretty)
}

} // verus!
