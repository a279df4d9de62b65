//! The `call` command: the encoded input of a call, as hexadecimal text.

use crate::cli_error::CliError;
use crate::data_driver_wasm::{
    BridgeError, DataDriverWasm, MAX_ADDRESS, bridge_error_text, failure_message,
    framed_at, layout_end, layout_of,
};
use crate::text::{hex, hex_seq};
use vstd::prelude::*;
use vstd::string::StringSliceAdditionalSpecFns;

verus! {

/// The bytes in hexadecimal, with the prefix `0x`.
pub open spec fn hex_prefixed(bytes: Seq<u8>) -> Seq<char> {
    "0x"@ + hex_seq(bytes)
}

/// Writes bytes in lower-case hexadecimal with the prefix `0x`.
pub fn to_hex_prefixed(bytes: &Vec<u8>) -> (r: String)
    ensures
        r@ == hex_prefixed(bytes@),
{
    let mut out = String::from_str("0x");
    out.append(hex(bytes).as_str());
    out
}

/// Encodes the input of the function `function` through the data driver
/// and writes the encoded bytes as hexadecimal text. A failure of the
/// driver is reported with the driver's own text; an input that does not
/// fit the module's address space always fails.
pub fn run(driver: &mut DataDriverWasm, function: &str, input: &str) -> (r: Result<
    String,
    CliError,
>)
    requires
        old(driver).well_formed(),
    ensures
        final(driver).well_formed(),
        ({
            let out_offset = layout_of(
                function.spec_bytes().len(),
                input.spec_bytes().len(),
            ).out_offset as nat;
            match r {
                Ok(text) => layout_end(function.spec_bytes().len(), input.spec_bytes().len())
                    <= MAX_ADDRESS && framed_at(final(driver).memory_bytes(), out_offset) is Ok
                    && text@ == hex_prefixed(
                    framed_at(final(driver).memory_bytes(), out_offset)->Ok_0,
                ),
                Err(e) => e matches CliError::Message(message) && failure_message(
                    message@,
                    "encode_input_fn"@,
                    final(driver).memory_bytes(),
                    out_offset,
                ),
            }
        }),
        layout_end(function.spec_bytes().len(), input.spec_bytes().len()) > MAX_ADDRESS ==> (r
            matches Err(CliError::Message(message)) && message@ == bridge_error_text(
            BridgeError::TooLarge,
        )),
{
    match driver.encode_input(function, input) {
        Ok(encoded) => Ok(to_hex_prefixed(&encoded)),
        Err(e) => {
            let message = e.message();
            proof {
                assert(bridge_error_text(e) == message@);
            }
            Err(CliError::Message(message))
        },
    }
}

} // verus!
