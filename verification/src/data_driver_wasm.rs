//! The runtime bridge: a host-side driver of a compiled data-driver
//! module. It calls the module's exported functions through the module's
//! linear memory, with every buffer framed by a 4-byte little-endian
//! length prefix.

use crate::text::{append_decimal, decimal_seq, signed_decimal, signed_decimal_seq};
use crate::wasm::{
    call_pair, call_six, call_unit, config_memory_guard_size, config_memory_reservation,
    config_memory_reservation_for_growth, config_new, engine_new, error_description, error_text,
    growth_reservation_set, guard_size_set, instance_memory, instance_new, instance_store,
    linear_memory, memory_data, memory_data_size, memory_grow, memory_pages, memory_size,
    memory_store, memory_write, module_accepted, module_new, pair_func, reservation_set,
    six_func, store_id, store_new, text_from_utf8, unit_func, utf8_fault,
};
use vstd::prelude::*;
use vstd::string::{StrSliceExecFns, StringSliceAdditionalSpecFns};

verus! {

// ---------------------------------------------------------------------------
// Failures
// ---------------------------------------------------------------------------
/// Why a request to the bridge failed.
#[derive(Debug)]
pub enum BridgeError {
    /// The module is malformed, could not be instantiated, or trapped.
    Module { detail: String },
    /// The module lacks a required export.
    MissingExport { name: String },
    /// The module's memory could not be grown.
    Growth { detail: String },
    /// The input does not fit the module's 32-bit address space.
    TooLarge,
    /// A write would pass the end of the module's memory.
    WriteOutOfBounds { offset: usize, len: usize },
    /// The length prefix of an output buffer lies outside the memory.
    ReadOutOfBounds,
    /// The declared length of an output buffer passes the end of the memory.
    OutputExceedsMemory,
    /// An output that must be text is not valid UTF-8; `detail` is the
    /// decoder's description of the fault.
    InvalidUtf8 { detail: String },
    /// The entry point `entry` returned the non-zero status `code`.
    Status { entry: String, code: i32, detail: String },
}

/// The text of a failed status: the entry point, its status code and the
/// module's own description of the failure.
pub open spec fn status_text(entry: Seq<char>, code: int, detail: Seq<char>) -> Seq<char> {
    entry + " failed with code "@ + signed_decimal_seq(code) + ": "@ + detail
}

/// The text of an out-of-bounds write.
pub open spec fn write_fault_text(offset: nat, len: nat) -> Seq<char> {
    "WASM write out of bounds (offset="@ + decimal_seq(offset) + ", len="@ + decimal_seq(len)
        + ")"@
}

/// The text of a failure.
pub open spec fn bridge_error_text(e: BridgeError) -> Seq<char> {
    match e {
        BridgeError::Module { detail } => detail@,
        BridgeError::MissingExport { name } => "WASM export '"@ + name@ + "' not found"@,
        BridgeError::Growth { detail } => detail@,
        BridgeError::TooLarge => "WASM input does not fit the module's address space"@,
        BridgeError::WriteOutOfBounds { offset, len } => write_fault_text(
            offset as nat,
            len as nat,
        ),
        BridgeError::ReadOutOfBounds => "WASM output buffer out of bounds"@,
        BridgeError::OutputExceedsMemory => "WASM output exceeds memory bounds"@,
        BridgeError::InvalidUtf8 { detail } => "schema output is not valid UTF-8: "@ + detail@,
        BridgeError::Status { entry, code, detail } => status_text(entry@, code as int, detail@),
    }
}

impl BridgeError {
    /// The text of the failure.
    pub fn message(&self) -> (r: String)
        ensures
            r@ == bridge_error_text(*self),
    {
        match self {
            BridgeError::Module { detail } => detail.clone(),
            BridgeError::MissingExport { name } => {
                let mut out = String::from_str("WASM export '");
                out.append(name.as_str());
                out.append("' not found");
                out
            },
            BridgeError::Growth { detail } => detail.clone(),
            BridgeError::TooLarge => String::from_str(
                "WASM input does not fit the module's address space",
            ),
            BridgeError::WriteOutOfBounds { offset, len } => {
                let mut out = String::from_str("WASM write out of bounds (offset=");
                append_decimal(&mut out, *offset as u64);
                out.append(", len=");
                append_decimal(&mut out, *len as u64);
                out.append(")");
                out
            },
            BridgeError::ReadOutOfBounds => String::from_str("WASM output buffer out of bounds"),
            BridgeError::OutputExceedsMemory => String::from_str(
                "WASM output exceeds memory bounds",
            ),
            BridgeError::InvalidUtf8 { detail } => {
                let mut out = String::from_str("schema output is not valid UTF-8: ");
                out.append(detail.as_str());
                out
            },
            BridgeError::Status { entry, code, detail } => {
                let mut out = entry.clone();
                out.append(" failed with code ");
                out.append(signed_decimal(*code).as_str());
                out.append(": ");
                out.append(detail.as_str());
                out
            },
        }
    }
}

/// Builds the failure for a non-zero status of the entry point `entry`.
/// `detail` is the module's own description of the failure, where it could
/// be retrieved; "unknown error" stands in where it could not.
pub fn status_error(entry: &str, code: i32, detail: Option<String>) -> (e: BridgeError)
    ensures
        e matches BridgeError::Status { entry: named, code: status, detail: text } && named@
            == entry@ && status == code && text@ == (match detail {
            Some(d) => d@,
            None => "unknown error"@,
        }),
{
    let text = match detail {
        Some(d) => d,
        None => String::from_str("unknown error"),
    };
    BridgeError::Status { entry: String::from_str(entry), code, detail: text }
}

// ---------------------------------------------------------------------------
// Regions
// ---------------------------------------------------------------------------
/// The size of a page of linear memory in bytes.
pub const PAGE_SIZE: u64 = 65_536;

/// The largest offset that the calling convention can pass.
pub const MAX_ADDRESS: u64 = 0x7fff_ffff;

/// Where the schema is written.
pub const SCHEMA_OFFSET: usize = 65_536;

/// How much room the schema gets.
pub const SCHEMA_CAPACITY: usize = 262_144;

/// Where an error message is written.
pub const ERROR_OFFSET: usize = 16_384;

/// How much room an error message gets.
pub const ERROR_CAPACITY: usize = 8_192;

/// Where the name of the function to encode for is written.
pub const NAME_OFFSET: usize = 1_024;

/// The number of whole pages that hold `bytes` bytes.
pub open spec fn pages_for(bytes: nat) -> nat {
    (bytes + 65_535) / 65_536
}

/// The number of pages by which a memory of `current_pages` pages must
/// grow to hold `required_bytes` bytes: none where it is large enough.
pub open spec fn growth_for(current_pages: nat, required_bytes: nat) -> nat {
    if current_pages >= pages_for(required_bytes) {
        0
    } else {
        (pages_for(required_bytes) - current_pages) as nat
    }
}

/// `value` rounded up to the next multiple of `align`.
pub open spec fn aligned(value: nat, align: nat) -> nat {
    ((value + align - 1) / align as int * align) as nat
}

/// Computes the number of whole pages that hold `required_bytes` bytes.
pub fn required_pages(required_bytes: u64) -> (pages: u64)
    ensures
        pages == pages_for(required_bytes as nat),
{
    let whole = required_bytes / 65_536;
    if required_bytes % 65_536 == 0 {
        whole
    } else {
        whole + 1
    }
}

/// Computes the growth that a request for `required_bytes` bytes needs:
/// the minimal number of additional pages, and none where the memory is
/// already large enough.
pub fn pages_to_grow(current_pages: u64, required_bytes: u64) -> (delta: u64)
    ensures
        delta == growth_for(current_pages as nat, required_bytes as nat),
        current_pages + delta >= pages_for(required_bytes as nat),
        delta > 0 ==> current_pages + delta == pages_for(required_bytes as nat),
{
    let required = required_pages(required_bytes);
    if current_pages < required {
        required - current_pages
    } else {
        0
    }
}

/// Rounds `value` up to the next multiple of `align`.
pub fn align_up(value: usize, align: usize) -> (r: usize)
    requires
        align > 0,
        value + align - 1 <= usize::MAX,
    ensures
        r == aligned(value as nat, align as nat),
        value <= r < value + align,
        r % align == 0,
{
    proof {
        lemma_aligned(value as nat, align as nat);
    }
    ((value + (align - 1)) / align) * align
}

/// A value rounded up is a multiple of the alignment, not below the value
/// and less than one alignment above it.
pub proof fn lemma_aligned(value: nat, align: nat)
    requires
        align > 0,
    ensures
        value <= aligned(value, align) < value + align,
        aligned(value, align) % align == 0,
        aligned(value, align) == (value + align - 1) / align as int * align,
{
    let q = (value + align - 1) / align as int;
    let r = (value + align - 1) % align as int;
    assert(value + align - 1 == q * align + r && 0 <= r < align) by (nonlinear_arith)
        requires
            q == (value + align - 1) / align as int,
            r == (value + align - 1) % align as int,
            align > 0,
    ;
    assert(q >= 0) by (nonlinear_arith)
        requires
            q == (value + align - 1) / align as int,
            value + align - 1 >= 0,
            align > 0,
    ;
    assert(q * align >= 0) by (nonlinear_arith)
        requires
            q >= 0,
            align > 0,
    ;
    assert((q * align) % (align as int) == 0) by (nonlinear_arith)
        requires
            align > 0,
    ;
}

/// Where the regions of a request to encode lie.
#[derive(Clone, Copy, Debug, PartialEq, Eq, Structural)]
pub struct InputLayout {
    /// Where the function's name is written.
    pub name_offset: usize,
    /// Where the JSON payload is written.
    pub json_offset: usize,
    /// Where the module writes its output.
    pub out_offset: usize,
    /// How much room the output gets.
    pub out_size: usize,
}

/// The regions of a request to encode for a name of `name_len` bytes with
/// a payload of `json_len` bytes: the name at a fixed offset, the payload
/// and the output each aligned to 8 bytes and 16 bytes beyond the end of
/// the region before; the output gets twice the room of the payload and at
/// least 4096 bytes.
pub open spec fn layout_of(name_len: nat, json_len: nat) -> InputLayout {
    let json_offset = aligned(1_024 + name_len + 16, 8);
    let out_offset = aligned(json_offset + json_len + 16, 8);
    InputLayout {
        name_offset: 1_024,
        json_offset: json_offset as usize,
        out_offset: out_offset as usize,
        out_size: (if json_len * 2 > 4_096 {
            json_len * 2
        } else {
            4_096
        }) as usize,
    }
}

/// The end of the last region of a request, as a number.
pub open spec fn layout_end(name_len: nat, json_len: nat) -> nat {
    aligned(aligned(1_024 + name_len + 16, 8) + json_len + 16, 8) + (if json_len * 2 > 4_096 {
        json_len * 2
    } else {
        4_096
    })
}

/// Lays out the regions of a request to encode. There is a layout exactly
/// if all regions end within the address space of the calling convention.
pub fn input_layout(name_len: usize, json_len: usize) -> (r: Option<InputLayout>)
    ensures
        match r {
            Some(layout) => layout_end(name_len as nat, json_len as nat) <= MAX_ADDRESS && layout
                == layout_of(name_len as nat, json_len as nat) && layout.name_offset + name_len
                <= layout.json_offset && layout.json_offset + json_len <= layout.out_offset
                && layout.out_offset + layout.out_size == layout_end(
                name_len as nat,
                json_len as nat,
            ),
            None => layout_end(name_len as nat, json_len as nat) > MAX_ADDRESS,
        },
{
    proof {
        lemma_aligned((1_024 + name_len + 16) as nat, 8);
        lemma_aligned(
            (aligned((1_024 + name_len + 16) as nat, 8) + json_len + 16) as nat,
            8,
        );
    }
    if name_len > 0x7fff_ffff || json_len > 0x7fff_ffff {
        return None;
    }
    let name_end: u64 = 1_024 + name_len as u64 + 16;
    let json_offset: u64 = (name_end + 7) / 8 * 8;
    let json_end: u64 = json_offset + json_len as u64 + 16;
    let out_offset: u64 = (json_end + 7) / 8 * 8;
    let doubled: u64 = json_len as u64 * 2;
    let out_size: u64 = if doubled > 4_096 {
        doubled
    } else {
        4_096
    };
    if out_offset + out_size > MAX_ADDRESS {
        return None;
    }
    let json_offset = json_offset as usize;
    let out_offset = out_offset as usize;
    let out_size = out_size as usize;
    Some(InputLayout { name_offset: 1_024, json_offset, out_offset, out_size })
}

// ---------------------------------------------------------------------------
// Length-prefixed buffers
// ---------------------------------------------------------------------------
/// The little-endian number in the four bytes at `offset`.
pub open spec fn le_u32(data: Seq<u8>, offset: int) -> nat {
    (data[offset] + data[offset + 1] * 256 + data[offset + 2] * 65_536 + data[offset + 3]
        * 16_777_216) as nat
}

/// The four little-endian bytes of `n`.
pub open spec fn le_bytes(n: nat) -> Seq<u8> {
    seq![
        (n % 256) as u8,
        (n / 256 % 256) as u8,
        (n / 65_536 % 256) as u8,
        (n / 16_777_216 % 256) as u8,
    ]
}

/// Why no text can be read from a length-prefixed buffer.
#[derive(Clone, Copy, Debug, PartialEq, Eq, Structural)]
pub enum TextFault {
    /// The four bytes of the prefix pass the end of the data.
    Prefix,
    /// The declared length passes the end of the data.
    Payload,
    /// The payload is not valid UTF-8.
    Encoding,
}

/// Why a length-prefixed buffer cannot be read.
#[derive(Clone, Copy, Debug, PartialEq, Eq, Structural)]
pub enum ReadFault {
    /// The four bytes of the prefix pass the end of the data.
    Prefix,
    /// The declared length passes the end of the data.
    Payload,
}

/// The payload of the length-prefixed buffer at `offset`: the bytes that
/// follow the prefix, as many as the prefix declares and never more.
pub open spec fn framed_at(data: Seq<u8>, offset: nat) -> Result<Seq<u8>, ReadFault> {
    if offset + 4 > data.len() {
        Err(ReadFault::Prefix)
    } else if offset + 4 + le_u32(data, offset as int) > data.len() {
        Err(ReadFault::Payload)
    } else {
        Ok(data.subrange(offset as int + 4, offset as int + 4 + le_u32(data, offset as int)))
    }
}

/// A payload with its length prefix.
pub open spec fn prefixed_seq(payload: Seq<u8>) -> Seq<u8> {
    le_bytes(payload.len()) + payload
}

/// The model of a read result.
pub open spec fn read_result(r: Result<Vec<u8>, BridgeError>) -> Result<Seq<u8>, ReadFault> {
    match r {
        Ok(bytes) => Ok(bytes@),
        Err(BridgeError::OutputExceedsMemory) => Err(ReadFault::Payload),
        Err(_) => Err(ReadFault::Prefix),
    }
}

/// Reads the length-prefixed buffer at `offset` of `data`.
pub fn read_prefixed(data: &Vec<u8>, offset: usize) -> (r: Result<Vec<u8>, BridgeError>)
    ensures
        read_result(r) == framed_at(data@, offset as nat),
        r matches Err(e) ==> e is ReadOutOfBounds || e is OutputExceedsMemory,
{
    if offset > data.len() || data.len() - offset < 4 {
        return Err(BridgeError::ReadOutOfBounds);
    }
    let b0 = data[offset] as u64;
    let b1 = data[offset + 1] as u64;
    let b2 = data[offset + 2] as u64;
    let b3 = data[offset + 3] as u64;
    let len: u64 = b0 + b1 * 256 + b2 * 65_536 + b3 * 16_777_216;
    let start = offset + 4;
    if len > (data.len() - start) as u64 {
        return Err(BridgeError::OutputExceedsMemory);
    }
    let end = start + len as usize;
    let mut out: Vec<u8> = Vec::new();
    let mut i: usize = start;
    while i < end
        invariant
            start <= i <= end <= data.len(),
            out@ == data@.subrange(start as int, i as int),
        decreases end - i,
    {
        out.push(data[i]);
        proof {
            assert(data@.subrange(start as int, i + 1) =~= data@.subrange(
                start as int,
                i as int,
            ).push(data@[i as int]));
        }
        i = i + 1;
    }
    Ok(out)
}

/// Frames a payload: its length as four little-endian bytes, then the
/// payload itself.
pub fn prefixed(payload: &Vec<u8>) -> (r: Vec<u8>)
    requires
        payload@.len() <= u32::MAX,
    ensures
        r@ == prefixed_seq(payload@),
{
    let n = payload.len() as u64;
    let mut out: Vec<u8> = Vec::new();
    out.push((n % 256) as u8);
    out.push((n / 256 % 256) as u8);
    out.push((n / 65_536 % 256) as u8);
    out.push((n / 16_777_216 % 256) as u8);
    proof {
        assert(out@ =~= le_bytes(payload@.len()));
    }
    let mut i: usize = 0;
    while i < payload.len()
        invariant
            i <= payload.len(),
            out@ == le_bytes(payload@.len()) + payload@.subrange(0, i as int),
        decreases payload.len() - i,
    {
        out.push(payload[i]);
        proof {
            assert(payload@.subrange(0, i + 1) =~= payload@.subrange(0, i as int).push(
                payload@[i as int],
            ));
            assert((le_bytes(payload@.len()) + payload@.subrange(0, i as int)).push(
                payload@[i as int],
            ) =~= le_bytes(payload@.len()) + payload@.subrange(0, i + 1));
        }
        i = i + 1;
    }
    proof {
        assert(payload@.subrange(0, payload@.len() as int) =~= payload@);
    }
    out
}

/// The text in the length-prefixed buffer at `offset`: the payload as
/// UTF-8, or why there is none.
pub open spec fn framed_text(data: Seq<u8>, offset: nat) -> Result<Seq<char>, TextFault> {
    match framed_at(data, offset) {
        Err(ReadFault::Prefix) => Err(TextFault::Prefix),
        Err(ReadFault::Payload) => Err(TextFault::Payload),
        Ok(payload) => if vstd::utf8::valid_utf8(payload) {
            Ok(vstd::utf8::decode_utf8(payload))
        } else {
            Err(TextFault::Encoding)
        },
    }
}

/// The fault that a failure to read a text stands for.
pub open spec fn text_fault(e: BridgeError) -> TextFault {
    match e {
        BridgeError::OutputExceedsMemory => TextFault::Payload,
        BridgeError::InvalidUtf8 { .. } => TextFault::Encoding,
        _ => TextFault::Prefix,
    }
}

/// The model of the result of reading a text.
pub open spec fn text_result(r: Result<String, BridgeError>) -> Result<Seq<char>, TextFault> {
    match r {
        Ok(text) => Ok(text@),
        Err(e) => Err(text_fault(e)),
    }
}

/// Reads the text in the length-prefixed buffer at `offset` of `data`: the
/// declared bytes, which must be valid UTF-8.
pub fn text_at(data: &Vec<u8>, offset: usize) -> (r: Result<String, BridgeError>)
    ensures
        text_result(r) == framed_text(data@, offset as nat),
        r matches Err(e) ==> e is ReadOutOfBounds || e is OutputExceedsMemory || e is InvalidUtf8,
        r matches Err(BridgeError::InvalidUtf8 { detail }) ==> detail@ == utf8_fault(
            framed_at(data@, offset as nat)->Ok_0,
        ),
{
    let bytes = match read_prefixed(data, offset) {
        Ok(bytes) => bytes,
        Err(e) => {
            return Err(e);
        },
    };
    match text_from_utf8(bytes) {
        Ok(text) => Ok(text),
        Err(detail) => Err(BridgeError::InvalidUtf8 { detail }),
    }
}

/// The growth log after a request that needs `required` bytes of memory:
/// one more call, with the minimal number of pages, where the memory of
/// `pages` pages is too small, and no call where it is not.
pub open spec fn log_after(log: Seq<u64>, pages: nat, required: nat) -> Seq<u64> {
    if growth_for(pages, required) > 0 {
        log.push(growth_for(pages, required) as u64)
    } else {
        log
    }
}

/// `log` is `base`, or `base` and one more growth call.
pub open spec fn at_most_one_more(log: Seq<u64>, base: Seq<u64>) -> bool {
    log == base || (log.len() == base.len() + 1 && log.drop_last() == base)
}

/// What the failure `e` of a request says of the memory that the request
/// leaves. `entry` is the entry point that the request calls and
/// `out_offset` the start of its output region. A read failure is the
/// fault of the buffer in the output region. The detail of a non-zero
/// status is the text in the error region, or "unknown error".
pub open spec fn failure_holds(e: BridgeError, entry: Seq<char>, memory: Seq<u8>, out_offset: nat)
    -> bool {
    match e {
        BridgeError::ReadOutOfBounds => framed_at(memory, out_offset) == Err::<
            Seq<u8>,
            ReadFault,
        >(ReadFault::Prefix),
        BridgeError::OutputExceedsMemory => framed_at(memory, out_offset) == Err::<
            Seq<u8>,
            ReadFault,
        >(ReadFault::Payload),
        BridgeError::InvalidUtf8 { detail } => framed_text(memory, out_offset) == Err::<
            Seq<char>,
            TextFault,
        >(TextFault::Encoding) && detail@ == utf8_fault(framed_at(memory, out_offset)->Ok_0),
        BridgeError::Status { entry: named, code, detail } => named@ == entry && code != 0 && (
        detail@ == "unknown error"@ || framed_text(memory, ERROR_OFFSET as nat) == Ok::<
            Seq<char>,
            TextFault,
        >(detail@)),
        BridgeError::MissingExport { name } => name@ == entry,
        _ => true,
    }
}

/// `message` is the text of a failure of a request that holds of the
/// memory that the request leaves; see [`failure_holds`].
pub open spec fn failure_message(
    message: Seq<char>,
    entry: Seq<char>,
    memory: Seq<u8>,
    out_offset: nat,
) -> bool {
    exists|e: BridgeError| #[trigger]
        bridge_error_text(e) == message && failure_holds(e, entry, memory, out_offset)
}

/// Buffer round trip: a framed payload, wherever it lies in a memory, is
/// read back as the payload itself, however much room follows it.
pub proof fn lemma_framing_round_trip(before: Seq<u8>, payload: Seq<u8>, after: Seq<u8>)
    requires
        payload.len() <= u32::MAX,
    ensures
        framed_at(before + prefixed_seq(payload) + after, before.len()) == Ok::<
            Seq<u8>,
            ReadFault,
        >(payload),
{
    let data = before + prefixed_seq(payload) + after;
    let at = before.len() as int;
    let n = payload.len();
    let prefix = le_bytes(n);
    assert(prefix.len() == 4);
    assert(data[at] == prefix[0]);
    assert(data[at + 1] == prefix[1]);
    assert(data[at + 2] == prefix[2]);
    assert(data[at + 3] == prefix[3]);
    assert(le_u32(data, at) == n) by {
        assert((n % 256) + (n / 256 % 256) * 256 + (n / 65_536 % 256) * 65_536 + (n / 16_777_216
            % 256) * 16_777_216 == n) by (nonlinear_arith)
            requires
                n <= 0xffff_ffff,
        ;
    }
    assert(data.subrange(at + 4, at + 4 + n) =~= payload);
}

/// A served text is read back: where a memory holds, at some offset, a
/// payload of valid UTF-8 behind its length prefix, the text read at that
/// offset is the payload's text, exactly and whatever follows it.
pub proof fn lemma_served_text_is_read_back(before: Seq<u8>, payload: Seq<u8>, after: Seq<u8>)
    requires
        payload.len() <= u32::MAX,
        vstd::utf8::valid_utf8(payload),
    ensures
        framed_text(before + prefixed_seq(payload) + after, before.len()) == Ok::<
            Seq<char>,
            TextFault,
        >(vstd::utf8::decode_utf8(payload)),
{
    lemma_framing_round_trip(before, payload, after);
}

// ---------------------------------------------------------------------------
// The bridge
// ---------------------------------------------------------------------------
/// Where a bridge is in its life.
#[derive(Clone, Copy, Debug, PartialEq, Eq, Structural)]
pub enum BridgeState {
    /// No module is loaded.
    Unloaded,
    /// The module is parsed and instantiated.
    Loaded,
    /// The module is initialized and serves requests.
    Ready,
    /// The bridge is given up.
    Disposed,
}

/// What happens to a bridge.
#[derive(Clone, Copy, Debug, PartialEq, Eq, Structural)]
pub enum BridgeEvent {
    /// The module was instantiated.
    Instantiated,
    /// The module's initialization entry point returned.
    Initialized,
    /// A request was served.
    Request,
    /// The bridge was dropped.
    Dropped,
}

/// The state after `event`, or nothing where the event cannot happen in
/// `state`. Loading leads from unloaded over loaded to ready; a request
/// leaves a ready bridge ready; nothing leads back.
pub open spec fn next_state(state: BridgeState, event: BridgeEvent) -> Option<BridgeState> {
    match (state, event) {
        (BridgeState::Unloaded, BridgeEvent::Instantiated) => Some(BridgeState::Loaded),
        (BridgeState::Loaded, BridgeEvent::Initialized) => Some(BridgeState::Ready),
        (BridgeState::Ready, BridgeEvent::Request) => Some(BridgeState::Ready),
        (BridgeState::Disposed, _) => None,
        (_, BridgeEvent::Dropped) => Some(BridgeState::Disposed),
        _ => None,
    }
}

impl BridgeState {
    /// Follows one transition of the bridge's life.
    pub fn after(self, event: BridgeEvent) -> (r: Option<BridgeState>)
        ensures
            r == next_state(self, event),
    {
        match (self, event) {
            (BridgeState::Unloaded, BridgeEvent::Instantiated) => Some(BridgeState::Loaded),
            (BridgeState::Loaded, BridgeEvent::Initialized) => Some(BridgeState::Ready),
            (BridgeState::Ready, BridgeEvent::Request) => Some(BridgeState::Ready),
            (BridgeState::Disposed, _) => None,
            (_, BridgeEvent::Dropped) => Some(BridgeState::Disposed),
            _ => None,
        }
    }
}

/// Turns the outcome of a call into the engine into a result of the
/// bridge: what the call returned where it succeeded, and a failure of the
/// module that carries the engine's description where it did not.
pub fn module_outcome<T>(outcome: Result<T, wasmtime::Error>) -> (r: Result<T, BridgeError>)
    ensures
        match outcome {
            Ok(value) => r == Ok::<T, BridgeError>(value),
            Err(error) => r matches Err(BridgeError::Module { detail }) && detail@
                == error_description(error),
        },
{
    match outcome {
        Ok(value) => Ok(value),
        Err(e) => Err(BridgeError::Module { detail: error_text(&e) }),
    }
}

/// The configuration of the bridge's engine. A memory is allocated as it
/// grows: no address space is reserved for it, neither when it is created
/// nor when it has moved, and it has no guard region, so that a module
/// loads even where address space is scarce.
pub fn engine_config() -> (config: wasmtime::Config)
    ensures
        reservation_set(config) == Some(0u64),
        guard_size_set(config) == Some(0u64),
        growth_reservation_set(config) == Some(0u64),
{
    let mut config = config_new();
    config_memory_reservation(&mut config, 0);
    config_memory_guard_size(&mut config, 0);
    config_memory_reservation_for_growth(&mut config, 0);
    config
}

/// Sets up the engine, with the configuration of [`engine_config`].
fn engine() -> (r: Result<wasmtime::Engine, BridgeError>)
    ensures
        r matches Err(e) ==> e is Module,
{
    let config = engine_config();
    module_outcome(engine_new(&config))
}

/// A loaded data-driver module, ready to serve requests.
pub struct DataDriverWasm {
    store: wasmtime::Store<()>,
    instance: wasmtime::Instance,
    memory: wasmtime::Memory,
    state: BridgeState,
    growths: Vec<u64>,
}

impl DataDriverWasm {
    /// The instance and its memory belong to the store, and the module is
    /// initialized. `load` establishes this and every request keeps it.
    pub closed spec fn well_formed(self) -> bool {
        &&& instance_store(self.instance) == store_id(self.store)
        &&& memory_store(self.memory) == store_id(self.store)
        &&& self.state == BridgeState::Ready
    }

    /// The bytes of the module's linear memory.
    pub closed spec fn memory_bytes(self) -> Seq<u8> {
        linear_memory(self.store, self.memory)
    }

    /// The size of the module's linear memory in pages.
    pub closed spec fn pages(self) -> nat {
        memory_pages(self.store, self.memory)
    }

    /// The growth calls made so far, each with its number of pages.
    pub closed spec fn growth_log(self) -> Seq<u64> {
        self.growths@
    }

    /// The state of the bridge.
    pub closed spec fn bridge_state(self) -> BridgeState {
        self.state
    }

    /// The identity of the engine's store that the bridge owns.
    pub closed spec fn store_identity(self) -> int {
        store_id(self.store)
    }

    /// Loads a module on the engine `engine`: compiles and instantiates
    /// it, finds its exported memory `memory` and calls its initialization
    /// entry point `init` once. A binary that the engine does not accept
    /// fails as a malformed module; a module without one of the two
    /// exports fails with the export's name.
    pub fn load_on(engine: &wasmtime::Engine, wasm: &Vec<u8>) -> (r: Result<
        DataDriverWasm,
        BridgeError,
    >)
        ensures
            match r {
                Ok(driver) => driver.well_formed() && driver.bridge_state() == BridgeState::Ready
                    && driver.growth_log() == Seq::<u64>::empty() && module_accepted(
                    *engine,
                    wasm@,
                ),
                Err(e) => e is Module || (e matches BridgeError::MissingExport { name } && (name@
                    == "memory"@ || name@ == "init"@)),
            },
            !module_accepted(*engine, wasm@) ==> r matches Err(BridgeError::Module { .. }),
    {
        let module = match module_outcome(module_new(engine, wasm)) {
            Ok(module) => module,
            Err(e) => {
                return Err(e);
            },
        };
        let mut store = store_new(engine);
        let state = BridgeState::Unloaded;
        let instance = match instance_new(&mut store, &module) {
            Ok(instance) => instance,
            Err(e) => {
                return Err(BridgeError::Module { detail: error_text(&e) });
            },
        };
        let state = match state.after(BridgeEvent::Instantiated) {
            Some(state) => state,
            None => state,
        };
        let memory = match instance_memory(&instance, &mut store, "memory") {
            Some(memory) => memory,
            None => {
                return Err(BridgeError::MissingExport { name: String::from_str("memory") });
            },
        };
        let init = match unit_func(&instance, &mut store, "init") {
            Ok(init) => init,
            Err(_) => {
                return Err(BridgeError::MissingExport { name: String::from_str("init") });
            },
        };
        match call_unit(&init, &mut store) {
            Ok(()) => {},
            Err(e) => {
                return Err(BridgeError::Module { detail: error_text(&e) });
            },
        }
        let state = match state.after(BridgeEvent::Initialized) {
            Some(state) => state,
            None => state,
        };
        Ok(DataDriverWasm { store, instance, memory, state, growths: Vec::new() })
    }

    /// Loads a module on an engine of the bridge's own: compiles and
    /// instantiates it, finds its exported memory `memory` and calls its
    /// initialization entry point `init` once.
    pub fn load(wasm: &Vec<u8>) -> (r: Result<DataDriverWasm, BridgeError>)
        ensures
            match r {
                Ok(driver) => driver.well_formed() && driver.bridge_state() == BridgeState::Ready
                    && driver.growth_log() == Seq::<u64>::empty(),
                Err(e) => e is Module || (e matches BridgeError::MissingExport { name } && (name@
                    == "memory"@ || name@ == "init"@)),
            },
            r is Ok ==> exists|engine: wasmtime::Engine| #[trigger] module_accepted(engine, wasm@),
    {
        let engine = match engine() {
            Ok(engine) => engine,
            Err(e) => {
                return Err(e);
            },
        };
        DataDriverWasm::load_on(&engine, wasm)
    }

    /// Checks on the engine `engine` that `wasm` is a structurally valid
    /// module, without instantiating or initializing it: it is one where
    /// the engine accepts it, and only then.
    pub fn validate_module_on(engine: &wasmtime::Engine, wasm: &Vec<u8>) -> (r: Result<
        (),
        BridgeError,
    >)
        ensures
            r is Ok <==> module_accepted(*engine, wasm@),
            r matches Err(e) ==> e is Module,
    {
        match module_outcome(module_new(engine, wasm)) {
            Ok(_) => Ok(()),
            Err(e) => Err(e),
        }
    }

    /// Checks that `wasm` is a structurally valid module, on an engine of
    /// the bridge's own and without instantiating or initializing it.
    pub fn validate_module(wasm: &Vec<u8>) -> (r: Result<(), BridgeError>)
        ensures
            r matches Err(e) ==> e is Module,
            r is Ok ==> exists|engine: wasmtime::Engine| #[trigger] module_accepted(engine, wasm@),
    {
        let engine = match engine() {
            Ok(engine) => engine,
            Err(e) => {
                return Err(e);
            },
        };
        DataDriverWasm::validate_module_on(&engine, wasm)
    }

    /// The size of the module's memory in pages.
    pub fn page_count(&self) -> (pages: u64)
        requires
            self.well_formed(),
        ensures
            pages == self.pages(),
    {
        memory_size(&self.memory, &self.store)
    }

    /// The growth calls made so far, each with its number of pages.
    pub fn growth_calls(&self) -> (log: &Vec<u64>)
        ensures
            log@ == self.growth_log(),
    {
        &self.growths
    }

    /// Makes sure that the memory holds `required_bytes` bytes, growing it
    /// by the minimal number of pages where it does not. A memory that is
    /// large enough is left alone; the memory never shrinks.
    pub fn ensure_memory_capacity(&mut self, required_bytes: u64) -> (r: Result<(), BridgeError>)
        requires
            old(self).well_formed(),
        ensures
            final(self).well_formed(),
            final(self).store_identity() == old(self).store_identity(),
            final(self).bridge_state() == old(self).bridge_state(),
            final(self).growth_log() == (if growth_for(old(self).pages(), required_bytes as nat)
                > 0 {
                old(self).growth_log().push(
                    growth_for(old(self).pages(), required_bytes as nat) as u64,
                )
            } else {
                old(self).growth_log()
            }),
            match r {
                Ok(()) => final(self).pages() == old(self).pages() + growth_for(
                    old(self).pages(),
                    required_bytes as nat,
                ) && final(self).pages() >= pages_for(required_bytes as nat),
                Err(e) => e is Growth && final(self).pages() == old(self).pages() && growth_for(
                    old(self).pages(),
                    required_bytes as nat,
                ) > 0,
            },
            growth_for(old(self).pages(), required_bytes as nat) == 0 ==> r is Ok
                && final(self).memory_bytes() == old(self).memory_bytes(),
    {
        let current_pages = memory_size(&self.memory, &self.store);
        let delta = pages_to_grow(current_pages, required_bytes);
        if delta > 0 {
            self.growths.push(delta);
            match memory_grow(&self.memory, &mut self.store, delta) {
                Ok(_) => {},
                Err(e) => {
                    return Err(BridgeError::Growth { detail: error_text(&e) });
                },
            }
        }
        Ok(())
    }

    /// Writes `data` into the memory at `offset`. A write that would pass
    /// the end of the memory is refused and changes nothing.
    pub fn write_bytes(&mut self, offset: usize, data: &Vec<u8>) -> (r: Result<(), BridgeError>)
        requires
            old(self).well_formed(),
        ensures
            final(self).well_formed(),
            final(self).store_identity() == old(self).store_identity(),
            final(self).bridge_state() == old(self).bridge_state(),
            final(self).growth_log() == old(self).growth_log(),
            final(self).pages() == old(self).pages(),
            match r {
                Ok(()) => offset + data@.len() <= old(self).memory_bytes().len() && final(self).memory_bytes() == old(self).memory_bytes().subrange(0, offset as int) + data@
                    + old(self).memory_bytes().subrange(
                    offset + data@.len(),
                    old(self).memory_bytes().len() as int,
                ),
                Err(e) => offset + data@.len() > old(self).memory_bytes().len() && e
                    == (BridgeError::WriteOutOfBounds { offset, len: data.len() }) && final(self).memory_bytes() == old(self).memory_bytes(),
            },
    {
        let size = memory_data_size(&self.memory, &self.store);
        if offset > size || data.len() > size - offset {
            return Err(BridgeError::WriteOutOfBounds { offset, len: data.len() });
        }
        if memory_write(&self.memory, &mut self.store, offset, data) {
            Ok(())
        } else {
            Err(BridgeError::WriteOutOfBounds { offset, len: data.len() })
        }
    }

    /// Reads the length-prefixed buffer at `offset` of the memory: the
    /// bytes that the prefix declares, and never more.
    pub fn read_prefixed_bytes(&self, offset: usize) -> (r: Result<Vec<u8>, BridgeError>)
        requires
            self.well_formed(),
        ensures
            read_result(r) == framed_at(self.memory_bytes(), offset as nat),
            r matches Err(e) ==> e is ReadOutOfBounds || e is OutputExceedsMemory,
    {
        let data = memory_data(&self.memory, &self.store);
        read_prefixed(&data, offset)
    }

    /// Asks the module for a description of its most recent failure.
    /// Nothing is returned where the module has no such entry point, the
    /// memory cannot be grown, the call fails or returns a non-zero
    /// status, or the message is not a valid length-prefixed text.
    fn read_last_error(&mut self) -> (r: Option<String>)
        requires
            old(self).well_formed(),
        ensures
            final(self).well_formed(),
            final(self).bridge_state() == old(self).bridge_state(),
            final(self).store_identity() == old(self).store_identity(),
            final(self).growth_log() == old(self).growth_log() || (final(self).growth_log().len()
                == old(self).growth_log().len() + 1 && final(self).growth_log().drop_last()
                == old(self).growth_log()),
            r matches Some(text) ==> framed_text(
                final(self).memory_bytes(),
                ERROR_OFFSET as nat,
            ) == Ok::<Seq<char>, TextFault>(text@),
    {
        let get_last_error = match pair_func(&self.instance, &mut self.store, "get_last_error") {
            Ok(f) => f,
            Err(_) => {
                return None;
            },
        };
        match self.ensure_memory_capacity((ERROR_OFFSET + ERROR_CAPACITY) as u64) {
            Ok(()) => {},
            Err(_) => {
                return None;
            },
        }
        let code = match call_pair(
            &get_last_error,
            &mut self.store,
            ERROR_OFFSET as i32,
            ERROR_CAPACITY as i32,
        ) {
            Ok(code) => code,
            Err(_) => {
                return None;
            },
        };
        if code != 0 {
            return None;
        }
        let data = memory_data(&self.memory, &self.store);
        match text_at(&data, ERROR_OFFSET) {
            Ok(text) => Some(text),
            Err(_) => None,
        }
    }

    /// Reads the text in the length-prefixed buffer at `offset` of the
    /// memory: the bytes that the prefix declares, which must be valid
    /// UTF-8.
    pub fn read_prefixed_text(&self, offset: usize) -> (r: Result<String, BridgeError>)
        requires
            self.well_formed(),
        ensures
            text_result(r) == framed_text(self.memory_bytes(), offset as nat),
            r matches Err(e) ==> (e is ReadOutOfBounds || e is OutputExceedsMemory || e
                is InvalidUtf8) && failure_holds(e, Seq::empty(), self.memory_bytes(), offset as nat),
    {
        let data = memory_data(&self.memory, &self.store);
        text_at(&data, offset)
    }

    /// The failure for the non-zero status `code` of the entry point
    /// `entry`, with the module's own description of the failure where it
    /// can be retrieved, and "unknown error" where it cannot.
    fn status_failure(&mut self, entry: &str, code: i32) -> (e: BridgeError)
        requires
            old(self).well_formed(),
            code != 0,
        ensures
            final(self).well_formed(),
            final(self).bridge_state() == old(self).bridge_state(),
            final(self).store_identity() == old(self).store_identity(),
            at_most_one_more(final(self).growth_log(), old(self).growth_log()),
            e matches BridgeError::Status { entry: named, code: status, detail } && named@
                == entry@ && status == code && (detail@ == "unknown error"@ || framed_text(
                final(self).memory_bytes(),
                ERROR_OFFSET as nat,
            ) == Ok::<Seq<char>, TextFault>(detail@)),
    {
        let detail = self.read_last_error();
        status_error(entry, code, detail)
    }

    /// What a schema fetch returns once the schema entry point has
    /// returned the status `code`. The status 0 yields the text in the
    /// length-prefixed buffer of the schema region, exactly, and leaves
    /// the memory alone. Any other status fails with that status and the
    /// module's own description of the failure.
    pub fn schema_reply(&mut self, code: i32) -> (r: Result<String, BridgeError>)
        requires
            old(self).well_formed(),
        ensures
            final(self).well_formed(),
            final(self).bridge_state() == old(self).bridge_state(),
            final(self).store_identity() == old(self).store_identity(),
            code == 0 ==> final(self).memory_bytes() == old(self).memory_bytes(),
            code == 0 ==> final(self).growth_log() == old(self).growth_log(),
            code == 0 ==> text_result(r) == framed_text(
                old(self).memory_bytes(),
                SCHEMA_OFFSET as nat,
            ),
            code == 0 ==> (r matches Err(e) ==> e is ReadOutOfBounds || e is OutputExceedsMemory
                || e is InvalidUtf8),
            code != 0 ==> (r matches Err(BridgeError::Status { code: status, .. }) && status
                == code) && at_most_one_more(final(self).growth_log(), old(self).growth_log()),
            r matches Err(e) ==> failure_holds(
                e,
                "get_schema"@,
                final(self).memory_bytes(),
                SCHEMA_OFFSET as nat,
            ),
    {
        if code != 0 {
            return Err(self.status_failure("get_schema", code));
        }
        self.read_prefixed_text(SCHEMA_OFFSET)
    }

    /// What an encode request returns once the encode entry point has
    /// returned the status `code`. The status 0 yields the bytes in the
    /// length-prefixed buffer at `out_offset`, exactly, and leaves the
    /// memory alone. Any other status fails with that status and the
    /// module's own description of the failure.
    pub fn encode_reply(&mut self, code: i32, out_offset: usize) -> (r: Result<
        Vec<u8>,
        BridgeError,
    >)
        requires
            old(self).well_formed(),
        ensures
            final(self).well_formed(),
            final(self).bridge_state() == old(self).bridge_state(),
            final(self).store_identity() == old(self).store_identity(),
            code == 0 ==> final(self).memory_bytes() == old(self).memory_bytes(),
            code == 0 ==> final(self).growth_log() == old(self).growth_log(),
            code == 0 ==> read_result(r) == framed_at(old(self).memory_bytes(), out_offset as nat),
            code == 0 ==> (r matches Err(e) ==> e is ReadOutOfBounds || e is OutputExceedsMemory),
            code != 0 ==> (r matches Err(BridgeError::Status { code: status, .. }) && status
                == code) && at_most_one_more(final(self).growth_log(), old(self).growth_log()),
            r matches Err(e) ==> failure_holds(
                e,
                "encode_input_fn"@,
                final(self).memory_bytes(),
                out_offset as nat,
            ),
    {
        if code != 0 {
            return Err(self.status_failure("encode_input_fn", code));
        }
        self.read_prefixed_bytes(out_offset)
    }

    /// Fetches the schema of the contract as JSON text: makes sure that
    /// the output region fits the memory, calls the module's schema entry
    /// point and reads the length-prefixed text that it wrote. A non-zero
    /// status fails with the module's own description of the failure.
    ///
    /// The memory is grown before the call, by one growth call of the
    /// minimal number of pages, where the output region does not fit, and
    /// not at all where it does. Only the retrieval of a failure's
    /// description can add a second call.
    pub fn get_schema_json(&mut self) -> (r: Result<String, BridgeError>)
        requires
            old(self).well_formed(),
        ensures
            final(self).well_formed(),
            final(self).bridge_state() == old(self).bridge_state(),
            final(self).store_identity() == old(self).store_identity(),
            match r {
                Ok(text) => framed_text(final(self).memory_bytes(), SCHEMA_OFFSET as nat) == Ok::<
                    Seq<char>,
                    TextFault,
                >(text@),
                Err(e) => !(e is TooLarge) && !(e is WriteOutOfBounds) && failure_holds(
                    e,
                    "get_schema"@,
                    final(self).memory_bytes(),
                    SCHEMA_OFFSET as nat,
                ),
            },
            r matches Err(BridgeError::Growth { .. }) ==> growth_for(
                old(self).pages(),
                (SCHEMA_OFFSET + SCHEMA_CAPACITY) as nat,
            ) > 0,
            !(r matches Err(BridgeError::Status { .. })) ==> final(self).growth_log() == log_after(
                old(self).growth_log(),
                old(self).pages(),
                (SCHEMA_OFFSET + SCHEMA_CAPACITY) as nat,
            ),
            r matches Err(BridgeError::Status { .. }) ==> at_most_one_more(
                final(self).growth_log(),
                log_after(
                    old(self).growth_log(),
                    old(self).pages(),
                    (SCHEMA_OFFSET + SCHEMA_CAPACITY) as nat,
                ),
            ),
    {
        match self.ensure_memory_capacity((SCHEMA_OFFSET + SCHEMA_CAPACITY) as u64) {
            Ok(()) => {},
            Err(e) => {
                return Err(e);
            },
        }
        let get_schema = match pair_func(&self.instance, &mut self.store, "get_schema") {
            Ok(f) => f,
            Err(_) => {
                return Err(BridgeError::MissingExport { name: String::from_str("get_schema") });
            },
        };
        let code = match call_pair(
            &get_schema,
            &mut self.store,
            SCHEMA_OFFSET as i32,
            SCHEMA_CAPACITY as i32,
        ) {
            Ok(code) => code,
            Err(e) => {
                return Err(BridgeError::Module { detail: error_text(&e) });
            },
        };
        self.schema_reply(code)
    }

    /// Encodes the input of the function `function` from its JSON form:
    /// writes the function's name and the JSON text into the memory, calls
    /// the module's encode entry point with the offsets and lengths of the
    /// regions, and reads the length-prefixed bytes that it wrote. A
    /// non-zero status fails with the module's own description of the
    /// failure.
    ///
    /// An input whose regions would pass the module's address space is
    /// refused before anything is grown or written, and no other input
    /// is. The memory is grown before the call, by one growth call of the
    /// minimal number of pages, where the regions do not fit.
    pub fn encode_input(&mut self, function: &str, json: &str) -> (r: Result<Vec<u8>, BridgeError>)
        requires
            old(self).well_formed(),
        ensures
            final(self).well_formed(),
            final(self).bridge_state() == old(self).bridge_state(),
            final(self).store_identity() == old(self).store_identity(),
            r matches Err(BridgeError::TooLarge) <==> layout_end(
                function.spec_bytes().len(),
                json.spec_bytes().len(),
            ) > MAX_ADDRESS,
            r matches Err(BridgeError::TooLarge) ==> final(self).growth_log() == old(
                self,
            ).growth_log() && final(self).memory_bytes() == old(self).memory_bytes(),
            ({
                let layout = layout_of(function.spec_bytes().len(), json.spec_bytes().len());
                let required = (layout.out_offset + layout.out_size) as nat;
                let grown = log_after(old(self).growth_log(), old(self).pages(), required);
                &&& match r {
                    Ok(bytes) => framed_at(final(self).memory_bytes(), layout.out_offset as nat)
                        == Ok::<Seq<u8>, ReadFault>(bytes@),
                    Err(e) => !(e is InvalidUtf8) && failure_holds(
                        e,
                        "encode_input_fn"@,
                        final(self).memory_bytes(),
                        layout.out_offset as nat,
                    ),
                }
                &&& r matches Err(BridgeError::Growth { .. }) ==> growth_for(
                    old(self).pages(),
                    required,
                ) > 0
                &&& r matches Err(BridgeError::WriteOutOfBounds { offset, len }) ==> (offset
                    == layout.name_offset && len == function.spec_bytes().len()) || (offset
                    == layout.json_offset && len == json.spec_bytes().len())
                &&& !(r matches Err(BridgeError::Status { .. })) && !(r matches Err(
                    BridgeError::TooLarge,
                )) ==> final(self).growth_log() == grown
                &&& r matches Err(BridgeError::Status { .. }) ==> at_most_one_more(
                    final(self).growth_log(),
                    grown,
                )
            }),
    {
        let name_bytes = function.as_bytes_vec();
        let json_bytes = json.as_bytes_vec();
        let layout = match input_layout(name_bytes.len(), json_bytes.len()) {
            Some(layout) => layout,
            None => {
                return Err(BridgeError::TooLarge);
            },
        };
        match self.ensure_memory_capacity((layout.out_offset + layout.out_size) as u64) {
            Ok(()) => {},
            Err(e) => {
                return Err(e);
            },
        }
        match self.write_bytes(layout.name_offset, &name_bytes) {
            Ok(()) => {},
            Err(e) => {
                return Err(e);
            },
        }
        match self.write_bytes(layout.json_offset, &json_bytes) {
            Ok(()) => {},
            Err(e) => {
                return Err(e);
            },
        }
        let encode_input_fn = match six_func(&self.instance, &mut self.store, "encode_input_fn") {
            Ok(f) => f,
            Err(_) => {
                return Err(
                    BridgeError::MissingExport { name: String::from_str("encode_input_fn") },
                );
            },
        };
        let code = match call_six(
            &encode_input_fn,
            &mut self.store,
            (
                layout.name_offset as i32,
                name_bytes.len() as i32,
                layout.json_offset as i32,
                json_bytes.len() as i32,
                layout.out_offset as i32,
                layout.out_size as i32,
            ),
        ) {
            Ok(code) => code,
            Err(e) => {
                return Err(BridgeError::Module { detail: error_text(&e) });
            },
        };
        self.encode_reply(code, layout.out_offset)
    }
}

} // verus!
