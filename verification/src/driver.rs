//! The contract driver: lookups in a contract's codec table.

use crate::data_driver::{
    ArmModel, CodecArm, CodecRule, CodecTable, EventArmModel, EventKey, EventKeyModel,
    RuleModel, arms_view, event_arms_view, selected,
};
use crate::schema::ContractSchema;
use crate::string_map::StringMap;
use crate::text::same_text;
use vstd::prelude::*;

verus! {

/// The kind of a lookup.
#[derive(Clone, Copy, Debug, PartialEq, Eq, Structural)]
pub enum Lookup {
    EncodeInput,
    DecodeInput,
    DecodeOutput,
    DecodeEvent,
}

/// Why a lookup found no usable rule.
#[derive(Debug)]
pub enum DriverError {
    /// The table has no rule for the name.
    Unsupported { lookup: Lookup, name: String },
    /// The operation is custom and no handler is registered for it.
    CustomHandlerRequired { name: String },
}

/// Model of [`DriverError`].
pub enum DriverErrorModel {
    Unsupported { lookup: Lookup, name: Seq<char> },
    CustomHandlerRequired { name: Seq<char> },
}

impl View for DriverError {
    type V = DriverErrorModel;

    open spec fn view(&self) -> DriverErrorModel {
        match self {
            DriverError::Unsupported { lookup, name } => DriverErrorModel::Unsupported {
                lookup: *lookup,
                name: name@,
            },
            DriverError::CustomHandlerRequired { name } => DriverErrorModel::CustomHandlerRequired {
                name: name@,
            },
        }
    }
}

/// How a failure names the kind of the lookup and what was looked up.
pub open spec fn lookup_label(lookup: Lookup) -> Seq<char> {
    match lookup {
        Lookup::EncodeInput => "encode_input: unknown fn "@,
        Lookup::DecodeInput => "decode_input: unknown fn "@,
        Lookup::DecodeOutput => "decode_output: unknown fn "@,
        Lookup::DecodeEvent => "decode_event: unknown event "@,
    }
}

/// The text of a failure.
pub open spec fn failure_text(e: DriverErrorModel) -> Seq<char> {
    match e {
        DriverErrorModel::Unsupported { lookup, name } => "unsupported: "@ + lookup_label(lookup)
            + name,
        DriverErrorModel::CustomHandlerRequired { name } =>
            "unsupported: custom handler required: "@ + name,
    }
}

impl DriverError {
    /// The text of the failure: the kind of the lookup and the name that
    /// was looked up.
    pub fn message(&self) -> (r: String)
        ensures
            r@ == failure_text(self@),
    {
        match self {
            DriverError::Unsupported { lookup, name } => {
                let mut out = String::from_str("unsupported: ");
                match lookup {
                    Lookup::EncodeInput => out.append("encode_input: unknown fn "),
                    Lookup::DecodeInput => out.append("decode_input: unknown fn "),
                    Lookup::DecodeOutput => out.append("decode_output: unknown fn "),
                    Lookup::DecodeEvent => out.append("decode_event: unknown event "),
                }
                out.append(name.as_str());
                out
            },
            DriverError::CustomHandlerRequired { name } => {
                let mut out = String::from_str("unsupported: custom handler required: ");
                out.append(name.as_str());
                out
            },
        }
    }
}

/// What a lookup of `name` in `arms` yields: the selected rule, or the
/// failure that names the lookup; the "custom handler required" rule is
/// itself a failure.
pub open spec fn lookup_of(arms: Seq<ArmModel>, lookup: Lookup, name: Seq<char>) -> Result<
    RuleModel,
    DriverErrorModel,
> {
    match selected(arms, name, 0) {
        None => Err(DriverErrorModel::Unsupported { lookup, name }),
        Some(RuleModel::CustomRequired) => Err(DriverErrorModel::CustomHandlerRequired { name }),
        Some(rule) => Ok(rule),
    }
}

/// The event arm's key stands for the topic `name`. `constants` gives the
/// value of each topic constant by its path.
pub open spec fn key_matches(
    key: EventKeyModel,
    name: Seq<char>,
    constants: Map<Seq<char>, Seq<char>>,
) -> bool {
    match key {
        EventKeyModel::Literal { text } => text == name,
        EventKeyModel::Constant { path } => constants.contains_key(path) && constants[path] == name,
    }
}

/// The type of the first event arm, at or after `from`, whose key stands
/// for `name`.
pub open spec fn selected_event(
    arms: Seq<EventArmModel>,
    name: Seq<char>,
    constants: Map<Seq<char>, Seq<char>>,
    from: int,
) -> Option<Seq<char>>
    decreases arms.len() - from,
{
    if from < 0 || from >= arms.len() {
        None
    } else if key_matches(arms[from].key, name, constants) {
        Some(arms[from].ty)
    } else {
        selected_event(arms, name, constants, from + 1)
    }
}

/// The model of a rule lookup result.
pub open spec fn rule_result(r: Result<&CodecRule, DriverError>) -> Result<
    RuleModel,
    DriverErrorModel,
> {
    match r {
        Ok(rule) => Ok(rule@),
        Err(e) => Err(e@),
    }
}

/// Looks `name` up in one table.
fn find_rule<'a>(arms: &'a Vec<CodecArm>, lookup: Lookup, name: &str) -> (r: Result<
    &'a CodecRule,
    DriverError,
>)
    ensures
        rule_result(r) == lookup_of(arms_view(arms@), lookup, name@),
{
    let ghost models = arms_view(arms@);
    let mut i: usize = 0;
    while i < arms.len()
        invariant
            i <= arms.len(),
            models == arms_view(arms@),
            selected(models, name@, 0) == selected(models, name@, i as int),
        decreases arms.len() - i,
    {
        proof {
            assert(models[i as int] == arms@[i as int]@);
        }
        if same_text(arms[i].name.as_str(), name) {
            match &arms[i].rule {
                CodecRule::CustomRequired => {
                    return Err(DriverError::CustomHandlerRequired { name: String::from_str(name) });
                },
                _ => {
                    return Ok(&arms[i].rule);
                },
            }
        }
        i = i + 1;
    }
    Err(DriverError::Unsupported { lookup, name: String::from_str(name) })
}

/// The driver of one contract: its codec table and its schema.
#[derive(Debug)]
pub struct ContractDriver {
    pub table: CodecTable,
    pub schema: ContractSchema,
}

impl ContractDriver {
    /// Selects the rule that encodes the input of the operation `fn_name`.
    pub fn encode_input_fn(&self, fn_name: &str) -> (r: Result<&CodecRule, DriverError>)
        ensures
            rule_result(r) == lookup_of(self.table@.encode_input, Lookup::EncodeInput, fn_name@),
    {
        find_rule(&self.table.encode_input, Lookup::EncodeInput, fn_name)
    }

    /// Selects the rule that decodes the input of the operation `fn_name`.
    pub fn decode_input_fn(&self, fn_name: &str) -> (r: Result<&CodecRule, DriverError>)
        ensures
            rule_result(r) == lookup_of(self.table@.decode_input, Lookup::DecodeInput, fn_name@),
    {
        find_rule(&self.table.decode_input, Lookup::DecodeInput, fn_name)
    }

    /// Selects the rule that decodes the output of the operation `fn_name`.
    pub fn decode_output_fn(&self, fn_name: &str) -> (r: Result<&CodecRule, DriverError>)
        ensures
            rule_result(r) == lookup_of(
                self.table@.decode_output,
                Lookup::DecodeOutput,
                fn_name@,
            ),
    {
        find_rule(&self.table.decode_output, Lookup::DecodeOutput, fn_name)
    }

    /// Selects the type that the data of the event `event_name` is decoded
    /// as. `constants` gives the value of each topic constant by its path.
    pub fn decode_event(&self, event_name: &str, constants: &StringMap) -> (r: Result<
        &String,
        DriverError,
    >)
        ensures
            match selected_event(self.table@.decode_event, event_name@, constants@, 0) {
                Some(ty) => r is Ok && r->Ok_0@ == ty,
                None => r is Err && r->Err_0@ == (DriverErrorModel::Unsupported {
                    lookup: Lookup::DecodeEvent,
                    name: event_name@,
                }),
            },
    {
        let arms = &self.table.decode_event;
        let ghost models = event_arms_view(arms@);
        let mut i: usize = 0;
        while i < arms.len()
            invariant
                i <= arms.len(),
                arms@ == self.table.decode_event@,
                models == event_arms_view(arms@),
                selected_event(models, event_name@, constants@, 0) == selected_event(
                    models,
                    event_name@,
                    constants@,
                    i as int,
                ),
            decreases arms.len() - i,
        {
            proof {
                assert(models[i as int] == arms@[i as int]@);
            }
            let hit = match &arms[i].key {
                EventKey::Literal { text } => same_text(text.as_str(), event_name),
                EventKey::Constant { path } => match constants.get(path.as_str()) {
                    Some(value) => same_text(value.as_str(), event_name),
                    None => false,
                },
            };
            proof {
                assert(arms@[i as int].key@ == models[i as int].key);
                assert(hit == key_matches(models[i as int].key, event_name@, constants@));
            }
            if hit {
                return Ok(&arms[i].ty);
            }
            i = i + 1;
        }
        Err(
            DriverError::Unsupported {
                lookup: Lookup::DecodeEvent,
                name: String::from_str(event_name),
            },
        )
    }

    /// The schema of the contract.
    pub fn get_schema(&self) -> (r: &ContractSchema)
        ensures
            r@ == self.schema@,
    {
        &self.schema
    }
}

} // verus!
