//! The codec-table generator: name-keyed rules that say how the input and
//! output of each operation and the data of each event are converted
//! between JSON and the binary wire format.

use crate::declaration::{TypeExpr, TypeModel};
use crate::descriptor::{
    CustomDataDriverHandler, DataDriverRole, EventInfo, EventModel, FunctionInfo, FunctionModel,
    HandlerModel, events_view, functions_view, handlers_view,
};
use crate::error::{ContractError, ErrorModel, Rule, plain_error};
use crate::resolve::{TypeMap, resolve_type, type_text};
use crate::string_map::StringMap;
use crate::text::{same_text, to_chars};
use vstd::prelude::*;

verus! {

// ---------------------------------------------------------------------------
// What the parser of Rust syntax decides
// ---------------------------------------------------------------------------
/// Whether `syn` reads `text` as a Rust type.
pub uninterp spec fn type_syntax(text: Seq<char>) -> bool;

/// The identifiers of the segments of `text` where `syn` reads it as a
/// Rust path, and nothing where it does not.
pub uninterp spec fn path_syntax(text: Seq<char>) -> Option<Seq<Seq<char>>>;

/// Whether `c` is a lowercase letter to `char::is_lowercase`.
pub uninterp spec fn lowercase(c: char) -> bool;

/// Calls `syn::parse_str::<syn::Type>` and reports whether it succeeded.
/// The contract names the outcome `type_syntax` and claims nothing about
/// which texts are types.
#[verifier::external_body]
fn parses_as_type(text: &str) -> (r: bool)
    ensures
        r == type_syntax(text@),
{
    syn::parse_str::<syn::Type>(text).is_ok()
}

/// Calls `syn::parse_str::<syn::Path>` and hands out the identifier of
/// each segment of the parsed path. The contract names the outcome
/// `path_syntax` and claims nothing about which texts are paths.
#[verifier::external_body]
fn parse_path(text: &str) -> (r: Option<Vec<String>>)
    ensures
        match r {
            Some(idents) => path_syntax(text@) == Some(idents.deep_view()),
            None => path_syntax(text@) is None,
        },
{
    match syn::parse_str::<syn::Path>(text) {
        Ok(path) => Some(path.segments.iter().map(|s| s.ident.to_string()).collect()),
        Err(_) => None,
    }
}

/// Calls `char::is_lowercase`. The contract names the outcome `lowercase`.
#[verifier::external_body]
fn is_lowercase(c: char) -> (r: bool)
    ensures
        r == lowercase(c),
{
    c.is_lowercase()
}

// ---------------------------------------------------------------------------
// Rules
// ---------------------------------------------------------------------------
/// How one direction of one operation is converted.
#[derive(Debug)]
pub enum CodecRule {
    /// The operation is custom and no handler is registered: the
    /// conversion fails with "custom handler required".
    CustomRequired,
    /// The generic structural conversion for the type `ty`.
    Convert { ty: String },
    /// The result is the null value; nothing is decoded.
    Null,
    /// The dedicated conversion for 64-bit unsigned integers.
    U64,
    /// The hand-written handler `handler`.
    Handler { handler: String },
}

/// Model of [`CodecRule`].
pub enum RuleModel {
    CustomRequired,
    Convert { ty: Seq<char> },
    Null,
    U64,
    Handler { handler: Seq<char> },
}

impl View for CodecRule {
    type V = RuleModel;

    open spec fn view(&self) -> RuleModel {
        match self {
            CodecRule::CustomRequired => RuleModel::CustomRequired,
            CodecRule::Convert { ty } => RuleModel::Convert { ty: ty@ },
            CodecRule::Null => RuleModel::Null,
            CodecRule::U64 => RuleModel::U64,
            CodecRule::Handler { handler } => RuleModel::Handler { handler: handler@ },
        }
    }
}

/// A rule keyed by the name of an operation.
#[derive(Debug)]
pub struct CodecArm {
    pub name: String,
    pub rule: CodecRule,
}

/// Model of [`CodecArm`].
pub struct ArmModel {
    pub name: Seq<char>,
    pub rule: RuleModel,
}

impl View for CodecArm {
    type V = ArmModel;

    open spec fn view(&self) -> ArmModel {
        ArmModel { name: self.name@, rule: self.rule@ }
    }
}

/// The models of a sequence of arms.
pub open spec fn arms_view(s: Seq<CodecArm>) -> Seq<ArmModel> {
    s.map_values(|a: CodecArm| a@)
}

/// The key of an event rule.
#[derive(Debug)]
pub enum EventKey {
    /// The value of the constant at this path.
    Constant { path: String },
    /// This very text.
    Literal { text: String },
}

/// Model of [`EventKey`].
pub enum EventKeyModel {
    Constant { path: Seq<char> },
    Literal { text: Seq<char> },
}

impl View for EventKey {
    type V = EventKeyModel;

    open spec fn view(&self) -> EventKeyModel {
        match self {
            EventKey::Constant { path } => EventKeyModel::Constant { path: path@ },
            EventKey::Literal { text } => EventKeyModel::Literal { text: text@ },
        }
    }
}

/// The decode rule of an event: the generic structural conversion for the
/// type `ty`, keyed by the event's topic.
#[derive(Debug)]
pub struct EventArm {
    pub key: EventKey,
    pub ty: String,
}

/// Model of [`EventArm`].
pub struct EventArmModel {
    pub key: EventKeyModel,
    pub ty: Seq<char>,
}

impl View for EventArm {
    type V = EventArmModel;

    open spec fn view(&self) -> EventArmModel {
        EventArmModel { key: self.key@, ty: self.ty@ }
    }
}

/// The models of a sequence of event arms.
pub open spec fn event_arms_view(s: Seq<EventArm>) -> Seq<EventArmModel> {
    s.map_values(|a: EventArm| a@)
}

// ---------------------------------------------------------------------------
// Specification of the tables
// ---------------------------------------------------------------------------
/// The text that the codec uses for the type `t`: its resolved text from
/// the resolution table where the table has one that reads as a type, the
/// type's own text otherwise.
pub open spec fn codec_type(t: TypeModel, type_map: Map<Seq<char>, Seq<char>>) -> Seq<char> {
    chosen_type(
        type_text(t),
        if type_map.contains_key(type_text(t)) {
            Some(type_map[type_text(t)])
        } else {
            None
        },
        type_map.contains_key(type_text(t)) && type_syntax(type_map[type_text(t)]),
    )
}

/// The choice between a type's own text and its resolved text.
pub open spec fn chosen_type(written: Seq<char>, resolved: Option<Seq<char>>, reads_as_type: bool)
    -> Seq<char> {
    match resolved {
        Some(text) if reads_as_type => text,
        _ => written,
    }
}

/// The handler registered for `name` in the role `role`: the first such
/// handler at or after `from`.
pub open spec fn handler_for(
    handlers: Seq<HandlerModel>,
    name: Seq<char>,
    role: DataDriverRole,
    from: int,
) -> Option<Seq<char>>
    decreases handlers.len() - from,
{
    if from < 0 || from >= handlers.len() {
        None
    } else if handlers[from].fn_name == name && handlers[from].role == role {
        Some(handlers[from].handler)
    } else {
        handler_for(handlers, name, role, from + 1)
    }
}

/// The rule of a custom operation: its handler where one is registered for
/// the role, the "custom handler required" failure otherwise.
pub open spec fn custom_rule(f: FunctionModel, role: DataDriverRole, handlers: Seq<HandlerModel>)
    -> RuleModel {
    match handler_for(handlers, f.name, role, 0) {
        Some(handler) => RuleModel::Handler { handler },
        None => RuleModel::CustomRequired,
    }
}

/// The type that the output of `f` is decoded as: the fed type where the
/// operation streams its output, the declared output type otherwise.
pub open spec fn decoded_output(f: FunctionModel) -> TypeModel {
    match f.feed_type {
        Some(t) => t,
        None => f.output_type,
    }
}

/// The generic rule that decodes a value of the type `t`: the null value
/// for the unit type, the dedicated path for `u64`, the structural
/// conversion for every other type.
pub open spec fn output_conversion(t: TypeModel, type_map: Map<Seq<char>, Seq<char>>) -> RuleModel {
    if type_text(t) == "()"@ {
        RuleModel::Null
    } else if type_text(t) == "u64"@ {
        RuleModel::U64
    } else {
        RuleModel::Convert { ty: codec_type(t, type_map) }
    }
}

/// The rule of `f` in the role `role`. A custom operation never gets a
/// generic rule, and any other operation never gets a handler.
pub open spec fn rule_for(
    f: FunctionModel,
    role: DataDriverRole,
    type_map: Map<Seq<char>, Seq<char>>,
    handlers: Seq<HandlerModel>,
) -> RuleModel {
    if f.is_custom {
        custom_rule(f, role, handlers)
    } else {
        match role {
            DataDriverRole::DecodeOutput => output_conversion(decoded_output(f), type_map),
            _ => RuleModel::Convert { ty: codec_type(f.input_type, type_map) },
        }
    }
}

/// The arm of `f` in the role `role`.
pub open spec fn function_arm(
    f: FunctionModel,
    role: DataDriverRole,
    type_map: Map<Seq<char>, Seq<char>>,
    handlers: Seq<HandlerModel>,
) -> ArmModel {
    ArmModel { name: f.name, rule: rule_for(f, role, type_map, handlers) }
}

/// The rule that a lookup of `name` selects: that of the first arm, at or
/// after `from`, with that name.
pub open spec fn selected(arms: Seq<ArmModel>, name: Seq<char>, from: int) -> Option<RuleModel>
    decreases arms.len() - from,
{
    if from < 0 || from >= arms.len() {
        None
    } else if arms[from].name == name {
        Some(arms[from].rule)
    } else {
        selected(arms, name, from + 1)
    }
}

/// Some arm of `arms` is keyed by `name`.
pub open spec fn keyed(arms: Seq<ArmModel>, name: Seq<char>) -> bool {
    selected(arms, name, 0) is Some
}

/// No two arms of `arms` are keyed by one name.
pub open spec fn distinct_names(arms: Seq<ArmModel>) -> bool {
    forall|i: int, j: int| 0 <= i < j < arms.len() ==> arms[i].name != arms[j].name
}

/// The arms of the first `n` operations, in order: each operation gets
/// its arm, unless an earlier operation already holds its name.
pub open spec fn function_arms(
    functions: Seq<FunctionModel>,
    role: DataDriverRole,
    type_map: Map<Seq<char>, Seq<char>>,
    handlers: Seq<HandlerModel>,
    n: nat,
) -> Seq<ArmModel>
    decreases n,
{
    if n == 0 || n > functions.len() {
        Seq::empty()
    } else {
        let prev = function_arms(functions, role, type_map, handlers, (n - 1) as nat);
        if keyed(prev, functions[n - 1].name) {
            prev
        } else {
            prev.push(function_arm(functions[n - 1], role, type_map, handlers))
        }
    }
}

/// The arm of a handler that serves an entry of its own.
pub open spec fn handler_arm(h: HandlerModel) -> ArmModel {
    ArmModel { name: h.fn_name, rule: RuleModel::Handler { handler: h.handler } }
}

/// `base`, followed by the arms of those of the first `n` handlers that
/// serve the role `role` and whose name keys no arm before them: a
/// handler registered for an operation adds no arm, since the operation's
/// own arm already selects it.
pub open spec fn handler_arms(
    base: Seq<ArmModel>,
    handlers: Seq<HandlerModel>,
    role: DataDriverRole,
    n: nat,
) -> Seq<ArmModel>
    decreases n,
{
    if n == 0 || n > handlers.len() {
        base
    } else {
        let prev = handler_arms(base, handlers, role, (n - 1) as nat);
        if handlers[n - 1].role == role && !keyed(prev, handlers[n - 1].fn_name) {
            prev.push(handler_arm(handlers[n - 1]))
        } else {
            prev
        }
    }
}

/// The table of one role: one arm per operation name, in order, followed
/// by one arm per handler of the role that is registered under a name of
/// its own. No name keys two arms.
pub open spec fn arms_for(
    functions: Seq<FunctionModel>,
    role: DataDriverRole,
    type_map: Map<Seq<char>, Seq<char>>,
    handlers: Seq<HandlerModel>,
) -> Seq<ArmModel> {
    handler_arms(
        function_arms(functions, role, type_map, handlers, functions.len()),
        handlers,
        role,
        handlers.len(),
    )
}

/// The operation at `at` is the first of its name.
pub open spec fn first_of_its_name(functions: Seq<FunctionModel>, at: int) -> bool {
    forall|j: int| 0 <= j < at ==> functions[j].name != functions[at].name
}

/// Those of the first `n` operations that are the first of their name, in
/// order: the operations that a table has an arm for.
pub open spec fn leading_functions(functions: Seq<FunctionModel>, n: nat) -> Seq<FunctionModel>
    decreases n,
{
    if n == 0 || n > functions.len() {
        Seq::empty()
    } else {
        let prev = leading_functions(functions, (n - 1) as nat);
        if first_of_its_name(functions, n - 1) {
            prev.push(functions[n - 1])
        } else {
            prev
        }
    }
}

/// The first character of `ident` is a lowercase letter.
pub open spec fn starts_lowercase(ident: Seq<char>) -> bool {
    ident.len() > 0 && lowercase(ident[0])
}

/// The key of the rule of an event whose topic was written as a path,
/// from the resolved topic and what the parser made of it. A path of one
/// segment that starts with a lowercase letter names a variable, not a
/// constant: it has no key. Any other path stands for the constant it
/// names, and a text that does not read as a path stands for itself.
pub open spec fn key_of(topic: Seq<char>, parsed: Option<Seq<Seq<char>>>, lowercase_start: bool)
    -> Option<EventKeyModel> {
    match parsed {
        None => Some(EventKeyModel::Literal { text: topic }),
        Some(idents) => if idents.len() == 1 && lowercase_start {
            None
        } else {
            Some(EventKeyModel::Constant { path: topic })
        },
    }
}

/// The topic of `e` in resolved form: from the resolution table where it
/// has the topic, as declared otherwise.
pub open spec fn resolved_event_topic(e: EventModel, type_map: Map<Seq<char>, Seq<char>>) -> Seq<
    char,
> {
    if type_map.contains_key(e.topic) {
        type_map[e.topic]
    } else {
        e.topic
    }
}

/// The key of the rule of the event `e`, if it has one, from the topic
/// in resolved form: that text itself where the topic was written as a
/// string literal, which is never read as a path, and the key of the
/// path otherwise.
pub open spec fn event_key(e: EventModel, type_map: Map<Seq<char>, Seq<char>>) -> Option<
    EventKeyModel,
> {
    let topic = resolved_event_topic(e, type_map);
    if e.topic_is_literal {
        Some(EventKeyModel::Literal { text: topic })
    } else {
        let parsed = path_syntax(topic);
        let lowercase_start = parsed is Some && parsed->0.len() > 0 && starts_lowercase(
            parsed->0[0],
        );
        key_of(topic, parsed, lowercase_start)
    }
}

/// The diagnostic for an event whose topic names a variable.
pub open spec fn variable_topic(e: EventModel) -> ErrorModel {
    plain_error(Rule::VariableTopic, e.topic)
}

/// The decode rule of the event `e`, or the diagnostic where its topic
/// names a variable.
pub open spec fn event_arm(e: EventModel, type_map: Map<Seq<char>, Seq<char>>) -> Result<
    EventArmModel,
    ErrorModel,
> {
    match event_key(e, type_map) {
        Some(key) => Ok(EventArmModel { key, ty: codec_type(e.data_type, type_map) }),
        None => Err(variable_topic(e)),
    }
}

/// The decode rules of the first `n` events, one per event and in order,
/// or the diagnostic of the first event that gets none.
pub open spec fn event_arms(events: Seq<EventModel>, type_map: Map<Seq<char>, Seq<char>>, n: nat)
    -> Result<Seq<EventArmModel>, ErrorModel>
    decreases n,
{
    if n == 0 || n > events.len() {
        Ok(Seq::empty())
    } else {
        match event_arms(events, type_map, (n - 1) as nat) {
            Err(e) => Err(e),
            Ok(prev) => match event_arm(events[n - 1], type_map) {
                Ok(arm) => Ok(prev.push(arm)),
                Err(e) => Err(e),
            },
        }
    }
}

/// The model of a generated event table or its diagnostic.
pub open spec fn event_arms_result(r: Result<Vec<EventArm>, ContractError>) -> Result<
    Seq<EventArmModel>,
    ErrorModel,
> {
    match r {
        Ok(arms) => Ok(event_arms_view(arms@)),
        Err(e) => Err(e@),
    }
}

// ---------------------------------------------------------------------------
// Laws
// ---------------------------------------------------------------------------
/// A lookup in a table with one more arm at its end: what the table
/// selected before, and the new arm's rule where it selected nothing and
/// the new arm has the name.
proof fn lemma_selected_push(arms: Seq<ArmModel>, arm: ArmModel, name: Seq<char>, from: int)
    requires
        0 <= from <= arms.len(),
    ensures
        selected(arms.push(arm), name, from) == match selected(arms, name, from) {
            Some(rule) => Some(rule),
            None => if arm.name == name {
                Some(arm.rule)
            } else {
                None
            },
        },
    decreases arms.len() - from,
{
    let longer = arms.push(arm);
    if from < arms.len() {
        assert(longer[from] == arms[from]);
        if arms[from].name != name {
            lemma_selected_push(arms, arm, name, from + 1);
        }
    } else {
        assert(longer[from] == arm);
        assert(selected(longer, name, from + 1) is None);
    }
}

/// Where a lookup from `from` selects nothing, no arm at or after `from`
/// has the name.
proof fn lemma_unselected_is_absent(arms: Seq<ArmModel>, name: Seq<char>, from: int, at: int)
    requires
        0 <= from <= at < arms.len(),
        selected(arms, name, from) is None,
    ensures
        arms[at].name != name,
    decreases at - from,
{
    if from < at {
        lemma_unselected_is_absent(arms, name, from + 1, at);
    }
}

/// What a lookup selects is the rule of an arm with the name.
proof fn lemma_selected_is_an_arm(arms: Seq<ArmModel>, name: Seq<char>, from: int) -> (at: int)
    requires
        0 <= from,
        selected(arms, name, from) is Some,
    ensures
        from <= at < arms.len(),
        arms[at].name == name,
        arms[at].rule == selected(arms, name, from)->0,
    decreases arms.len() - from,
{
    if arms[from].name == name {
        from
    } else {
        lemma_selected_is_an_arm(arms, name, from + 1)
    }
}

/// An arm under a name that keys no arm yet keeps the names distinct.
proof fn lemma_distinct_push(arms: Seq<ArmModel>, arm: ArmModel)
    requires
        distinct_names(arms),
        !keyed(arms, arm.name),
    ensures
        distinct_names(arms.push(arm)),
{
    let longer = arms.push(arm);
    assert forall|i: int, j: int| 0 <= i < j < longer.len() implies longer[i].name
        != longer[j].name by {
        if j == arms.len() {
            lemma_unselected_is_absent(arms, arm.name, 0, i);
        }
    }
}

/// The arms of the operations have distinct names.
proof fn lemma_function_arms_distinct(
    functions: Seq<FunctionModel>,
    role: DataDriverRole,
    type_map: Map<Seq<char>, Seq<char>>,
    handlers: Seq<HandlerModel>,
    n: nat,
)
    ensures
        distinct_names(function_arms(functions, role, type_map, handlers, n)),
    decreases n,
{
    if n == 0 || n > functions.len() {
    } else {
        let prev = function_arms(functions, role, type_map, handlers, (n - 1) as nat);
        lemma_function_arms_distinct(functions, role, type_map, handlers, (n - 1) as nat);
        if !keyed(prev, functions[n - 1].name) {
            lemma_distinct_push(prev, function_arm(functions[n - 1], role, type_map, handlers));
        }
    }
}

/// Arms of handlers keep distinct names distinct, and leave what a lookup
/// selected before as it was.
proof fn lemma_handler_arms_extend(
    base: Seq<ArmModel>,
    handlers: Seq<HandlerModel>,
    role: DataDriverRole,
    n: nat,
    name: Seq<char>,
)
    requires
        distinct_names(base),
    ensures
        distinct_names(handler_arms(base, handlers, role, n)),
        keyed(base, name) ==> selected(handler_arms(base, handlers, role, n), name, 0) == selected(
            base,
            name,
            0,
        ),
    decreases n,
{
    if n == 0 || n > handlers.len() {
    } else {
        let prev = handler_arms(base, handlers, role, (n - 1) as nat);
        lemma_handler_arms_extend(base, handlers, role, (n - 1) as nat, name);
        if handlers[n - 1].role == role && !keyed(prev, handlers[n - 1].fn_name) {
            lemma_distinct_push(prev, handler_arm(handlers[n - 1]));
            lemma_selected_push(prev, handler_arm(handlers[n - 1]), name, 0);
        }
    }
}

/// A lookup of the name of the operation at `at`, the first of its name,
/// in the arms of the first `n` operations: nothing up to `at`, its own
/// rule after it.
proof fn lemma_function_arms_select(
    functions: Seq<FunctionModel>,
    role: DataDriverRole,
    type_map: Map<Seq<char>, Seq<char>>,
    handlers: Seq<HandlerModel>,
    at: int,
    n: nat,
)
    requires
        0 <= at < functions.len(),
        n <= functions.len(),
        forall|j: int| 0 <= j < at ==> functions[j].name != functions[at].name,
    ensures
        selected(function_arms(functions, role, type_map, handlers, n), functions[at].name, 0) == (
        if n <= at {
            None
        } else {
            Some(rule_for(functions[at], role, type_map, handlers))
        }),
    decreases n,
{
    if n > 0 {
        let prev = function_arms(functions, role, type_map, handlers, (n - 1) as nat);
        lemma_function_arms_select(functions, role, type_map, handlers, at, (n - 1) as nat);
        if !keyed(prev, functions[n - 1].name) {
            lemma_selected_push(
                prev,
                function_arm(functions[n - 1], role, type_map, handlers),
                functions[at].name,
                0,
            );
        }
    }
}

/// The handler rule that a handler's name stands for, if there is one.
pub open spec fn handler_rule(handler: Option<Seq<char>>) -> Option<RuleModel> {
    match handler {
        Some(h) => Some(RuleModel::Handler { handler: h }),
        None => None,
    }
}

/// The handler found among one more handler: the one found before, and
/// the new one where none was found and it is registered for the name and
/// the role.
proof fn lemma_handler_for_push(
    handlers: Seq<HandlerModel>,
    h: HandlerModel,
    name: Seq<char>,
    role: DataDriverRole,
    from: int,
)
    requires
        0 <= from <= handlers.len(),
    ensures
        handler_for(handlers.push(h), name, role, from) == match handler_for(
            handlers,
            name,
            role,
            from,
        ) {
            Some(found) => Some(found),
            None => if h.fn_name == name && h.role == role {
                Some(h.handler)
            } else {
                None
            },
        },
    decreases handlers.len() - from,
{
    let longer = handlers.push(h);
    if from < handlers.len() {
        assert(longer[from] == handlers[from]);
        if !(handlers[from].fn_name == name && handlers[from].role == role) {
            lemma_handler_for_push(handlers, h, name, role, from + 1);
        }
    } else {
        assert(longer[from] == h);
        assert(handler_for(longer, name, role, from + 1) is None);
    }
}

/// No arm of the operations is keyed by a name that no operation has.
proof fn lemma_function_arms_other_name(
    functions: Seq<FunctionModel>,
    role: DataDriverRole,
    type_map: Map<Seq<char>, Seq<char>>,
    handlers: Seq<HandlerModel>,
    name: Seq<char>,
    n: nat,
)
    requires
        forall|j: int| 0 <= j < functions.len() ==> functions[j].name != name,
    ensures
        !keyed(function_arms(functions, role, type_map, handlers, n), name),
    decreases n,
{
    if n == 0 || n > functions.len() {
    } else {
        let prev = function_arms(functions, role, type_map, handlers, (n - 1) as nat);
        lemma_function_arms_other_name(functions, role, type_map, handlers, name, (n - 1) as nat);
        if !keyed(prev, functions[n - 1].name) {
            lemma_selected_push(
                prev,
                function_arm(functions[n - 1], role, type_map, handlers),
                name,
                0,
            );
        }
    }
}

/// A lookup of a name that keys no arm of `base`, after the arms of the
/// first `n` handlers: the first of them that is registered for the name
/// and the role.
proof fn lemma_handler_arms_select(
    base: Seq<ArmModel>,
    handlers: Seq<HandlerModel>,
    role: DataDriverRole,
    name: Seq<char>,
    n: nat,
)
    requires
        n <= handlers.len(),
        !keyed(base, name),
    ensures
        selected(handler_arms(base, handlers, role, n), name, 0) == handler_rule(
            handler_for(handlers.take(n as int), name, role, 0),
        ),
    decreases n,
{
    if n > 0 {
        let prev = handler_arms(base, handlers, role, (n - 1) as nat);
        let h = handlers[n - 1];
        lemma_handler_arms_select(base, handlers, role, name, (n - 1) as nat);
        assert(handlers.take(n as int) =~= handlers.take(n - 1).push(h));
        lemma_handler_for_push(handlers.take(n - 1), h, name, role, 0);
        if h.role == role && !keyed(prev, h.fn_name) {
            lemma_selected_push(prev, handler_arm(h), name, 0);
        }
    }
}

/// A handler under a name of its own: a lookup of a name that no
/// operation has selects the first handler registered for the name and
/// the role, and nothing where there is none.
pub proof fn lemma_handler_under_its_own_name(
    functions: Seq<FunctionModel>,
    role: DataDriverRole,
    type_map: Map<Seq<char>, Seq<char>>,
    handlers: Seq<HandlerModel>,
    name: Seq<char>,
)
    requires
        forall|j: int| 0 <= j < functions.len() ==> functions[j].name != name,
    ensures
        selected(arms_for(functions, role, type_map, handlers), name, 0) == handler_rule(
            handler_for(handlers, name, role, 0),
        ),
{
    let base = function_arms(functions, role, type_map, handlers, functions.len());
    lemma_function_arms_other_name(functions, role, type_map, handlers, name, functions.len());
    lemma_handler_arms_select(base, handlers, role, name, handlers.len());
    assert(handlers.take(handlers.len() as int) =~= handlers);
}

/// An arm of the first `n` operations is keyed by `name` where one of
/// these operations has the name, and only then.
proof fn lemma_function_arms_keyed(
    functions: Seq<FunctionModel>,
    role: DataDriverRole,
    type_map: Map<Seq<char>, Seq<char>>,
    handlers: Seq<HandlerModel>,
    name: Seq<char>,
    n: nat,
)
    requires
        n <= functions.len(),
    ensures
        keyed(function_arms(functions, role, type_map, handlers, n), name) <==> exists|j: int|
            0 <= j < n && functions[j].name == name,
    decreases n,
{
    if n > 0 {
        let prev = function_arms(functions, role, type_map, handlers, (n - 1) as nat);
        let f = functions[n - 1];
        lemma_function_arms_keyed(functions, role, type_map, handlers, name, (n - 1) as nat);
        if !keyed(prev, f.name) {
            lemma_selected_push(prev, function_arm(f, role, type_map, handlers), name, 0);
        }
        if keyed(function_arms(functions, role, type_map, handlers, n), name) {
            if keyed(prev, name) {
                let j = choose|j: int| 0 <= j < n - 1 && functions[j].name == name;
                assert(0 <= j < n && functions[j].name == name);
            } else {
                assert(0 <= n - 1 < n && functions[n - 1].name == name);
            }
        }
        if exists|j: int| 0 <= j < n && functions[j].name == name {
            let j = choose|j: int| 0 <= j < n && functions[j].name == name;
            if j < n - 1 {
                assert(0 <= j < n - 1 && functions[j].name == name);
            }
        }
    }
}

/// The arms of the operations are the arms of the operations that are the
/// first of their name, one each and in their order.
proof fn lemma_function_arms_of_leading(
    functions: Seq<FunctionModel>,
    role: DataDriverRole,
    type_map: Map<Seq<char>, Seq<char>>,
    handlers: Seq<HandlerModel>,
    n: nat,
)
    requires
        n <= functions.len(),
    ensures
        function_arms(functions, role, type_map, handlers, n).len() == leading_functions(
            functions,
            n,
        ).len(),
        forall|k: int|
            0 <= k < leading_functions(functions, n).len() ==> #[trigger] function_arms(
                functions,
                role,
                type_map,
                handlers,
                n,
            )[k] == function_arm(leading_functions(functions, n)[k], role, type_map, handlers),
    decreases n,
{
    if n > 0 {
        let prev = function_arms(functions, role, type_map, handlers, (n - 1) as nat);
        let f = functions[n - 1];
        lemma_function_arms_of_leading(functions, role, type_map, handlers, (n - 1) as nat);
        lemma_function_arms_keyed(functions, role, type_map, handlers, f.name, (n - 1) as nat);
        if keyed(prev, f.name) {
            let j = choose|j: int| 0 <= j < n - 1 && functions[j].name == f.name;
            assert(!first_of_its_name(functions, n - 1));
        } else {
            assert(first_of_its_name(functions, n - 1)) by {
                assert forall|j: int| 0 <= j < n - 1 implies functions[j].name != f.name by {
                    if functions[j].name == f.name {
                        assert(0 <= j < n - 1 && functions[j].name == f.name);
                    }
                }
            }
        }
    }
}

/// The arms of handlers follow the arms before them and change none.
proof fn lemma_handler_arms_keep_base(
    base: Seq<ArmModel>,
    handlers: Seq<HandlerModel>,
    role: DataDriverRole,
    n: nat,
)
    ensures
        base.len() <= handler_arms(base, handlers, role, n).len(),
        forall|k: int|
            0 <= k < base.len() ==> #[trigger] handler_arms(base, handlers, role, n)[k] == base[k],
    decreases n,
{
    if n == 0 || n > handlers.len() {
    } else {
        lemma_handler_arms_keep_base(base, handlers, role, (n - 1) as nat);
    }
}

/// Operations with distinct names are all the first of their name.
pub proof fn lemma_distinct_names_lead(functions: Seq<FunctionModel>, n: nat)
    requires
        n <= functions.len(),
        forall|i: int, j: int| 0 <= i < j < functions.len() ==> functions[i].name != functions[j].name,
    ensures
        leading_functions(functions, n) == functions.take(n as int),
    decreases n,
{
    if n > 0 {
        lemma_distinct_names_lead(functions, (n - 1) as nat);
        assert(first_of_its_name(functions, n - 1));
        assert(functions.take(n as int) =~= functions.take(n - 1).push(functions[n - 1]));
    } else {
        assert(functions.take(0) =~= Seq::<FunctionModel>::empty());
    }
}

/// The table of a role, position by position: its first arms are those of
/// the operations that are the first of their name, one each and in
/// their order, each with the operation's name and rule.
pub proof fn lemma_arms_of_the_operations(
    functions: Seq<FunctionModel>,
    role: DataDriverRole,
    type_map: Map<Seq<char>, Seq<char>>,
    handlers: Seq<HandlerModel>,
)
    ensures
        leading_functions(functions, functions.len()).len() <= arms_for(
            functions,
            role,
            type_map,
            handlers,
        ).len(),
        forall|k: int|
            0 <= k < leading_functions(functions, functions.len()).len() ==> #[trigger] arms_for(
                functions,
                role,
                type_map,
                handlers,
            )[k] == function_arm(
                leading_functions(functions, functions.len())[k],
                role,
                type_map,
                handlers,
            ),
{
    let base = function_arms(functions, role, type_map, handlers, functions.len());
    lemma_function_arms_of_leading(functions, role, type_map, handlers, functions.len());
    lemma_handler_arms_keep_base(base, handlers, role, handlers.len());
    let arms = arms_for(functions, role, type_map, handlers);
    assert forall|k: int|
        0 <= k < leading_functions(functions, functions.len()).len() implies #[trigger] arms[k]
        == function_arm(
        leading_functions(functions, functions.len())[k],
        role,
        type_map,
        handlers,
    ) by {
        assert(arms[k] == base[k]);
    }
}

/// Matching encode and decode rules: the table that encodes inputs and
/// the table that decodes them hold, position by position, arms of the
/// same operation under the same name; for an operation that is not
/// custom both rules are the generic conversion, of the same type.
pub proof fn lemma_encode_and_decode_rules_match(
    functions: Seq<FunctionModel>,
    type_map: Map<Seq<char>, Seq<char>>,
    handlers: Seq<HandlerModel>,
)
    ensures
        ({
            let leading = leading_functions(functions, functions.len());
            let encode = arms_for(functions, DataDriverRole::EncodeInput, type_map, handlers);
            let decode = arms_for(functions, DataDriverRole::DecodeInput, type_map, handlers);
            &&& leading.len() <= encode.len()
            &&& leading.len() <= decode.len()
            &&& forall|k: int|
                0 <= k < leading.len() ==> {
                    &&& (#[trigger] encode[k]).name == leading[k].name
                    &&& decode[k].name == leading[k].name
                    &&& !leading[k].is_custom ==> encode[k].rule == (RuleModel::Convert {
                        ty: codec_type(leading[k].input_type, type_map),
                    }) && decode[k].rule == encode[k].rule
                }
        }),
{
    lemma_arms_of_the_operations(functions, DataDriverRole::EncodeInput, type_map, handlers);
    lemma_arms_of_the_operations(functions, DataDriverRole::DecodeInput, type_map, handlers);
    let leading = leading_functions(functions, functions.len());
    let encode = arms_for(functions, DataDriverRole::EncodeInput, type_map, handlers);
    let decode = arms_for(functions, DataDriverRole::DecodeInput, type_map, handlers);
    assert forall|k: int| 0 <= k < leading.len() implies {
        &&& (#[trigger] encode[k]).name == leading[k].name
        &&& decode[k].name == leading[k].name
        &&& !leading[k].is_custom ==> encode[k].rule == (RuleModel::Convert {
            ty: codec_type(leading[k].input_type, type_map),
        }) && decode[k].rule == encode[k].rule
    } by {
        assert(decode[k] == function_arm(
            leading[k],
            DataDriverRole::DecodeInput,
            type_map,
            handlers,
        ));
    }
}

/// One rule per name: in the table of a role no two arms are keyed by one
/// name, whatever operations and handlers it is generated from.
pub proof fn lemma_one_arm_per_name(
    functions: Seq<FunctionModel>,
    role: DataDriverRole,
    type_map: Map<Seq<char>, Seq<char>>,
    handlers: Seq<HandlerModel>,
)
    ensures
        distinct_names(arms_for(functions, role, type_map, handlers)),
{
    lemma_function_arms_distinct(functions, role, type_map, handlers, functions.len());
    lemma_handler_arms_extend(
        function_arms(functions, role, type_map, handlers, functions.len()),
        handlers,
        role,
        handlers.len(),
        Seq::empty(),
    );
}

/// Custom override mutual exclusion: the table of a role holds exactly
/// one arm under an operation's name, with the rule of the first
/// operation of the name, and a lookup of the name selects it; for a
/// custom operation that rule is its handler or the "custom handler
/// required" failure, never a generic rule; for any other operation it is
/// a generic rule, never a handler, whatever handlers are registered.
pub proof fn lemma_custom_and_generic_rules_exclude_each_other(
    functions: Seq<FunctionModel>,
    role: DataDriverRole,
    type_map: Map<Seq<char>, Seq<char>>,
    handlers: Seq<HandlerModel>,
    at: int,
)
    requires
        0 <= at < functions.len(),
        forall|j: int| 0 <= j < at ==> functions[j].name != functions[at].name,
    ensures
        ({
            let arms = arms_for(functions, role, type_map, handlers);
            let rule = selected(arms, functions[at].name, 0);
            &&& rule == Some(rule_for(functions[at], role, type_map, handlers))
            &&& functions[at].is_custom ==> (rule->0 is Handler || rule->0 is CustomRequired)
            &&& !functions[at].is_custom ==> (rule->0 is Convert || rule->0 is Null || rule->0
                is U64)
            &&& exists|i: int| 0 <= i < arms.len() && arms[i].name == functions[at].name
            &&& forall|i: int, j: int|
                0 <= i < arms.len() && 0 <= j < arms.len() && arms[i].name == functions[at].name
                    && arms[j].name == functions[at].name ==> i == j
            &&& forall|i: int|
                0 <= i < arms.len() && arms[i].name == functions[at].name ==> arms[i].rule
                    == rule_for(functions[at], role, type_map, handlers)
        }),
{
    let base = function_arms(functions, role, type_map, handlers, functions.len());
    lemma_function_arms_select(functions, role, type_map, handlers, at, functions.len());
    lemma_function_arms_distinct(functions, role, type_map, handlers, functions.len());
    lemma_handler_arms_extend(base, handlers, role, handlers.len(), functions[at].name);
    let arms = arms_for(functions, role, type_map, handlers);
    assert forall|i: int, j: int|
        0 <= i < arms.len() && 0 <= j < arms.len() && arms[i].name == functions[at].name
            && arms[j].name == functions[at].name implies i == j by {
        if i < j {
            assert(arms[i].name != arms[j].name);
        } else if j < i {
            assert(arms[j].name != arms[i].name);
        }
    }
    let found = lemma_selected_is_an_arm(arms, functions[at].name, 0);
    assert forall|i: int|
        0 <= i < arms.len() && arms[i].name == functions[at].name implies arms[i].rule == rule_for(
        functions[at],
        role,
        type_map,
        handlers,
    ) by {
        assert(i == found);
    }
}

/// One rule per event: an event table that is generated holds one rule
/// for each event, in the order of the events, and none is left out.
pub proof fn lemma_one_rule_per_event(
    events: Seq<EventModel>,
    type_map: Map<Seq<char>, Seq<char>>,
    n: nat,
)
    requires
        n <= events.len(),
        event_arms(events, type_map, n) is Ok,
    ensures
        event_arms(events, type_map, n)->Ok_0.len() == n,
        forall|i: int|
            0 <= i < n ==> event_arm(#[trigger] events[i], type_map) == Ok::<
                EventArmModel,
                ErrorModel,
            >(event_arms(events, type_map, n)->Ok_0[i]),
    decreases n,
{
    if n > 0 {
        lemma_one_rule_per_event(events, type_map, (n - 1) as nat);
    }
}

/// The text of the unit type is `()` and that of the plain name `u64` is
/// `u64`.
pub proof fn lemma_fast_path_texts()
    ensures
        type_text(crate::declaration::unit_type()) == "()"@,
        type_text(crate::declaration::simple_path("u64"@)) == "u64"@,
{
    reveal_strlit("(");
    reveal_strlit(")");
    reveal_strlit("()");
    reveal_strlit("u64");
    let none = Map::<Seq<char>, Seq<char>>::empty();
    let unit = crate::declaration::unit_type();
    assert(crate::resolve::resolved_types(unit->elems, none) =~= Seq::<Seq<char>>::empty());
    assert(type_text(unit) =~= "()"@);
    crate::resolve::lemma_bare_name_resolution("u64"@, none);
}

/// Output-type fast paths: an operation that is not custom and returns no
/// value decodes to the null value, one that returns a 64-bit unsigned
/// integer uses the dedicated integer path; in neither case is the generic
/// structural conversion selected.
pub proof fn lemma_output_fast_paths(
    f: FunctionModel,
    type_map: Map<Seq<char>, Seq<char>>,
    handlers: Seq<HandlerModel>,
)
    requires
        !f.is_custom,
        f.feed_type is None,
    ensures
        f.output_type == crate::declaration::unit_type() ==> rule_for(
            f,
            DataDriverRole::DecodeOutput,
            type_map,
            handlers,
        ) == RuleModel::Null,
        f.output_type == crate::declaration::simple_path("u64"@) ==> rule_for(
            f,
            DataDriverRole::DecodeOutput,
            type_map,
            handlers,
        ) == RuleModel::U64,
{
    lemma_fast_path_texts();
    reveal_strlit("()");
    reveal_strlit("u64");
    assert("()"@ != "u64"@) by {
        assert("()"@.len() == 2);
        assert("u64"@.len() == 3);
    }
}

// ---------------------------------------------------------------------------
// Generation
// ---------------------------------------------------------------------------
/// Chooses between a type's own text and its resolved text: the resolved
/// text where there is one and it reads as a type.
pub fn choose_type(written: String, resolved: Option<&String>, reads_as_type: bool) -> (r: String)
    ensures
        r@ == chosen_type(written@, crate::error::optional_text(
            match resolved {
                Some(text) => Some(*text),
                None => None,
            },
        ), reads_as_type),
{
    match resolved {
        Some(text) => if reads_as_type {
            text.clone()
        } else {
            written
        },
        None => written,
    }
}

/// Looks up the resolved text of a type in the resolution table; the
/// type's own text is used where the table has none that reads as a type.
pub fn get_resolved_type(ty: &TypeExpr, type_map: &TypeMap) -> (r: String)
    ensures
        r@ == codec_type(ty@, type_map@),
{
    let none = StringMap::new();
    let key = resolve_type(ty, &none);
    let resolved = type_map.get(key.as_str());
    let reads_as_type = match resolved {
        Some(text) => parses_as_type(text.as_str()),
        None => false,
    };
    choose_type(key, resolved, reads_as_type)
}

/// Finds the handler registered for `name` in the role `role`.
fn find_handler<'a>(
    custom_handlers: &'a Vec<CustomDataDriverHandler>,
    name: &str,
    role: DataDriverRole,
) -> (r: Option<&'a String>)
    ensures
        crate::error::optional_text(
            match r {
                Some(h) => Some(*h),
                None => None,
            },
        ) == handler_for(handlers_view(custom_handlers@), name@, role, 0),
{
    let ghost models = handlers_view(custom_handlers@);
    let mut i: usize = 0;
    while i < custom_handlers.len()
        invariant
            i <= custom_handlers.len(),
            models == handlers_view(custom_handlers@),
            handler_for(models, name@, role, 0) == handler_for(models, name@, role, i as int),
        decreases custom_handlers.len() - i,
    {
        let h = &custom_handlers[i];
        proof {
            assert(models[i as int] == h@);
        }
        if same_text(h.fn_name.as_str(), name) && h.role == role {
            return Some(&h.handler);
        }
        i = i + 1;
    }
    None
}

/// Picks the generic rule that decodes a value of the type `ty`.
pub fn output_rule(ty: &TypeExpr, type_map: &TypeMap) -> (r: CodecRule)
    ensures
        r@ == output_conversion(ty@, type_map@),
{
    let none = StringMap::new();
    let text = resolve_type(ty, &none);
    if same_text(text.as_str(), "()") {
        CodecRule::Null
    } else if same_text(text.as_str(), "u64") {
        CodecRule::U64
    } else {
        CodecRule::Convert { ty: get_resolved_type(ty, type_map) }
    }
}

/// Generates the rule of one operation in one role.
fn rule(
    f: &FunctionInfo,
    role: DataDriverRole,
    type_map: &TypeMap,
    custom_handlers: &Vec<CustomDataDriverHandler>,
) -> (r: CodecRule)
    ensures
        r@ == rule_for(f@, role, type_map@, handlers_view(custom_handlers@)),
{
    if f.is_custom {
        match find_handler(custom_handlers, f.name.as_str(), role) {
            Some(handler) => CodecRule::Handler { handler: handler.clone() },
            None => CodecRule::CustomRequired,
        }
    } else {
        match role {
            DataDriverRole::DecodeOutput => match &f.feed_type {
                Some(t) => output_rule(t, type_map),
                None => output_rule(&f.output_type, type_map),
            },
            _ => CodecRule::Convert { ty: get_resolved_type(&f.input_type, type_map) },
        }
    }
}

/// Tells whether some arm of `arms` is keyed by `name`.
fn has_arm(arms: &Vec<CodecArm>, name: &str) -> (r: bool)
    ensures
        r == keyed(arms_view(arms@), name@),
{
    let ghost models = arms_view(arms@);
    let mut i: usize = 0;
    while i < arms.len()
        invariant
            i <= arms.len(),
            models == arms_view(arms@),
            selected(models, name@, 0) == selected(models, name@, i as int),
        decreases arms.len() - i,
    {
        proof {
            assert(models[i as int] == arms@[i as int]@);
        }
        if same_text(arms[i].name.as_str(), name) {
            return true;
        }
        i = i + 1;
    }
    false
}

/// Generates the table of one role.
fn generate_arms(
    functions: &Vec<FunctionInfo>,
    role: DataDriverRole,
    type_map: &TypeMap,
    custom_handlers: &Vec<CustomDataDriverHandler>,
) -> (r: Vec<CodecArm>)
    ensures
        arms_view(r@) == arms_for(
            functions_view(functions@),
            role,
            type_map@,
            handlers_view(custom_handlers@),
        ),
{
    let ghost fs = functions_view(functions@);
    let ghost hs = handlers_view(custom_handlers@);
    let mut arms: Vec<CodecArm> = Vec::new();
    let mut i: usize = 0;
    proof {
        assert(arms_view(arms@) =~= function_arms(fs, role, type_map@, hs, 0));
    }
    while i < functions.len()
        invariant
            i <= functions.len(),
            fs == functions_view(functions@),
            hs == handlers_view(custom_handlers@),
            arms_view(arms@) == function_arms(fs, role, type_map@, hs, i as nat),
        decreases functions.len() - i,
    {
        let f = &functions[i];
        proof {
            assert(fs[i as int] == f@);
        }
        if !has_arm(&arms, f.name.as_str()) {
            let arm = CodecArm {
                name: f.name.clone(),
                rule: rule(f, role, type_map, custom_handlers),
            };
            proof {
                assert(arms_view(arms@.push(arm)) =~= arms_view(arms@).push(arm@));
            }
            arms.push(arm);
        }
        i = i + 1;
    }
    let ghost base = arms_view(arms@);
    let mut k: usize = 0;
    while k < custom_handlers.len()
        invariant
            k <= custom_handlers.len(),
            hs == handlers_view(custom_handlers@),
            arms_view(arms@) == handler_arms(base, hs, role, k as nat),
        decreases custom_handlers.len() - k,
    {
        let h = &custom_handlers[k];
        proof {
            assert(hs[k as int] == h@);
        }
        if h.role == role && !has_arm(&arms, h.fn_name.as_str()) {
            let arm = CodecArm {
                name: h.fn_name.clone(),
                rule: CodecRule::Handler { handler: h.handler.clone() },
            };
            proof {
                assert(arms_view(arms@.push(arm)) =~= arms_view(arms@).push(arm@));
            }
            arms.push(arm);
        }
        k = k + 1;
    }
    arms
}

/// Generates the rules that encode the input of each operation.
pub fn generate_encode_input_arms(
    functions: &Vec<FunctionInfo>,
    type_map: &TypeMap,
    custom_handlers: &Vec<CustomDataDriverHandler>,
) -> (r: Vec<CodecArm>)
    ensures
        arms_view(r@) == arms_for(
            functions_view(functions@),
            DataDriverRole::EncodeInput,
            type_map@,
            handlers_view(custom_handlers@),
        ),
{
    generate_arms(functions, DataDriverRole::EncodeInput, type_map, custom_handlers)
}

/// Generates the rules that decode the input of each operation.
pub fn generate_decode_input_arms(
    functions: &Vec<FunctionInfo>,
    type_map: &TypeMap,
    custom_handlers: &Vec<CustomDataDriverHandler>,
) -> (r: Vec<CodecArm>)
    ensures
        arms_view(r@) == arms_for(
            functions_view(functions@),
            DataDriverRole::DecodeInput,
            type_map@,
            handlers_view(custom_handlers@),
        ),
{
    generate_arms(functions, DataDriverRole::DecodeInput, type_map, custom_handlers)
}

/// Generates the rules that decode the output of each operation.
pub fn generate_decode_output_arms(
    functions: &Vec<FunctionInfo>,
    type_map: &TypeMap,
    custom_handlers: &Vec<CustomDataDriverHandler>,
) -> (r: Vec<CodecArm>)
    ensures
        arms_view(r@) == arms_for(
            functions_view(functions@),
            DataDriverRole::DecodeOutput,
            type_map@,
            handlers_view(custom_handlers@),
        ),
{
    generate_arms(functions, DataDriverRole::DecodeOutput, type_map, custom_handlers)
}

/// Decides the key of the rule of an event whose topic was written as a
/// path, from the resolved topic, the identifiers of its segments where
/// it reads as a path, and whether the first of them starts with a
/// lowercase letter. A path of one lowercase identifier has no key: the
/// caller reports it.
pub fn topic_key(topic: String, parsed: &Option<Vec<String>>, lowercase_start: bool) -> (r: Option<
    EventKey,
>)
    ensures
        match r {
            Some(key) => Some(key@),
            None => None,
        } == key_of(
            topic@,
            match parsed {
                Some(idents) => Some(idents.deep_view()),
                None => None,
            },
            lowercase_start,
        ),
{
    match parsed {
        None => Some(EventKey::Literal { text: topic }),
        Some(idents) => if idents.len() == 1 && lowercase_start {
            None
        } else {
            Some(EventKey::Constant { path: topic })
        },
    }
}

/// Generates the decode rule of one event.
fn decode_event_arm(e: &EventInfo, type_map: &TypeMap) -> (r: Result<EventArm, ContractError>)
    ensures
        match r {
            Ok(arm) => Ok(arm@),
            Err(e) => Err(e@),
        } == event_arm(e@, type_map@),
{
    let topic = match type_map.get(e.topic.as_str()) {
        Some(resolved) => resolved.clone(),
        None => e.topic.clone(),
    };
    if e.topic_is_literal {
        return Ok(
            EventArm {
                key: EventKey::Literal { text: topic },
                ty: get_resolved_type(&e.data_type, type_map),
            },
        );
    }
    let parsed = parse_path(topic.as_str());
    let lowercase_start = match &parsed {
        Some(idents) => {
            if idents.len() > 0 {
                let first = to_chars(idents[0].as_str());
                proof {
                    assert(idents.deep_view()[0] == idents@[0]@);
                }
                first.len() > 0 && is_lowercase(first[0])
            } else {
                false
            }
        },
        None => false,
    };
    match topic_key(topic, &parsed, lowercase_start) {
        Some(key) => Ok(EventArm { key, ty: get_resolved_type(&e.data_type, type_map) }),
        None => Err(ContractError::new(Rule::VariableTopic, e.topic.as_str())),
    }
}

/// An event table that could not be generated for the first `n` events
/// cannot be generated for more of them.
proof fn lemma_event_error_sticks(
    events: Seq<EventModel>,
    type_map: Map<Seq<char>, Seq<char>>,
    n: nat,
    m: nat,
)
    requires
        n <= m <= events.len(),
        event_arms(events, type_map, n) is Err,
    ensures
        event_arms(events, type_map, m) == event_arms(events, type_map, n),
    decreases m,
{
    if n < m {
        lemma_event_error_sticks(events, type_map, n, (m - 1) as nat);
    }
}

/// Generates the rules that decode the data of each event, one per event
/// and in order, keyed by the topic in resolved form. A topic written as
/// a string literal keys its rule as a literal; a topic written as a path
/// keys it as the constant that the path names. An event whose topic is a
/// path of one lowercase identifier stops the generation with a
/// diagnostic.
pub fn generate_decode_event_arms(events: &Vec<EventInfo>, type_map: &TypeMap) -> (r: Result<
    Vec<EventArm>,
    ContractError,
>)
    ensures
        event_arms_result(r) == event_arms(events_view(events@), type_map@, events@.len()),
        r is Ok ==> r->Ok_0@.len() == events@.len(),
{
    let ghost es = events_view(events@);
    let mut arms: Vec<EventArm> = Vec::new();
    let mut i: usize = 0;
    proof {
        assert(event_arms_view(arms@) =~= Seq::<EventArmModel>::empty());
    }
    while i < events.len()
        invariant
            i <= events.len(),
            arms.len() == i,
            es == events_view(events@),
            event_arms(es, type_map@, i as nat) == Ok::<Seq<EventArmModel>, ErrorModel>(
                event_arms_view(arms@),
            ),
        decreases events.len() - i,
    {
        proof {
            assert(es[i as int] == events@[i as int]@);
        }
        match decode_event_arm(&events[i], type_map) {
            Ok(arm) => {
                proof {
                    assert(event_arms_view(arms@.push(arm)) =~= event_arms_view(arms@).push(
                        arm@,
                    ));
                }
                arms.push(arm);
            },
            Err(e) => {
                proof {
                    lemma_event_error_sticks(es, type_map@, (i + 1) as nat, events@.len() as nat);
                }
                return Err(e);
            },
        }
        i = i + 1;
    }
    Ok(arms)
}

/// The codec table of a contract.
#[derive(Debug)]
pub struct CodecTable {
    pub encode_input: Vec<CodecArm>,
    pub decode_input: Vec<CodecArm>,
    pub decode_output: Vec<CodecArm>,
    pub decode_event: Vec<EventArm>,
    /// The text of each custom handler function.
    pub handler_sources: Vec<String>,
}

/// Model of [`CodecTable`].
pub struct CodecTableModel {
    pub encode_input: Seq<ArmModel>,
    pub decode_input: Seq<ArmModel>,
    pub decode_output: Seq<ArmModel>,
    pub decode_event: Seq<EventArmModel>,
    pub handler_sources: Seq<Seq<char>>,
}

impl View for CodecTable {
    type V = CodecTableModel;

    open spec fn view(&self) -> CodecTableModel {
        CodecTableModel {
            encode_input: arms_view(self.encode_input@),
            decode_input: arms_view(self.decode_input@),
            decode_output: arms_view(self.decode_output@),
            decode_event: event_arms_view(self.decode_event@),
            handler_sources: self.handler_sources.deep_view(),
        }
    }
}

/// The codec table of a contract: the three tables of its operations, the
/// table of its events and the texts of its custom handlers; or the
/// diagnostic of the first event that gets no rule.
pub open spec fn codec_table_of(
    type_map: Map<Seq<char>, Seq<char>>,
    functions: Seq<FunctionModel>,
    events: Seq<EventModel>,
    handlers: Seq<HandlerModel>,
) -> Result<CodecTableModel, ErrorModel> {
    match event_arms(events, type_map, events.len()) {
        Err(e) => Err(e),
        Ok(decode_event) => Ok(
            CodecTableModel {
                encode_input: arms_for(functions, DataDriverRole::EncodeInput, type_map, handlers),
                decode_input: arms_for(functions, DataDriverRole::DecodeInput, type_map, handlers),
                decode_output: arms_for(
                    functions,
                    DataDriverRole::DecodeOutput,
                    type_map,
                    handlers,
                ),
                decode_event,
                handler_sources: handlers.map_values(|h: HandlerModel| h.source),
            },
        ),
    }
}

/// The model of a generated codec table or its diagnostic.
pub open spec fn codec_table_result(r: Result<CodecTable, ContractError>) -> Result<
    CodecTableModel,
    ErrorModel,
> {
    match r {
        Ok(table) => Ok(table@),
        Err(e) => Err(e@),
    }
}

/// Generates the codec table of a contract.
pub fn module(
    type_map: &TypeMap,
    functions: &Vec<FunctionInfo>,
    events: &Vec<EventInfo>,
    custom_handlers: &Vec<CustomDataDriverHandler>,
) -> (r: Result<CodecTable, ContractError>)
    ensures
        codec_table_result(r) == codec_table_of(
            type_map@,
            functions_view(functions@),
            events_view(events@),
            handlers_view(custom_handlers@),
        ),
{
    let decode_event = match generate_decode_event_arms(events, type_map) {
        Ok(arms) => arms,
        Err(e) => {
            return Err(e);
        },
    };
    let encode_input = generate_encode_input_arms(functions, type_map, custom_handlers);
    let decode_input = generate_decode_input_arms(functions, type_map, custom_handlers);
    let decode_output = generate_decode_output_arms(functions, type_map, custom_handlers);
    let mut handler_sources: Vec<String> = Vec::new();
    let mut i: usize = 0;
    while i < custom_handlers.len()
        invariant
            i <= custom_handlers.len(),
            handler_sources.len() == i,
            forall|j: int| 0 <= j < i ==> handler_sources@[j]@ == custom_handlers@[j]@.source,
        decreases custom_handlers.len() - i,
    {
        handler_sources.push(custom_handlers[i].source.clone());
        i = i + 1;
    }
    proof {
        assert(handler_sources.deep_view() =~= handlers_view(custom_handlers@).map_values(
            |h: HandlerModel| h.source,
        ));
    }
    Ok(CodecTable { encode_input, decode_input, decode_output, decode_event, handler_sources })
}

} // verus!
