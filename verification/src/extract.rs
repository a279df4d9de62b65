//! Extraction of operations and events from the operation groups.

use crate::declaration::{
    ArgExpr, ArgExprModel, AttrArgs, AttrArgsModel, Attribute, AttributeModel, CallSite,
    CallSiteModel, Delimiter, ImplBlock, MethodDecl, MethodModel, ParamDeclModel, SelfParam,
    Token, TokenModel, TypeExpr, TypeModel, ident_path, unit_type,
};
use crate::descriptor::{
    EventInfo, EventModel, FunctionInfo, FunctionModel, ParameterInfo, ParameterModel, Receiver,
    TraitImplInfo, events_view, functions_view, parameters_view,
};
use crate::error::{ContractError, ErrorModel, Rule, plain_error};
use crate::text::{
    contains, contains_seq, join, join_seq, same_text, strip_char, strip_seq, trim, trim_seq,
};
use crate::validate::{is_exported, trait_method, trait_method_check};
use vstd::prelude::*;

verus! {

// ---------------------------------------------------------------------------
// Attributes
// ---------------------------------------------------------------------------
/// The documentation lines among the first `n` attributes, each trimmed.
pub open spec fn doc_lines(attrs: Seq<AttributeModel>, n: nat) -> Seq<Seq<char>>
    decreases n,
{
    if n == 0 || n > attrs.len() {
        Seq::empty()
    } else {
        let prev = doc_lines(attrs, (n - 1) as nat);
        match attrs[n - 1].args {
            AttrArgsModel::Str { value } if attrs[n - 1].name == "doc"@ => prev.push(
                trim_seq(value),
            ),
            _ => prev,
        }
    }
}

/// The documentation of a declaration: its documentation lines joined by
/// single spaces, or nothing where it has none.
pub open spec fn doc_comment(attrs: Seq<AttributeModel>) -> Option<Seq<char>> {
    let lines = doc_lines(attrs, attrs.len());
    if lines.len() == 0 {
        None
    } else {
        Some(join_seq(lines, " "@))
    }
}

/// `a` is a contract annotation whose argument list mentions `custom`.
pub open spec fn marks_custom(a: AttributeModel) -> bool {
    match a.args {
        AttrArgsModel::List { text, tokens } => a.name == "contract"@ && contains_seq(
            text,
            "custom"@,
        ),
        _ => false,
    }
}

/// One of the first `n` attributes marks the operation as custom.
pub open spec fn custom_among(attrs: Seq<AttributeModel>, n: nat) -> bool
    decreases n,
{
    if n == 0 || n > attrs.len() {
        false
    } else {
        custom_among(attrs, (n - 1) as nat) || marks_custom(attrs[n - 1])
    }
}

/// The operation is marked as needing custom serialization.
pub open spec fn custom_marked(attrs: Seq<AttributeModel>) -> bool {
    custom_among(attrs, attrs.len())
}

/// The methods that `a` lists for exposure, where it is a contract
/// annotation of the form `expose = [a, b, ..]`.
pub open spec fn exposed_by(a: AttributeModel) -> Option<Seq<Seq<char>>> {
    match a.args {
        AttrArgsModel::List { text, tokens } => {
            if a.name == "contract"@ && tokens.len() >= 3 && tokens[0] == (TokenModel::Ident {
                name: "expose"@,
            }) && tokens[1] == (TokenModel::Punct { ch: '=' }) {
                match tokens[2] {
                    TokenModel::Group { delimiter: Delimiter::Bracket, idents } => Some(idents),
                    _ => None,
                }
            } else {
                None
            }
        },
        _ => None,
    }
}

/// The exposure list of the first attribute at or after `from` that has one.
pub open spec fn exposure(attrs: Seq<AttributeModel>, from: int) -> Option<Seq<Seq<char>>>
    decreases attrs.len() - from,
{
    if from < 0 || from >= attrs.len() {
        None
    } else if exposed_by(attrs[from]) is Some {
        exposed_by(attrs[from])
    } else {
        exposure(attrs, from + 1)
    }
}

/// The text that the tokens name as the fed type, from position `from`
/// on: the literal behind the first `feeds`, without its quotes, where
/// `feeds` is followed by `=` and a literal, and nothing where it is not.
pub open spec fn feeds_in(tokens: Seq<TokenModel>, from: int) -> Option<Seq<char>>
    decreases tokens.len() - from,
{
    if from < 0 || from >= tokens.len() {
        None
    } else if tokens[from] == (TokenModel::Ident { name: "feeds"@ }) {
        if from + 2 < tokens.len() && tokens[from + 1] == (TokenModel::Punct { ch: '=' })
            && tokens[from + 2] is Literal {
            Some(strip_seq(tokens[from + 2]->text, '"'))
        } else {
            None
        }
    } else {
        feeds_in(tokens, from + 1)
    }
}

/// The text that `a` names as the fed type, where it is a contract
/// annotation with `feeds = "Type"` among its arguments.
pub open spec fn fed_by(a: AttributeModel) -> Option<Seq<char>> {
    match a.args {
        AttrArgsModel::List { text, tokens } => if a.name == "contract"@ {
            feeds_in(tokens, 0)
        } else {
            None
        },
        _ => None,
    }
}

/// The fed type's text of the first attribute at or after `from` that
/// names one.
pub open spec fn fed_text(attrs: Seq<AttributeModel>, from: int) -> Option<Seq<char>>
    decreases attrs.len() - from,
{
    if from < 0 || from >= attrs.len() {
        None
    } else if fed_by(attrs[from]) is Some {
        fed_by(attrs[from])
    } else {
        fed_text(attrs, from + 1)
    }
}

/// The models of a sequence of attributes.
pub open spec fn attrs_view(s: Seq<Attribute>) -> Seq<AttributeModel> {
    s.map_values(|a: Attribute| a@)
}

/// Collects the documentation of a declaration.
pub fn extract_doc_comment(attrs: &Vec<Attribute>) -> (r: Option<String>)
    ensures
        crate::error::optional_text(r) == doc_comment(attrs_view(attrs@)),
{
    let ghost models = attrs_view(attrs@);
    let mut docs: Vec<String> = Vec::new();
    let mut i: usize = 0;
    proof {
        assert(docs.deep_view() =~= doc_lines(models, 0));
    }
    while i < attrs.len()
        invariant
            i <= attrs.len(),
            models == attrs_view(attrs@),
            docs.deep_view() == doc_lines(models, i as nat),
        decreases attrs.len() - i,
    {
        let attr = &attrs[i];
        proof {
            assert(models[i as int] == attr@);
        }
        let ghost before = docs.deep_view();
        if same_text(attr.name.as_str(), "doc") {
            match &attr.args {
                AttrArgs::Str { value } => {
                    let line = trim(value.as_str());
                    docs.push(line);
                    proof {
                        assert(docs.deep_view() =~= before.push(trim_seq(value@)));
                    }
                },
                _ => {},
            }
        }
        i = i + 1;
    }
    if docs.len() == 0 {
        None
    } else {
        Some(join(&docs, " "))
    }
}

/// Tells whether a contract annotation marks the operation as custom.
pub fn has_custom_attribute(attrs: &Vec<Attribute>) -> (r: bool)
    ensures
        r == custom_marked(attrs_view(attrs@)),
{
    let ghost models = attrs_view(attrs@);
    let mut found = false;
    let mut i: usize = 0;
    while i < attrs.len()
        invariant
            i <= attrs.len(),
            models == attrs_view(attrs@),
            found == custom_among(models, i as nat),
        decreases attrs.len() - i,
    {
        let attr = &attrs[i];
        proof {
            assert(models[i as int] == attr@);
        }
        if same_text(attr.name.as_str(), "contract") {
            match &attr.args {
                AttrArgs::List { text, tokens } => {
                    if contains(text.as_str(), "custom") {
                        found = true;
                    }
                },
                _ => {},
            }
        }
        i = i + 1;
    }
    found
}

/// Copies a list of names.
pub fn copy_names(names: &Vec<String>) -> (r: Vec<String>)
    ensures
        r.deep_view() == names.deep_view(),
{
    let mut out: Vec<String> = Vec::new();
    let mut i: usize = 0;
    while i < names.len()
        invariant
            i <= names.len(),
            out.len() == i,
            forall|j: int| 0 <= j < i ==> out@[j]@ == names@[j]@,
        decreases names.len() - i,
    {
        out.push(names[i].clone());
        i = i + 1;
    }
    proof {
        assert(out.deep_view() =~= names.deep_view());
    }
    out
}

/// Reads the exposure list of one attribute.
fn exposed_names(attr: &Attribute) -> (r: Option<Vec<String>>)
    ensures
        match r {
            Some(list) => exposed_by(attr@) == Some(list.deep_view()),
            None => exposed_by(attr@) is None,
        },
{
    if !same_text(attr.name.as_str(), "contract") {
        return None;
    }
    match &attr.args {
        AttrArgs::List { text, tokens } => {
            if tokens.len() < 3 {
                return None;
            }
            proof {
                assert(attr@.args->tokens[0] == tokens@[0]@);
                assert(attr@.args->tokens[1] == tokens@[1]@);
                assert(attr@.args->tokens[2] == tokens@[2]@);
            }
            match &tokens[0] {
                Token::Ident { name } => {
                    if !same_text(name.as_str(), "expose") {
                        return None;
                    }
                },
                _ => {
                    return None;
                },
            }
            match &tokens[1] {
                Token::Punct { ch } => {
                    if *ch != '=' {
                        return None;
                    }
                },
                _ => {
                    return None;
                },
            }
            match &tokens[2] {
                Token::Group { delimiter, idents } => match delimiter {
                    Delimiter::Bracket => Some(copy_names(idents)),
                    _ => None,
                },
                _ => None,
            }
        },
        _ => None,
    }
}

/// Reads the list of exposed methods from the annotations of an interface
/// implementation: the first annotation of the form `expose = [a, b, ..]`.
pub fn expose_list(attrs: &Vec<Attribute>) -> (r: Option<Vec<String>>)
    ensures
        match r {
            Some(list) => exposure(attrs_view(attrs@), 0) == Some(list.deep_view()),
            None => exposure(attrs_view(attrs@), 0) is None,
        },
{
    let ghost models = attrs_view(attrs@);
    let mut i: usize = 0;
    while i < attrs.len()
        invariant
            i <= attrs.len(),
            models == attrs_view(attrs@),
            exposure(models, 0) == exposure(models, i as int),
        decreases attrs.len() - i,
    {
        proof {
            assert(models[i as int] == attrs@[i as int]@);
        }
        let found = exposed_names(&attrs[i]);
        if found.is_some() {
            return found;
        }
        i = i + 1;
    }
    None
}

/// Reads the fed type's text from the arguments of one annotation.
fn feeds_of_tokens(tokens: &Vec<Token>) -> (r: Option<String>)
    ensures
        crate::error::optional_text(r) == feeds_in(
            tokens@.map_values(|t: Token| t@),
            0,
        ),
{
    let ghost models = tokens@.map_values(|t: Token| t@);
    let mut i: usize = 0;
    while i < tokens.len()
        invariant
            i <= tokens.len(),
            models == tokens@.map_values(|t: Token| t@),
            feeds_in(models, 0) == feeds_in(models, i as int),
        decreases tokens.len() - i,
    {
        proof {
            assert(models[i as int] == tokens@[i as int]@);
        }
        let is_feeds = match &tokens[i] {
            Token::Ident { name } => same_text(name.as_str(), "feeds"),
            _ => false,
        };
        if is_feeds {
            if tokens.len() - i < 3 {
                return None;
            }
            proof {
                assert(models[i + 1] == tokens@[i + 1]@);
                assert(models[i + 2] == tokens@[i + 2]@);
            }
            let assigned = match &tokens[i + 1] {
                Token::Punct { ch } => *ch == '=',
                _ => false,
            };
            if !assigned {
                return None;
            }
            return match &tokens[i + 2] {
                Token::Literal { text } => Some(strip_char(text.as_str(), '"')),
                _ => None,
            };
        }
        i = i + 1;
    }
    None
}

/// Reads the text of the fed type from the annotations of an operation:
/// that of the first contract annotation with `feeds = "Type"` among its
/// arguments, without the quotes.
pub fn feeds_text(attrs: &Vec<Attribute>) -> (r: Option<String>)
    ensures
        crate::error::optional_text(r) == fed_text(attrs_view(attrs@), 0),
{
    let ghost models = attrs_view(attrs@);
    let mut i: usize = 0;
    while i < attrs.len()
        invariant
            i <= attrs.len(),
            models == attrs_view(attrs@),
            fed_text(models, 0) == fed_text(models, i as int),
        decreases attrs.len() - i,
    {
        let attr = &attrs[i];
        proof {
            assert(models[i as int] == attr@);
        }
        if same_text(attr.name.as_str(), "contract") {
            match &attr.args {
                AttrArgs::List { text, tokens } => {
                    let found = feeds_of_tokens(tokens);
                    proof {
                        assert(attr@.args->tokens =~= tokens@.map_values(|t: Token| t@));
                    }
                    if found.is_some() {
                        return found;
                    }
                },
                _ => {},
            }
        }
        i = i + 1;
    }
    None
}

// ---------------------------------------------------------------------------
// Events
// ---------------------------------------------------------------------------
/// The topic that the first argument of an emission names: a string
/// literal's value, or a constant path in its `a::b::C` form.
pub open spec fn topic_of(arg: ArgExprModel) -> Option<Seq<char>> {
    match arg {
        ArgExprModel::StrLit { value } => Some(value),
        ArgExprModel::Path { idents } => Some(join_seq(idents, "::"@)),
        _ => None,
    }
}

/// The data type that the second argument of an emission constructs; the
/// unit type where its form tells nothing.
pub open spec fn type_of_arg(arg: ArgExprModel) -> TypeModel {
    match arg {
        ArgExprModel::Struct { path } => path,
        ArgExprModel::CallPath { path } => path,
        ArgExprModel::Path { idents } => ident_path(idents),
        _ => unit_type(),
    }
}

/// `callee` is `abi::name` or plain `name`.
pub open spec fn names_abi_call(callee: Seq<Seq<char>>, name: Seq<char>) -> bool {
    ||| callee == seq![name]
    ||| callee == seq!["abi"@, name]
}

/// The event that `call` emits, if it is an emission with a readable topic.
pub open spec fn emitted_by(call: CallSiteModel) -> Option<EventModel> {
    if names_abi_call(call.callee, "emit"@) && call.args.len() >= 2 && topic_of(call.args[0])
        is Some {
        Some(
            EventModel {
                topic: topic_of(call.args[0])->0,
                data_type: type_of_arg(call.args[1]),
                topic_is_literal: call.args[0] is StrLit,
            },
        )
    } else {
        None
    }
}

/// The events of the first `n` calls, in order.
pub open spec fn call_events(calls: Seq<CallSiteModel>, n: nat) -> Seq<EventModel>
    decreases n,
{
    if n == 0 || n > calls.len() {
        Seq::empty()
    } else {
        let prev = call_events(calls, (n - 1) as nat);
        match emitted_by(calls[n - 1]) {
            Some(e) => prev.push(e),
            None => prev,
        }
    }
}

/// The events of the first `n` methods, in order.
pub open spec fn method_events(methods: Seq<MethodModel>, n: nat) -> Seq<EventModel>
    decreases n,
{
    if n == 0 || n > methods.len() {
        Seq::empty()
    } else {
        method_events(methods, (n - 1) as nat) + call_events(
            methods[n - 1].calls,
            methods[n - 1].calls.len(),
        )
    }
}

/// Some event among the first `n` has the topic `topic`.
pub open spec fn topic_seen(events: Seq<EventModel>, topic: Seq<char>, n: nat) -> bool
    decreases n,
{
    if n == 0 || n > events.len() {
        false
    } else {
        topic_seen(events, topic, (n - 1) as nat) || events[n - 1].topic == topic
    }
}

/// The first `n` events without those whose topic an earlier event has.
pub open spec fn dedup_by_topic(events: Seq<EventModel>, n: nat) -> Seq<EventModel>
    decreases n,
{
    if n == 0 || n > events.len() {
        Seq::empty()
    } else {
        let prev = dedup_by_topic(events, (n - 1) as nat);
        if topic_seen(events, events[n - 1].topic, (n - 1) as nat) {
            prev
        } else {
            prev.push(events[n - 1])
        }
    }
}

/// The events of an operation group: what its methods emit, one per topic.
pub open spec fn block_events(methods: Seq<MethodModel>) -> Seq<EventModel> {
    let all = method_events(methods, methods.len());
    dedup_by_topic(all, all.len())
}

/// Whether a topic is seen among the first `n` events depends on those
/// events alone.
pub proof fn lemma_topic_seen_prefix(
    a: Seq<EventModel>,
    b: Seq<EventModel>,
    topic: Seq<char>,
    n: nat,
)
    requires
        n <= a.len(),
        n <= b.len(),
        forall|j: int| 0 <= j < n ==> a[j] == b[j],
    ensures
        topic_seen(a, topic, n) == topic_seen(b, topic, n),
    decreases n,
{
    if n > 0 {
        lemma_topic_seen_prefix(a, b, topic, (n - 1) as nat);
    }
}

/// The topic of the event at `i` is seen among the first `n` events for
/// every `n` beyond `i`.
pub proof fn lemma_topic_seen_at(events: Seq<EventModel>, i: int, n: nat)
    requires
        0 <= i < n <= events.len(),
    ensures
        topic_seen(events, events[i].topic, n),
    decreases n,
{
    if i < n - 1 {
        lemma_topic_seen_at(events, i, (n - 1) as nat);
    }
}

/// Deduplication keeps the set of topics: a topic is among the kept events
/// exactly if it is among the events.
pub proof fn lemma_dedup_topics(events: Seq<EventModel>, topic: Seq<char>, n: nat)
    requires
        n <= events.len(),
    ensures
        topic_seen(dedup_by_topic(events, n), topic, dedup_by_topic(events, n).len())
            == topic_seen(events, topic, n),
    decreases n,
{
    if n > 0 {
        let m = (n - 1) as nat;
        let prev = dedup_by_topic(events, m);
        let kept = dedup_by_topic(events, n);
        let last = events[n - 1];
        lemma_dedup_topics(events, topic, m);
        lemma_dedup_topics(events, last.topic, m);
        if !topic_seen(events, last.topic, m) {
            assert(kept == prev.push(last));
            lemma_topic_seen_prefix(kept, prev, topic, prev.len());
        }
    }
}

/// No two kept events share a topic.
pub proof fn lemma_dedup_distinct(events: Seq<EventModel>, n: nat, k: int, l: int)
    requires
        n <= events.len(),
        0 <= k < l < dedup_by_topic(events, n).len(),
    ensures
        dedup_by_topic(events, n)[k].topic != dedup_by_topic(events, n)[l].topic,
    decreases n,
{
    if n > 0 {
        let m = (n - 1) as nat;
        let prev = dedup_by_topic(events, m);
        let last = events[n - 1];
        if topic_seen(events, last.topic, m) || l < prev.len() {
            lemma_dedup_distinct(events, m, k, l);
        } else {
            lemma_dedup_topics(events, last.topic, m);
            if prev[k].topic == last.topic {
                lemma_topic_seen_at(prev, k, prev.len());
            }
        }
    }
}

/// `e` is the first event of its topic among the first `n` events.
pub open spec fn first_of_its_topic(events: Seq<EventModel>, e: EventModel, n: nat) -> bool {
    exists|i: int| 0 <= i < n && events[i] == e && !topic_seen(events, e.topic, i as nat)
}

/// Every kept event is the first event of its topic.
pub proof fn lemma_dedup_first(events: Seq<EventModel>, n: nat, k: int)
    requires
        n <= events.len(),
        0 <= k < dedup_by_topic(events, n).len(),
    ensures
        first_of_its_topic(events, dedup_by_topic(events, n)[k], n),
    decreases n,
{
    if n > 0 {
        let m = (n - 1) as nat;
        let prev = dedup_by_topic(events, m);
        let last = events[n - 1];
        if topic_seen(events, last.topic, m) || k < prev.len() {
            lemma_dedup_first(events, m, k);
            let i = choose|i: int|
                0 <= i < m && events[i] == prev[k] && !topic_seen(events, prev[k].topic, i as nat);
            assert(0 <= i < n && events[i] == prev[k] && !topic_seen(
                events,
                prev[k].topic,
                i as nat,
            ));
        } else {
            assert(events[n - 1] == last && !topic_seen(events, last.topic, (n - 1) as nat));
        }
    }
}

/// The event list of a group holds exactly one entry per distinct topic,
/// equal to the first occurrence in declaration order: every topic of the
/// input has an entry, no two entries share a topic, and each entry is the
/// first input event of its topic.
pub proof fn lemma_dedup_one_entry_per_topic(events: Seq<EventModel>)
    ensures
        ({
            let kept = dedup_by_topic(events, events.len());
            &&& forall|i: int|
                0 <= i < events.len() ==> topic_seen(
                    kept,
                    (#[trigger] events[i]).topic,
                    kept.len(),
                )
            &&& forall|k: int, l: int|
                0 <= k < l < kept.len() ==> (#[trigger] kept[k]).topic != (
                #[trigger] kept[l]).topic
            &&& forall|k: int|
                0 <= k < kept.len() ==> first_of_its_topic(
                    events,
                    #[trigger] kept[k],
                    events.len(),
                )
        }),
{
    let kept = dedup_by_topic(events, events.len());
    assert forall|i: int| 0 <= i < events.len() implies topic_seen(
        kept,
        (#[trigger] events[i]).topic,
        kept.len(),
    ) by {
        lemma_topic_seen_at(events, i, events.len());
        lemma_dedup_topics(events, events[i].topic, events.len());
    }
    assert forall|k: int, l: int| 0 <= k < l < kept.len() implies (#[trigger] kept[k]).topic != (
    #[trigger] kept[l]).topic by {
        lemma_dedup_distinct(events, events.len(), k, l);
    }
    assert forall|k: int| 0 <= k < kept.len() implies first_of_its_topic(
        events,
        #[trigger] kept[k],
        events.len(),
    ) by {
        lemma_dedup_first(events, events.len(), k);
    }
}

/// Reads the topic from the first argument of an emission.
pub fn topic_from_expr(expr: &ArgExpr) -> (r: Option<String>)
    ensures
        crate::error::optional_text(r) == topic_of(expr@),
{
    match expr {
        ArgExpr::StrLit { value } => Some(value.clone()),
        ArgExpr::Path { idents } => Some(join(idents, "::")),
        _ => None,
    }
}

/// Reads the event's data type from the second argument of an emission.
pub fn type_from_expr(expr: &ArgExpr) -> (r: TypeExpr)
    ensures
        r@ == type_of_arg(expr@),
{
    match expr {
        ArgExpr::Struct { path } => path.duplicate(),
        ArgExpr::CallPath { path } => path.duplicate(),
        ArgExpr::Path { idents } => TypeExpr::from_idents(idents),
        _ => TypeExpr::unit(),
    }
}

/// Tells whether `callee` is `abi::name` or plain `name`.
fn is_abi_call(callee: &Vec<String>, name: &str) -> (r: bool)
    ensures
        r == names_abi_call(callee.deep_view(), name@),
{
    let r = if callee.len() == 1 {
        same_text(callee[0].as_str(), name)
    } else if callee.len() == 2 {
        same_text(callee[0].as_str(), "abi") && same_text(callee[1].as_str(), name)
    } else {
        false
    };
    proof {
        let c = callee.deep_view();
        if callee.len() == 1 {
            assert(c =~= seq![c[0]]);
            assert(seq![name@][0] == name@);
            assert(seq!["abi"@, name@].len() == 2);
        } else if callee.len() == 2 {
            assert(c =~= seq![c[0], c[1]]);
            assert(seq!["abi"@, name@][0] == "abi"@);
            assert(seq!["abi"@, name@][1] == name@);
            assert(seq![name@].len() == 1);
        } else {
            assert(seq![name@].len() == 1);
            assert(seq!["abi"@, name@].len() == 2);
        }
    }
    r
}

/// Reads the event that one call emits, if it is an emission.
fn event_of_call(call: &CallSite) -> (r: Option<EventInfo>)
    ensures
        match r {
            Some(e) => emitted_by(call@) == Some(e@),
            None => emitted_by(call@) is None,
        },
{
    if !is_abi_call(&call.callee, "emit") || call.args.len() < 2 {
        return None;
    }
    proof {
        assert(call@.args[0] == call.args@[0]@);
        assert(call@.args[1] == call.args@[1]@);
    }
    let topic_is_literal = match &call.args[0] {
        ArgExpr::StrLit { .. } => true,
        _ => false,
    };
    match topic_from_expr(&call.args[0]) {
        Some(topic) => Some(
            EventInfo { topic, data_type: type_from_expr(&call.args[1]), topic_is_literal },
        ),
        None => None,
    }
}

/// Tells whether an event with the topic `topic` is in `events`.
fn has_topic(events: &Vec<EventInfo>, topic: &str) -> (r: bool)
    ensures
        r == topic_seen(events_view(events@), topic@, events@.len()),
{
    let mut found = false;
    let mut i: usize = 0;
    while i < events.len()
        invariant
            i <= events.len(),
            found == topic_seen(events_view(events@), topic@, i as nat),
        decreases events.len() - i,
    {
        proof {
            assert(events_view(events@)[i as int] == events@[i as int]@);
        }
        if same_text(events[i].topic.as_str(), topic) {
            found = true;
        }
        i = i + 1;
    }
    found
}

/// Removes the events whose topic an earlier event has, keeping the order.
pub fn dedup_events(events: Vec<EventInfo>) -> (r: Vec<EventInfo>)
    ensures
        events_view(r@) == dedup_by_topic(events_view(events@), events@.len()),
{
    let ghost models = events_view(events@);
    let ghost total = events.len();
    let mut events = events;
    let mut kept: Vec<EventInfo> = Vec::new();
    // Events are taken from the back, so the input is reversed first.
    let mut stack: Vec<EventInfo> = Vec::new();
    while events.len() > 0
        invariant
            events.len() + stack.len() == total,
            models.len() == total,
            forall|j: int| 0 <= j < events.len() ==> events@[j]@ == models[j],
            forall|j: int| 0 <= j < stack.len() ==> stack@[j]@ == models[total - 1 - j],
        decreases events.len(),
    {
        let e = events.pop().unwrap();
        stack.push(e);
    }
    proof {
        assert(events_view(kept@) =~= dedup_by_topic(models, 0));
    }
    while stack.len() > 0
        invariant
            stack.len() <= total,
            models.len() == total,
            forall|j: int| 0 <= j < stack.len() ==> stack@[j]@ == models[total - 1 - j],
            events_view(kept@) == dedup_by_topic(models, (total - stack.len()) as nat),
        decreases stack.len(),
    {
        let ghost done = (total - stack.len()) as nat;
        let e = stack.pop().unwrap();
        proof {
            assert(e@ == models[done as int]);
            lemma_dedup_topics(models, e@.topic, done);
        }
        let seen = has_topic(&kept, e.topic.as_str());
        if !seen {
            proof {
                assert(events_view(kept@.push(e)) =~= events_view(kept@).push(e@));
            }
            kept.push(e);
        }
    }
    kept
}

/// Collects the events that the methods of an operation group emit, one
/// per topic, the first occurrence of each.
pub fn emit_calls(impl_block: &ImplBlock) -> (r: Vec<EventInfo>)
    ensures
        events_view(r@) == block_events(impl_block@.methods),
{
    let ghost methods = impl_block@.methods;
    let mut events: Vec<EventInfo> = Vec::new();
    let mut m: usize = 0;
    proof {
        assert(events_view(events@) =~= method_events(methods, 0));
    }
    while m < impl_block.methods.len()
        invariant
            m <= impl_block.methods.len(),
            methods == impl_block@.methods,
            events_view(events@) == method_events(methods, m as nat),
        decreases impl_block.methods.len() - m,
    {
        let method = &impl_block.methods[m];
        let ghost calls = methods[m as int].calls;
        let ghost before = events_view(events@);
        proof {
            assert(methods[m as int] == method@);
        }
        let mut c: usize = 0;
        proof {
            assert(before + call_events(calls, 0) =~= before);
        }
        while c < method.calls.len()
            invariant
                c <= method.calls.len(),
                calls == method@.calls,
                events_view(events@) == before + call_events(calls, c as nat),
            decreases method.calls.len() - c,
        {
            proof {
                assert(calls[c as int] == method.calls@[c as int]@);
            }
            let ghost so_far = events_view(events@);
            match event_of_call(&method.calls[c]) {
                Some(e) => {
                    proof {
                        assert(events_view(events@.push(e)) =~= so_far.push(e@));
                        assert(so_far.push(e@) =~= before + call_events(calls, c as nat).push(
                            e@,
                        ));
                    }
                    events.push(e);
                },
                None => {},
            }
            c = c + 1;
        }
        m = m + 1;
    }
    dedup_events(events)
}

// ---------------------------------------------------------------------------
// Operations
// ---------------------------------------------------------------------------
/// The descriptor of a declared parameter. A reference parameter is
/// described by its pointee type and the kind of reference; a parameter
/// without a name of its own is called `arg`.
pub open spec fn parameter_of(p: ParamDeclModel) -> ParameterModel {
    let name = if p.name.len() == 0 {
        "arg"@
    } else {
        p.name
    };
    match p.ty {
        TypeModel::Reference { mutable, elem } => ParameterModel {
            name,
            ty: *elem,
            is_ref: true,
            is_mut_ref: mutable,
        },
        _ => ParameterModel { name, ty: p.ty, is_ref: false, is_mut_ref: false },
    }
}

/// The descriptors of the declared parameters, in order.
pub open spec fn parameters_of(params: Seq<ParamDeclModel>) -> Seq<ParameterModel> {
    params.map_values(|p: ParamDeclModel| parameter_of(p))
}

/// The input type of an operation: the unit type without parameters, the
/// parameter's type with one, the tuple of the parameter types with more.
pub open spec fn input_type_of(params: Seq<ParameterModel>) -> TypeModel {
    if params.len() == 0 {
        unit_type()
    } else if params.len() == 1 {
        params[0].ty
    } else {
        TypeModel::Tuple { elems: params.map_values(|p: ParameterModel| p.ty) }
    }
}

/// The output type of an operation and whether it returns a reference: the
/// unit type where nothing is declared, the pointee of a declared reference.
pub open spec fn output_type_of(output: Option<TypeModel>) -> (TypeModel, bool) {
    match output {
        None => (unit_type(), false),
        Some(TypeModel::Reference { mutable, elem }) => (*elem, true),
        Some(t) => (t, false),
    }
}

/// How an operation with the given `self` parameter takes the instance.
pub open spec fn receiver_of(s: SelfParam) -> Receiver {
    match s {
        SelfParam::Absent => Receiver::Absent,
        SelfParam::RefMut => Receiver::RefMut,
        _ => Receiver::Ref,
    }
}

/// One of the first `n` calls feeds data to the host.
pub open spec fn feeds_among(calls: Seq<CallSiteModel>, n: nat) -> bool
    decreases n,
{
    if n == 0 || n > calls.len() {
        false
    } else {
        feeds_among(calls, (n - 1) as nat) || names_abi_call(calls[n - 1].callee, "feed"@)
    }
}

/// The operation feeds data but its declaration names no fed type.
pub open spec fn feeds_untyped(m: MethodModel) -> bool {
    feeds_among(m.calls, m.calls.len()) && m.feeds is None
}

/// The descriptor of the operation `m`, dispatched through `trait_name`
/// where that is given.
pub open spec fn function_of(m: MethodModel, trait_name: Option<Seq<char>>) -> FunctionModel {
    let params = parameters_of(m.params);
    FunctionModel {
        name: m.name,
        doc: doc_comment(m.attrs),
        params,
        input_type: input_type_of(params),
        output_type: output_type_of(m.output).0,
        is_custom: custom_marked(m.attrs),
        returns_ref: output_type_of(m.output).1,
        receiver: receiver_of(m.self_param),
        trait_name,
        feed_type: m.feeds,
    }
}

/// `m` is an operation that callers can reach: a public method of the
/// state's own operation group that is neither the constructor `new` nor
/// the initializer `init`. Those two are validated, and never listed.
pub open spec fn is_operation(m: MethodModel) -> bool {
    is_exported(m) && m.name != "init"@
}

/// The descriptors of the operations among the first `n` methods, or the
/// diagnostic of the first that feeds data without naming the fed type.
pub open spec fn public_functions(methods: Seq<MethodModel>, n: nat) -> Result<
    Seq<FunctionModel>,
    ErrorModel,
>
    decreases n,
{
    if n == 0 || n > methods.len() {
        Ok(Seq::empty())
    } else {
        match public_functions(methods, (n - 1) as nat) {
            Err(e) => Err(e),
            Ok(prev) => {
                let m = methods[n - 1];
                if !is_operation(m) {
                    Ok(prev)
                } else if feeds_untyped(m) {
                    Err(plain_error(Rule::FeedTypeMissing, m.name))
                } else {
                    Ok(prev.push(function_of(m, None)))
                }
            },
        }
    }
}

/// The diagnostic, if any, that keeps the exposed interface method `m` from
/// being extracted.
pub open spec fn exposed_method_error(m: MethodModel, trait_name: Seq<char>) -> Option<
    ErrorModel,
> {
    match trait_method_check(m, trait_name, m.body_is_empty) {
        Err(e) => Some(e),
        Ok(()) => if !m.body_is_empty && feeds_untyped(m) {
            Some(plain_error(Rule::FeedTypeMissing, m.name))
        } else {
            None
        },
    }
}

/// The descriptors of the methods among the first `n` that `expose` lists,
/// or the diagnostic of the first of them that cannot be extracted. A
/// method with an empty body is dispatched through the interface.
pub open spec fn exposed_functions(
    methods: Seq<MethodModel>,
    expose: Seq<Seq<char>>,
    trait_name: Seq<char>,
    n: nat,
) -> Result<Seq<FunctionModel>, ErrorModel>
    decreases n,
{
    if n == 0 || n > methods.len() {
        Ok(Seq::empty())
    } else {
        match exposed_functions(methods, expose, trait_name, (n - 1) as nat) {
            Err(e) => Err(e),
            Ok(prev) => {
                let m = methods[n - 1];
                if !expose.contains(m.name) {
                    Ok(prev)
                } else {
                    match exposed_method_error(m, trait_name) {
                        Some(e) => Err(e),
                        None => Ok(
                            prev.push(
                                function_of(
                                    m,
                                    if m.body_is_empty {
                                        Some(trait_name)
                                    } else {
                                        None
                                    },
                                ),
                            ),
                        ),
                    }
                }
            },
        }
    }
}

/// One of the first `n` operations is called `name`.
pub open spec fn function_named(functions: Seq<FunctionModel>, name: Seq<char>, n: nat) -> bool
    decreases n,
{
    if n == 0 || n > functions.len() {
        false
    } else {
        function_named(functions, name, (n - 1) as nat) || functions[n - 1].name == name
    }
}

/// The first name of `expose`, at or after `from`, that no operation has.
pub open spec fn first_unexposed(
    expose: Seq<Seq<char>>,
    functions: Seq<FunctionModel>,
    from: int,
) -> Option<Seq<char>>
    decreases expose.len() - from,
{
    if from < 0 || from >= expose.len() {
        None
    } else if !function_named(functions, expose[from], functions.len()) {
        Some(expose[from])
    } else {
        first_unexposed(expose, functions, from + 1)
    }
}

/// The operations that an interface implementation exposes: the listed
/// methods that the implementation holds, provided that it holds them all.
pub open spec fn trait_functions(
    methods: Seq<MethodModel>,
    expose: Seq<Seq<char>>,
    trait_name: Seq<char>,
    item: usize,
) -> Result<Seq<FunctionModel>, ErrorModel> {
    match exposed_functions(methods, expose, trait_name, methods.len()) {
        Err(e) => Err(e),
        Ok(functions) => match first_unexposed(expose, functions, 0) {
            Some(name) => Err(
                ErrorModel {
                    rule: Rule::ExposedMethodMissing,
                    subject: name,
                    owner: Some(trait_name),
                    position: Some(item),
                },
            ),
            None => Ok(functions),
        },
    }
}

/// Input-type collapsing: an operation without parameters has the unit
/// type as its input type, one with a single parameter has that
/// parameter's type, and one with more has the tuple of the parameter
/// types in their order.
pub proof fn lemma_input_type_collapses(m: MethodModel, trait_name: Option<Seq<char>>)
    ensures
        ({
            let f = function_of(m, trait_name);
            &&& f.params.len() == m.params.len()
            &&& m.params.len() == 0 ==> f.input_type == unit_type()
            &&& m.params.len() == 1 ==> f.input_type == f.params[0].ty
            &&& m.params.len() > 1 ==> f.input_type is Tuple && f.input_type->elems.len()
                == f.params.len() && forall|i: int|
                0 <= i < f.params.len() ==> #[trigger] f.input_type->elems[i] == f.params[i].ty
        }),
{
}

/// The model of an extraction result.
pub open spec fn functions_result(r: Result<Vec<FunctionInfo>, ContractError>) -> Result<
    Seq<FunctionModel>,
    ErrorModel,
> {
    match r {
        Ok(functions) => Ok(functions_view(functions@)),
        Err(e) => Err(e@),
    }
}

/// Once extraction has failed it stays failed, with the same diagnostic.
pub proof fn lemma_public_functions_error(methods: Seq<MethodModel>, n: nat, m: nat)
    requires
        n <= m <= methods.len(),
        public_functions(methods, n) is Err,
    ensures
        public_functions(methods, m) == public_functions(methods, n),
    decreases m,
{
    if n < m {
        lemma_public_functions_error(methods, n, (m - 1) as nat);
    }
}

/// Once extraction has failed it stays failed, with the same diagnostic.
pub proof fn lemma_exposed_functions_error(
    methods: Seq<MethodModel>,
    expose: Seq<Seq<char>>,
    trait_name: Seq<char>,
    n: nat,
    m: nat,
)
    requires
        n <= m <= methods.len(),
        exposed_functions(methods, expose, trait_name, n) is Err,
    ensures
        exposed_functions(methods, expose, trait_name, m) == exposed_functions(
            methods,
            expose,
            trait_name,
            n,
        ),
    decreases m,
{
    if n < m {
        lemma_exposed_functions_error(methods, expose, trait_name, n, (m - 1) as nat);
    }
}

/// Describes the parameters of a method other than `self`.
pub fn parameters(method: &MethodDecl) -> (r: Vec<ParameterInfo>)
    ensures
        parameters_view(r@) == parameters_of(method@.params),
{
    let mut out: Vec<ParameterInfo> = Vec::new();
    let mut i: usize = 0;
    while i < method.params.len()
        invariant
            i <= method.params.len(),
            out.len() == i,
            forall|j: int| 0 <= j < i ==> out@[j]@ == parameter_of(method.params@[j]@),
        decreases method.params.len() - i,
    {
        let p = &method.params[i];
        let name = if p.name.as_str().is_empty() {
            String::from_str("arg")
        } else {
            p.name.clone()
        };
        let info = match &p.ty {
            TypeExpr::Reference { mutable, elem } => ParameterInfo {
                name,
                ty: elem.duplicate(),
                is_ref: true,
                is_mut_ref: *mutable,
            },
            _ => ParameterInfo { name, ty: p.ty.duplicate(), is_ref: false, is_mut_ref: false },
        };
        out.push(info);
        i = i + 1;
    }
    proof {
        assert(parameters_view(out@) =~= parameters_of(method@.params));
    }
    out
}

/// Builds the input type from the described parameters.
pub fn input_type(params: &Vec<ParameterInfo>) -> (r: TypeExpr)
    ensures
        r@ == input_type_of(parameters_view(params@)),
{
    if params.len() == 0 {
        TypeExpr::unit()
    } else if params.len() == 1 {
        params[0].ty.duplicate()
    } else {
        let mut elems: Vec<TypeExpr> = Vec::new();
        let mut i: usize = 0;
        while i < params.len()
            invariant
                i <= params.len(),
                elems.len() == i,
                forall|j: int| 0 <= j < i ==> elems@[j]@ == params@[j]@.ty,
            decreases params.len() - i,
        {
            elems.push(params[i].ty.duplicate());
            i = i + 1;
        }
        let r = TypeExpr::Tuple { elems };
        proof {
            assert(r@->elems =~= input_type_of(parameters_view(params@))->elems);
        }
        r
    }
}

/// Reads the output type of a declared return type, and whether the
/// operation returns a reference.
pub fn output_type(ret: &Option<TypeExpr>) -> (r: (TypeExpr, bool))
    ensures
        (r.0@, r.1) == output_type_of(crate::declaration::optional_type(*ret)),
{
    match ret {
        None => (TypeExpr::unit(), false),
        Some(t) => match t {
            TypeExpr::Reference { mutable, elem } => (elem.duplicate(), true),
            _ => (t.duplicate(), false),
        },
    }
}

/// Reads how a method takes the contract instance.
pub fn extract_receiver(method: &MethodDecl) -> (r: Receiver)
    ensures
        r == receiver_of(method@.self_param),
{
    match method.self_param {
        SelfParam::Absent => Receiver::Absent,
        SelfParam::RefMut => Receiver::RefMut,
        _ => Receiver::Ref,
    }
}

/// Tells whether the body of a method feeds data to the host.
pub fn has_feed_calls(method: &MethodDecl) -> (r: bool)
    ensures
        r == feeds_among(method@.calls, method@.calls.len()),
{
    let mut found = false;
    let mut i: usize = 0;
    while i < method.calls.len()
        invariant
            i <= method.calls.len(),
            found == feeds_among(method@.calls, i as nat),
        decreases method.calls.len() - i,
    {
        proof {
            assert(method@.calls[i as int] == method.calls@[i as int]@);
        }
        if is_abi_call(&method.calls[i].callee, "feed") {
            found = true;
        }
        i = i + 1;
    }
    found
}

/// Builds the descriptor of one operation.
fn describe(method: &MethodDecl, trait_name: Option<String>) -> (r: FunctionInfo)
    ensures
        r@ == function_of(method@, crate::error::optional_text(trait_name)),
{
    let params = parameters(method);
    let input = input_type(&params);
    let (output, returns_ref) = output_type(&method.output);
    let feed_type = match &method.feeds {
        Some(t) => Some(t.duplicate()),
        None => None,
    };
    FunctionInfo {
        name: method.name.clone(),
        doc: extract_doc_comment(&method.attrs),
        params,
        input_type: input,
        output_type: output,
        is_custom: has_custom_attribute(&method.attrs),
        returns_ref,
        receiver: extract_receiver(method),
        trait_name,
        feed_type,
    }
}

/// The constructor and the initializer are no operations: no descriptor
/// extracted from an operation group is named `new` or `init`.
pub proof fn lemma_constructor_and_initializer_are_left_out(methods: Seq<MethodModel>, n: nat)
    requires
        public_functions(methods, n) is Ok,
    ensures
        forall|i: int|
            0 <= i < public_functions(methods, n)->Ok_0.len() ==> {
                &&& (#[trigger] public_functions(methods, n)->Ok_0[i]).name != "new"@
                &&& public_functions(methods, n)->Ok_0[i].name != "init"@
            },
    decreases n,
{
    if n == 0 || n > methods.len() {
    } else {
        lemma_constructor_and_initializer_are_left_out(methods, (n - 1) as nat);
    }
}

/// Extracts the operations of the state's own operation group: its public
/// methods other than the constructor and the initializer.
pub fn public_methods(impl_block: &ImplBlock) -> (r: Result<Vec<FunctionInfo>, ContractError>)
    ensures
        functions_result(r) == public_functions(impl_block@.methods, impl_block@.methods.len()),
{
    let ghost methods = impl_block@.methods;
    let mut functions: Vec<FunctionInfo> = Vec::new();
    let mut i: usize = 0;
    proof {
        assert(functions_view(functions@) =~= Seq::<FunctionModel>::empty());
    }
    while i < impl_block.methods.len()
        invariant
            i <= impl_block.methods.len(),
            methods == impl_block@.methods,
            public_functions(methods, i as nat) == Ok::<Seq<FunctionModel>, ErrorModel>(
                functions_view(functions@),
            ),
        decreases impl_block.methods.len() - i,
    {
        let method = &impl_block.methods[i];
        proof {
            assert(methods[i as int] == method@);
        }
        if method.is_public && !same_text(method.name.as_str(), "new") && !same_text(
            method.name.as_str(),
            "init",
        ) {
            if has_feed_calls(method) && method.feeds.is_none() {
                let e = ContractError::new(Rule::FeedTypeMissing, method.name.as_str());
                proof {
                    lemma_public_functions_error(methods, (i + 1) as nat, methods.len());
                }
                return Err(e);
            }
            let f = describe(method, None);
            proof {
                assert(functions_view(functions@.push(f)) =~= functions_view(functions@).push(
                    f@,
                ));
            }
            functions.push(f);
        }
        i = i + 1;
    }
    Ok(functions)
}

/// Tells whether `name` is in `list`.
pub fn list_contains(list: &Vec<String>, name: &str) -> (r: bool)
    ensures
        r == list.deep_view().contains(name@),
{
    let mut i: usize = 0;
    while i < list.len()
        invariant
            i <= list.len(),
            forall|j: int| 0 <= j < i ==> list.deep_view()[j] != name@,
        decreases list.len() - i,
    {
        if same_text(list[i].as_str(), name) {
            proof {
                assert(list.deep_view()[i as int] == name@);
            }
            return true;
        }
        i = i + 1;
    }
    false
}

/// Tells whether an operation called `name` is in `functions`.
fn has_function(functions: &Vec<FunctionInfo>, name: &str) -> (r: bool)
    ensures
        r == function_named(functions_view(functions@), name@, functions@.len()),
{
    let mut found = false;
    let mut i: usize = 0;
    while i < functions.len()
        invariant
            i <= functions.len(),
            found == function_named(functions_view(functions@), name@, i as nat),
        decreases functions.len() - i,
    {
        proof {
            assert(functions_view(functions@)[i as int] == functions@[i as int]@);
        }
        if same_text(functions[i].name.as_str(), name) {
            found = true;
        }
        i = i + 1;
    }
    found
}

/// Extracts the operations that an interface implementation exposes. Only
/// methods named in the exposure list are extracted; a listed method with
/// an empty body stands for the interface's own default behaviour and is
/// dispatched through the interface. A listed name that the implementation
/// lacks is an error.
pub fn trait_methods(trait_impl: &TraitImplInfo, impl_block: &ImplBlock) -> (r: Result<
    Vec<FunctionInfo>,
    ContractError,
>)
    ensures
        functions_result(r) == trait_functions(
            impl_block@.methods,
            trait_impl@.expose_list,
            trait_impl@.trait_name,
            trait_impl.item,
        ),
{
    let ghost methods = impl_block@.methods;
    let ghost expose = trait_impl@.expose_list;
    let ghost trait_name = trait_impl@.trait_name;
    let mut functions: Vec<FunctionInfo> = Vec::new();
    let mut i: usize = 0;
    proof {
        assert(functions_view(functions@) =~= Seq::<FunctionModel>::empty());
    }
    while i < impl_block.methods.len()
        invariant
            i <= impl_block.methods.len(),
            methods == impl_block@.methods,
            expose == trait_impl@.expose_list,
            trait_name == trait_impl@.trait_name,
            exposed_functions(methods, expose, trait_name, i as nat) == Ok::<
                Seq<FunctionModel>,
                ErrorModel,
            >(functions_view(functions@)),
        decreases impl_block.methods.len() - i,
    {
        let method = &impl_block.methods[i];
        proof {
            assert(methods[i as int] == method@);
        }
        if list_contains(&trait_impl.expose_list, method.name.as_str()) {
            let is_default_impl = method.body_is_empty;
            match trait_method(method, trait_impl.trait_name.as_str(), is_default_impl) {
                Err(e) => {
                    proof {
                        lemma_exposed_functions_error(
                            methods,
                            expose,
                            trait_name,
                            (i + 1) as nat,
                            methods.len(),
                        );
                    }
                    return Err(e);
                },
                Ok(()) => {},
            }
            if !is_default_impl && has_feed_calls(method) && method.feeds.is_none() {
                let e = ContractError::new(Rule::FeedTypeMissing, method.name.as_str());
                proof {
                    lemma_exposed_functions_error(
                        methods,
                        expose,
                        trait_name,
                        (i + 1) as nat,
                        methods.len(),
                    );
                }
                return Err(e);
            }
            let dispatch = if is_default_impl {
                Some(trait_impl.trait_name.clone())
            } else {
                None
            };
            let f = describe(method, dispatch);
            proof {
                assert(functions_view(functions@.push(f)) =~= functions_view(functions@).push(
                    f@,
                ));
            }
            functions.push(f);
        }
        i = i + 1;
    }
    let mut k: usize = 0;
    while k < trait_impl.expose_list.len()
        invariant
            k <= trait_impl.expose_list.len(),
            methods == impl_block@.methods,
            expose == trait_impl@.expose_list,
            trait_name == trait_impl@.trait_name,
            exposed_functions(methods, expose, trait_name, methods.len()) == Ok::<
                Seq<FunctionModel>,
                ErrorModel,
            >(functions_view(functions@)),
            first_unexposed(expose, functions_view(functions@), 0) == first_unexposed(
                expose,
                functions_view(functions@),
                k as int,
            ),
        decreases trait_impl.expose_list.len() - k,
    {
        let name = &trait_impl.expose_list[k];
        proof {
            assert(expose[k as int] == name@);
        }
        if !has_function(&functions, name.as_str()) {
            return Err(
                ContractError {
                    rule: Rule::ExposedMethodMissing,
                    subject: name.clone(),
                    owner: Some(trait_impl.trait_name.clone()),
                    position: Some(trait_impl.item),
                },
            );
        }
        k = k + 1;
    }
    Ok(functions)
}

} // verus!
