//! Diagnostics of the contract interface compiler.

use vstd::prelude::*;

verus! {

/// The rule that a declaration breaks.
#[derive(Clone, Copy, Debug, PartialEq, Eq, Structural)]
pub enum Rule {
    /// The module is a bare declaration without items.
    NoContent,
    /// An import ends in a wildcard.
    GlobImport,
    /// An import starts at `self`, `super` or `crate`.
    RelativeImport,
    /// The module declares no public state struct.
    MissingState,
    /// The module declares more than one public struct.
    DuplicateState,
    /// The state struct has no operation group.
    MissingImpl,
    /// An operation has generic type or value parameters.
    Generic,
    /// An operation is asynchronous.
    Async,
    /// An operation takes an existential type.
    ImplTraitParam,
    /// An operation returns an existential type.
    ImplTraitReturn,
    /// An operation has no receiver.
    NoReceiver,
    /// An operation consumes its receiver.
    ConsumesSelf,
    /// The state struct has no constructor.
    ConstructorMissing,
    /// The constructor cannot be evaluated when the instance is created.
    ConstructorNotConst,
    /// The constructor takes parameters.
    ConstructorHasParams,
    /// The constructor does not return the state type.
    ConstructorReturn,
    /// The initializer has no receiver.
    InitNoReceiver,
    /// The initializer does not borrow its receiver mutably.
    InitNotMutable,
    /// The initializer returns a value.
    InitReturnsValue,
    /// An operation feeds data but names no fed type.
    FeedTypeMissing,
    /// An exposed interface method is not in the implementation.
    ExposedMethodMissing,
    /// An event's topic is a bare lowercase identifier: a variable, whose
    /// value is not known when the event table is generated.
    VariableTopic,
}

/// A fatal diagnostic. `subject` names the operation or the contract at
/// fault, `owner` the interface of an interface method, and `position` the
/// index of the offending item in the module, where it is known.
#[derive(Debug)]
pub struct ContractError {
    pub rule: Rule,
    pub subject: String,
    pub owner: Option<String>,
    pub position: Option<usize>,
}

/// Model of [`ContractError`].
pub struct ErrorModel {
    pub rule: Rule,
    pub subject: Seq<char>,
    pub owner: Option<Seq<char>>,
    pub position: Option<usize>,
}

/// The model of an optional string.
pub open spec fn optional_text(s: Option<String>) -> Option<Seq<char>> {
    match s {
        Some(s) => Some(s@),
        None => None,
    }
}

impl View for ContractError {
    type V = ErrorModel;

    open spec fn view(&self) -> ErrorModel {
        ErrorModel {
            rule: self.rule,
            subject: self.subject@,
            owner: optional_text(self.owner),
            position: self.position,
        }
    }
}

/// How a diagnostic refers to the operation at fault.
pub open spec fn method_label(e: ErrorModel) -> Seq<char> {
    match e.owner {
        None => "public method `"@ + e.subject + "`"@,
        Some(interface) => "trait method `"@ + interface + "::"@ + e.subject + "`"@,
    }
}

/// What follows the operation's label in a signature diagnostic.
pub open spec fn rule_text(rule: Rule, interface_method: bool) -> Seq<char> {
    match rule {
        Rule::Generic =>
            " cannot have generic or const parameters; extern \"C\" wrappers require concrete types"@,
        Rule::Async => " cannot be async; WASM contracts do not support async execution"@,
        Rule::ImplTraitParam =>
            " cannot use `impl Trait` in parameters; extern \"C\" wrappers require concrete types"@,
        Rule::ImplTraitReturn =>
            " cannot use `impl Trait` as return type; extern \"C\" wrappers require concrete types"@,
        Rule::NoReceiver => if interface_method {
            " must have a `self` receiver; for associated functions, use an empty body `{}` to expose the default impl"@
        } else {
            " must have a `self` receiver; associated functions cannot be exposed as contract methods"@
        },
        Rule::ConsumesSelf => " cannot consume `self`; use `&self` or `&mut self` instead"@,
        _ => Seq::empty(),
    }
}

/// The text of a diagnostic.
pub open spec fn message_text(e: ErrorModel) -> Seq<char> {
    match e.rule {
        Rule::NoContent => "#[contract] requires a module with content"@,
        Rule::GlobImport =>
            "#[contract] does not support glob imports (`use foo::*`); import types explicitly so their paths can be tracked"@,
        Rule::RelativeImport =>
            "#[contract] does not support relative imports (`use self::`, `use super::`, `use crate::`); use absolute paths so they can be resolved for code generation"@,
        Rule::MissingState =>
            "#[contract] module must contain a pub struct for the contract state"@,
        Rule::DuplicateState =>
            "#[contract] module must contain exactly one pub struct; found multiple public structs"@,
        Rule::MissingImpl => "#[contract] module must contain an impl block for `"@ + e.subject
            + "`"@,
        Rule::Generic | Rule::Async | Rule::ImplTraitParam | Rule::ImplTraitReturn
        | Rule::NoReceiver | Rule::ConsumesSelf => method_label(e) + rule_text(
            e.rule,
            e.owner is Some,
        ),
        Rule::ConstructorMissing => "#[contract] requires `"@ + e.subject
            + "` to have a `const fn new() -> Self` method to initialize the static STATE variable"@,
        Rule::ConstructorNotConst => "`"@ + e.subject
            + "::new` must be a `const fn` to initialize the static STATE variable; add `const` to the function signature"@,
        Rule::ConstructorHasParams => "`"@ + e.subject
            + "::new` must have no parameters; use `const fn new() -> Self` to create a default state"@,
        Rule::ConstructorReturn => "`"@ + e.subject + "::new` must return `Self` or `"@
            + e.subject + "`"@,
        Rule::InitNoReceiver => "`"@ + e.subject
            + "::init` must take `&mut self`; initialization requires access to contract state"@,
        Rule::InitNotMutable => "`"@ + e.subject
            + "::init` must take `&mut self`; initialization needs to modify contract state"@,
        Rule::InitReturnsValue => "`"@ + e.subject
            + "::init` must return `()`; use `panic!` or `assert!` for initialization errors"@,
        Rule::FeedTypeMissing => "method `"@ + e.subject
            + "` uses `abi::feed()` but is missing `#[contract(feeds = \"Type\")]` attribute; add the attribute to specify the type being fed for data-driver decoding"@,
        Rule::ExposedMethodMissing => "method `"@ + e.subject
            + "` listed in expose but not found in `impl "@ + (match e.owner {
            Some(interface) => interface,
            None => Seq::empty(),
        }) + " for ...`; add a stub with empty body `{}` to expose default implementations"@,
        Rule::VariableTopic => "event topic `"@ + e.subject
            + "` is a bare lowercase identifier, which names a variable; use a string literal or the path of a constant as the topic"@,
    }
}

/// A diagnostic about `subject` without owner or position.
pub open spec fn plain_error(rule: Rule, subject: Seq<char>) -> ErrorModel {
    ErrorModel { rule, subject, owner: None, position: None }
}

impl ContractError {
    /// A diagnostic about `subject` without owner or position.
    pub fn new(rule: Rule, subject: &str) -> (e: ContractError)
        ensures
            e@ == plain_error(rule, subject@),
    {
        ContractError { rule, subject: String::from_str(subject), owner: None, position: None }
    }

    /// A diagnostic about the item at `position`.
    pub fn at(rule: Rule, position: usize) -> (e: ContractError)
        ensures
            e@ == (ErrorModel {
                rule,
                subject: Seq::empty(),
                owner: None,
                position: Some(position),
            }),
    {
        ContractError { rule, subject: String::new(), owner: None, position: Some(position) }
    }

    /// The same diagnostic, placed at the item at `position`.
    pub fn located(self, position: usize) -> (e: ContractError)
        ensures
            e@ == (ErrorModel { position: Some(position), ..self@ }),
    {
        ContractError {
            rule: self.rule,
            subject: self.subject,
            owner: self.owner,
            position: Some(position),
        }
    }

    /// The text of the diagnostic.
    pub fn message(&self) -> (r: String)
        ensures
            r@ == message_text(self@),
    {
        let interface_method = self.owner.is_some();
        match self.rule {
            Rule::NoContent => String::from_str("#[contract] requires a module with content"),
            Rule::GlobImport => String::from_str(
                "#[contract] does not support glob imports (`use foo::*`); import types explicitly so their paths can be tracked",
            ),
            Rule::RelativeImport => String::from_str(
                "#[contract] does not support relative imports (`use self::`, `use super::`, `use crate::`); use absolute paths so they can be resolved for code generation",
            ),
            Rule::MissingState => String::from_str(
                "#[contract] module must contain a pub struct for the contract state",
            ),
            Rule::DuplicateState => String::from_str(
                "#[contract] module must contain exactly one pub struct; found multiple public structs",
            ),
            Rule::MissingImpl => {
                let mut out = String::from_str(
                    "#[contract] module must contain an impl block for `",
                );
                out.append(self.subject.as_str());
                out.append("`");
                out
            },
            Rule::Generic | Rule::Async | Rule::ImplTraitParam | Rule::ImplTraitReturn
            | Rule::NoReceiver | Rule::ConsumesSelf => {
                let mut out = self.label();
                let tail = match self.rule {
                    Rule::Generic =>
                        " cannot have generic or const parameters; extern \"C\" wrappers require concrete types",
                    Rule::Async =>
                        " cannot be async; WASM contracts do not support async execution",
                    Rule::ImplTraitParam =>
                        " cannot use `impl Trait` in parameters; extern \"C\" wrappers require concrete types",
                    Rule::ImplTraitReturn =>
                        " cannot use `impl Trait` as return type; extern \"C\" wrappers require concrete types",
                    Rule::NoReceiver => if interface_method {
                        " must have a `self` receiver; for associated functions, use an empty body `{}` to expose the default impl"
                    } else {
                        " must have a `self` receiver; associated functions cannot be exposed as contract methods"
                    },
                    _ => " cannot consume `self`; use `&self` or `&mut self` instead",
                };
                out.append(tail);
                out
            },
            Rule::ConstructorMissing => {
                let mut out = String::from_str("#[contract] requires `");
                out.append(self.subject.as_str());
                out.append(
                    "` to have a `const fn new() -> Self` method to initialize the static STATE variable",
                );
                out
            },
            Rule::ConstructorNotConst => {
                let mut out = String::from_str("`");
                out.append(self.subject.as_str());
                out.append(
                    "::new` must be a `const fn` to initialize the static STATE variable; add `const` to the function signature",
                );
                out
            },
            Rule::ConstructorHasParams => {
                let mut out = String::from_str("`");
                out.append(self.subject.as_str());
                out.append(
                    "::new` must have no parameters; use `const fn new() -> Self` to create a default state",
                );
                out
            },
            Rule::ConstructorReturn => {
                let mut out = String::from_str("`");
                out.append(self.subject.as_str());
                out.append("::new` must return `Self` or `");
                out.append(self.subject.as_str());
                out.append("`");
                out
            },
            Rule::InitNoReceiver => {
                let mut out = String::from_str("`");
                out.append(self.subject.as_str());
                out.append(
                    "::init` must take `&mut self`; initialization requires access to contract state",
                );
                out
            },
            Rule::InitNotMutable => {
                let mut out = String::from_str("`");
                out.append(self.subject.as_str());
                out.append(
                    "::init` must take `&mut self`; initialization needs to modify contract state",
                );
                out
            },
            Rule::InitReturnsValue => {
                let mut out = String::from_str("`");
                out.append(self.subject.as_str());
                out.append(
                    "::init` must return `()`; use `panic!` or `assert!` for initialization errors",
                );
                out
            },
            Rule::FeedTypeMissing => {
                let mut out = String::from_str("method `");
                out.append(self.subject.as_str());
                out.append(
                    "` uses `abi::feed()` but is missing `#[contract(feeds = \"Type\")]` attribute; add the attribute to specify the type being fed for data-driver decoding",
                );
                out
            },
            Rule::ExposedMethodMissing => {
                let mut out = String::from_str("method `");
                out.append(self.subject.as_str());
                out.append("` listed in expose but not found in `impl ");
                match &self.owner {
                    Some(interface) => {
                        out.append(interface.as_str());
                    },
                    None => {
                        proof {
                            assert(out@ + Seq::<char>::empty() =~= out@);
                        }
                    },
                }
                out.append(
                    " for ...`; add a stub with empty body `{}` to expose default implementations",
                );
                out
            },
            Rule::VariableTopic => {
                let mut out = String::from_str("event topic `");
                out.append(self.subject.as_str());
                out.append(
                    "` is a bare lowercase identifier, which names a variable; use a string literal or the path of a constant as the topic",
                );
                out
            },
        }
    }

    /// How the diagnostic refers to the operation at fault.
    fn label(&self) -> (r: String)
        ensures
            r@ == method_label(self@),
    {
        match &self.owner {
            None => {
                let mut out = String::from_str("public method `");
                out.append(self.subject.as_str());
                out.append("`");
                out
            },
            Some(interface) => {
                let mut out = String::from_str("trait method `");
                out.append(interface.as_str());
                out.append("::");
                out.append(self.subject.as_str());
                out.append("`");
                out
            },
        }
    }
}

} // verus!
