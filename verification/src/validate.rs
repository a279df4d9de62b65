//! Signature validation: which declarations can be made callable.

use crate::declaration::{
    ArgShape, ImplBlock, ImplModel, MethodDecl, MethodModel, ParamDeclModel, SelfParam, TypeExpr,
    TypeModel,
};
use crate::error::{ContractError, ErrorModel, Rule};
use crate::text::same_text;
use vstd::prelude::*;

verus! {

/// The model of a validation result.
pub open spec fn check_view(r: Result<(), ContractError>) -> Result<(), ErrorModel> {
    match r {
        Ok(()) => Ok(()),
        Err(e) => Err(e@),
    }
}

/// One of the first `n` parameters has an existential type.
pub open spec fn takes_impl_trait(params: Seq<ParamDeclModel>, n: nat) -> bool
    decreases n,
{
    if n == 0 || n > params.len() {
        false
    } else {
        takes_impl_trait(params, (n - 1) as nat) || params[n - 1].ty is ImplTrait
    }
}

/// The first rule that the signature of `m` breaks, if any. An operation
/// without receiver is let through where `allow_no_receiver` is set.
pub open spec fn signature_violation(m: MethodModel, allow_no_receiver: bool) -> Option<Rule> {
    if m.has_generics {
        Some(Rule::Generic)
    } else if m.is_async {
        Some(Rule::Async)
    } else if takes_impl_trait(m.params, m.params.len()) {
        Some(Rule::ImplTraitParam)
    } else if m.output is Some && m.output->0 is ImplTrait {
        Some(Rule::ImplTraitReturn)
    } else if m.self_param == SelfParam::Absent {
        if allow_no_receiver {
            None
        } else {
            Some(Rule::NoReceiver)
        }
    } else if m.self_param == SelfParam::Value {
        Some(Rule::ConsumesSelf)
    } else {
        None
    }
}

/// The verdict on a signature, with the diagnostic that names the operation.
pub open spec fn signature_check(
    m: MethodModel,
    owner: Option<Seq<char>>,
    allow_no_receiver: bool,
) -> Result<(), ErrorModel> {
    match signature_violation(m, allow_no_receiver) {
        None => Ok(()),
        Some(rule) => Err(ErrorModel { rule, subject: m.name, owner, position: None }),
    }
}

/// The verdict on a public operation of the state's own operation group.
pub open spec fn public_method_check(m: MethodModel) -> Result<(), ErrorModel> {
    signature_check(m, None, false)
}

/// The verdict on an exposed interface method.
pub open spec fn trait_method_check(
    m: MethodModel,
    trait_name: Seq<char>,
    is_default_impl: bool,
) -> Result<(), ErrorModel> {
    signature_check(m, Some(trait_name), is_default_impl)
}

/// `m` is exposed by the state's own operation group: public and not the
/// constructor.
pub open spec fn is_exported(m: MethodModel) -> bool {
    m.is_public && m.name != "new"@
}

/// The verdict on the methods of a group from position `from` on: the
/// diagnostic of the first exported method that breaks a rule.
pub open spec fn methods_check(methods: Seq<MethodModel>, from: int) -> Result<(), ErrorModel>
    decreases methods.len() - from,
{
    if from < 0 || from >= methods.len() {
        Ok(())
    } else if is_exported(methods[from]) && public_method_check(methods[from]) is Err {
        public_method_check(methods[from])
    } else {
        methods_check(methods, from + 1)
    }
}

/// The first method named `name` among `methods` at or after `from`.
pub open spec fn method_named(methods: Seq<MethodModel>, name: Seq<char>, from: int) -> Option<
    MethodModel,
>
    decreases methods.len() - from,
{
    if from < 0 || from >= methods.len() {
        None
    } else if methods[from].name == name {
        Some(methods[from])
    } else {
        method_named(methods, name, from + 1)
    }
}

/// The first method named `name` in the first group, at or after `from`,
/// that has one.
pub open spec fn method_in_blocks(blocks: Seq<ImplModel>, name: Seq<char>, from: int) -> Option<
    MethodModel,
>
    decreases blocks.len() - from,
{
    if from < 0 || from >= blocks.len() {
        None
    } else if method_named(blocks[from].methods, name, 0) is Some {
        method_named(blocks[from].methods, name, 0)
    } else {
        method_in_blocks(blocks, name, from + 1)
    }
}

/// `t` is the bare identifier `ident`.
pub open spec fn type_is_ident(t: TypeModel, ident: Seq<char>) -> bool {
    &&& t is Path
    &&& t->segments.len() == 1
    &&& t->segments[0].shape == ArgShape::NoArgs
    &&& t->segments[0].ident == ident
}

/// The rule that the constructor `m` of `contract_name` breaks, if any.
pub open spec fn constructor_violation(m: MethodModel, contract_name: Seq<char>) -> Option<Rule> {
    if !m.is_const {
        Some(Rule::ConstructorNotConst)
    } else if m.self_param != SelfParam::Absent || m.params.len() > 0 {
        Some(Rule::ConstructorHasParams)
    } else if !(m.output is Some && (type_is_ident(m.output->0, "Self"@) || type_is_ident(
        m.output->0,
        contract_name,
    ))) {
        Some(Rule::ConstructorReturn)
    } else {
        None
    }
}

/// The verdict on the constructor of `contract_name`.
pub open spec fn constructor_check(contract_name: Seq<char>, blocks: Seq<ImplModel>) -> Result<
    (),
    ErrorModel,
> {
    let rule = match method_in_blocks(blocks, "new"@, 0) {
        None => Some(Rule::ConstructorMissing),
        Some(m) => constructor_violation(m, contract_name),
    };
    match rule {
        None => Ok(()),
        Some(rule) => Err(crate::error::plain_error(rule, contract_name)),
    }
}

/// `output` declares no result: nothing is written, or the empty tuple.
pub open spec fn returns_nothing(output: Option<TypeModel>) -> bool {
    match output {
        None => true,
        Some(t) => t is Tuple && t->elems.len() == 0,
    }
}

/// The rule that the initializer `m` breaks, if any.
pub open spec fn initializer_violation(m: MethodModel) -> Option<Rule> {
    if m.self_param == SelfParam::Absent {
        Some(Rule::InitNoReceiver)
    } else if m.self_param != SelfParam::RefMut {
        Some(Rule::InitNotMutable)
    } else if !returns_nothing(m.output) {
        Some(Rule::InitReturnsValue)
    } else {
        None
    }
}

/// The verdict on the initializer of `contract_name`; a contract without
/// initializer passes.
pub open spec fn initializer_check(contract_name: Seq<char>, blocks: Seq<ImplModel>) -> Result<
    (),
    ErrorModel,
> {
    let rule = match method_in_blocks(blocks, "init"@, 0) {
        None => None,
        Some(m) => initializer_violation(m),
    };
    match rule {
        None => Ok(()),
        Some(rule) => Err(crate::error::plain_error(rule, contract_name)),
    }
}

/// The models of a list of borrowed operation groups.
pub open spec fn blocks_view(blocks: Seq<&ImplBlock>) -> Seq<ImplModel> {
    blocks.map_values(|b: &ImplBlock| b@)
}

/// Tells whether a type is existential.
fn is_impl_trait(t: &TypeExpr) -> (r: bool)
    ensures
        r == (t@ is ImplTrait),
{
    match t {
        TypeExpr::ImplTrait { .. } => true,
        _ => false,
    }
}

/// Finds the first rule that a signature breaks.
fn check_signature(method: &MethodDecl, allow_no_receiver: bool) -> (r: Option<Rule>)
    ensures
        r == signature_violation(method@, allow_no_receiver),
{
    if method.has_generics {
        return Some(Rule::Generic);
    }
    if method.is_async {
        return Some(Rule::Async);
    }
    let mut i: usize = 0;
    while i < method.params.len()
        invariant
            i <= method.params.len(),
            !method.has_generics,
            !method.is_async,
            !takes_impl_trait(method@.params, i as nat),
        decreases method.params.len() - i,
    {
        if is_impl_trait(&method.params[i].ty) {
            proof {
                assert(method@.params[i as int] == method.params@[i as int]@);
                lemma_takes_impl_trait(method@.params, i as int, method@.params.len());
            }
            return Some(Rule::ImplTraitParam);
        }
        i = i + 1;
    }
    match &method.output {
        Some(t) => {
            if is_impl_trait(t) {
                return Some(Rule::ImplTraitReturn);
            }
        },
        None => {},
    }
    match method.self_param {
        SelfParam::Absent => if allow_no_receiver {
            None
        } else {
            Some(Rule::NoReceiver)
        },
        SelfParam::Value => Some(Rule::ConsumesSelf),
        _ => None,
    }
}

/// An existential parameter at `at` shows among the first `n` for every
/// `n` beyond `at`.
proof fn lemma_takes_impl_trait(params: Seq<ParamDeclModel>, at: int, n: nat)
    requires
        0 <= at < n <= params.len(),
        params[at].ty is ImplTrait,
    ensures
        takes_impl_trait(params, n),
    decreases n,
{
    if at < n - 1 {
        lemma_takes_impl_trait(params, at, (n - 1) as nat);
    }
}

/// Validates that a public method has a signature that can be dispatched
/// through the single contract instance: no generic parameters, not
/// asynchronous, no existential types, and a borrowed receiver.
pub fn public_method(method: &MethodDecl) -> (r: Result<(), ContractError>)
    ensures
        check_view(r) == public_method_check(method@),
{
    match check_signature(method, false) {
        None => Ok(()),
        Some(rule) => Err(
            ContractError { rule, subject: method.name.clone(), owner: None, position: None },
        ),
    }
}

/// Validates an exposed interface method. A method that delegates to the
/// interface's own default behaviour may lack a receiver.
pub fn trait_method(method: &MethodDecl, trait_name: &str, is_default_impl: bool) -> (r: Result<
    (),
    ContractError,
>)
    ensures
        check_view(r) == trait_method_check(method@, trait_name@, is_default_impl),
{
    match check_signature(method, is_default_impl) {
        None => Ok(()),
        Some(rule) => Err(
            ContractError {
                rule,
                subject: method.name.clone(),
                owner: Some(String::from_str(trait_name)),
                position: None,
            },
        ),
    }
}

/// Validates every exported method of an operation group, stopping at the
/// first that breaks a rule.
pub fn impl_block_methods(impl_block: &ImplBlock) -> (r: Result<(), ContractError>)
    ensures
        check_view(r) == methods_check(impl_block@.methods, 0),
{
    let mut i: usize = 0;
    while i < impl_block.methods.len()
        invariant
            i <= impl_block.methods.len(),
            methods_check(impl_block@.methods, 0) == methods_check(impl_block@.methods, i as int),
        decreases impl_block.methods.len() - i,
    {
        let method = &impl_block.methods[i];
        if method.is_public && !same_text(method.name.as_str(), "new") {
            let verdict = public_method(method);
            if verdict.is_err() {
                return verdict;
            }
        }
        i = i + 1;
    }
    Ok(())
}

/// Finds the first method named `name` in the first group that has one.
fn find_method<'a>(impl_blocks: &Vec<&'a ImplBlock>, name: &str) -> (r: Option<&'a MethodDecl>)
    ensures
        match r {
            Some(m) => method_in_blocks(blocks_view(impl_blocks@), name@, 0) == Some(m@),
            None => method_in_blocks(blocks_view(impl_blocks@), name@, 0) is None,
        },
{
    let ghost blocks = blocks_view(impl_blocks@);
    let mut b: usize = 0;
    while b < impl_blocks.len()
        invariant
            b <= impl_blocks.len(),
            blocks == blocks_view(impl_blocks@),
            method_in_blocks(blocks, name@, 0) == method_in_blocks(blocks, name@, b as int),
        decreases impl_blocks.len() - b,
    {
        let block: &'a ImplBlock = impl_blocks[b];
        let mut i: usize = 0;
        while i < block.methods.len()
            invariant
                i <= block.methods.len(),
                b < impl_blocks.len(),
                blocks == blocks_view(impl_blocks@),
                block@ == blocks[b as int],
                method_named(blocks[b as int].methods, name@, 0) == method_named(
                    blocks[b as int].methods,
                    name@,
                    i as int,
                ),
                method_in_blocks(blocks, name@, 0) == method_in_blocks(blocks, name@, b as int),
            decreases block.methods.len() - i,
        {
            if same_text(block.methods[i].name.as_str(), name) {
                return Some(&block.methods[i]);
            }
            i = i + 1;
        }
        b = b + 1;
    }
    None
}

/// Tells whether a type is the bare identifier `ident`.
fn is_ident(t: &TypeExpr, ident: &str) -> (r: bool)
    ensures
        r == type_is_ident(t@, ident@),
{
    match t {
        TypeExpr::Path { segments } => {
            if segments.len() != 1 {
                return false;
            }
            let seg = &segments[0];
            proof {
                assert(t@->segments[0] == seg@);
            }
            match seg.shape {
                ArgShape::NoArgs => same_text(seg.ident.as_str(), ident),
                _ => false,
            }
        },
        _ => false,
    }
}

/// Validates the constructor: the state must have a method `new` that can
/// be evaluated when the instance is created, takes no parameters and
/// returns the state type.
pub fn new_constructor(contract_name: &str, impl_blocks: &Vec<&ImplBlock>) -> (r: Result<
    (),
    ContractError,
>)
    ensures
        check_view(r) == constructor_check(contract_name@, blocks_view(impl_blocks@)),
{
    let method = match find_method(impl_blocks, "new") {
        Some(m) => m,
        None => {
            return Err(ContractError::new(Rule::ConstructorMissing, contract_name));
        },
    };
    if !method.is_const {
        return Err(ContractError::new(Rule::ConstructorNotConst, contract_name));
    }
    let has_receiver = match method.self_param {
        SelfParam::Absent => false,
        _ => true,
    };
    if has_receiver || method.params.len() > 0 {
        return Err(ContractError::new(Rule::ConstructorHasParams, contract_name));
    }
    let has_valid_return = match &method.output {
        None => false,
        Some(t) => is_ident(t, "Self") || is_ident(t, contract_name),
    };
    if !has_valid_return {
        return Err(ContractError::new(Rule::ConstructorReturn, contract_name));
    }
    Ok(())
}

/// Validates the initializer, if there is one: it must borrow the receiver
/// mutably and return nothing.
pub fn init_method(contract_name: &str, impl_blocks: &Vec<&ImplBlock>) -> (r: Result<
    (),
    ContractError,
>)
    ensures
        check_view(r) == initializer_check(contract_name@, blocks_view(impl_blocks@)),
{
    let method = match find_method(impl_blocks, "init") {
        Some(m) => m,
        None => {
            return Ok(());
        },
    };
    match method.self_param {
        SelfParam::Absent => {
            return Err(ContractError::new(Rule::InitNoReceiver, contract_name));
        },
        SelfParam::RefMut => {},
        _ => {
            return Err(ContractError::new(Rule::InitNotMutable, contract_name));
        },
    }
    let returns_unit = match &method.output {
        None => true,
        Some(t) => match t {
            TypeExpr::Tuple { elems } => elems.len() == 0,
            _ => false,
        },
    };
    if !returns_unit {
        return Err(ContractError::new(Rule::InitReturnsValue, contract_name));
    }
    Ok(())
}

} // verus!
