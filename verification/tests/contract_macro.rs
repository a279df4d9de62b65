//! Tests of the contract interface compiler on contract source text.

use contract_forge::compiler::contract;
use contract_forge::data_driver::{
    generate_decode_event_arms, generate_decode_input_arms, generate_decode_output_arms,
    generate_encode_input_arms, get_resolved_type, module as codec_module, CodecArm, CodecRule,
    EventKey,
};
use contract_forge::declaration::{
    ArgExpr, ArgShape, AttrArgs, Attribute, CallSite, ContractModule, Delimiter, FnItem, ImplBlock,
    Item, MethodDecl, ParamDecl, Segment, SelfParam, Token, TypeExpr, UseTree,
};
use contract_forge::descriptor::{
    CustomDataDriverHandler, DataDriverRole, EventInfo, FunctionInfo, ImportInfo, ParameterInfo,
    Receiver, TraitImplInfo,
};
use contract_forge::driver::{ContractDriver, DriverError, Lookup};
use contract_forge::error::{ContractError, Rule};
use contract_forge::extract::{
    dedup_events, emit_calls, expose_list, extract_doc_comment, feeds_text, has_custom_attribute,
    input_type, output_type, parameters, public_methods, trait_methods,
};
use contract_forge::generate::{
    extern_wrappers, schema, state_static, strip_contract_attributes, ArgMode, CallTarget,
    DispatchShim, ShimInput,
};
use contract_forge::parse::imports_from_use;
use contract_forge::resolve::{
    build_import_map, build_type_map, resolve_path_string, resolve_type,
};
use contract_forge::scan::{contract_data, custom_data_driver_handlers, is_custom_handler};
use contract_forge::schema::ContractSchema;
use contract_forge::string_map::StringMap;
use contract_forge::validate::{
    impl_block_methods, init_method, new_constructor, public_method, trait_method,
};
use quote::ToTokens;
use syn::visit::Visit;

/// Collects the call expressions of a body, outer calls before the calls
/// in their arguments.
struct CallCollector {
    calls: Vec<CallSite>,
}

impl<'ast> Visit<'ast> for CallCollector {
    fn visit_expr_call(&mut self, node: &'ast syn::ExprCall) {
        let callee = match &*node.func {
            syn::Expr::Path(path) => path_idents(&path.path),
            _ => Vec::new(),
        };
        let args = node.args.iter().map(convert_arg).collect();
        self.calls.push(CallSite { callee, args });
        syn::visit::visit_expr_call(self, node);
    }
}

fn path_idents(path: &syn::Path) -> Vec<String> {
    path.segments.iter().map(|s| s.ident.to_string()).collect()
}

fn convert_arg(expr: &syn::Expr) -> ArgExpr {
    match expr {
        syn::Expr::Lit(syn::ExprLit { lit: syn::Lit::Str(s), .. }) => {
            ArgExpr::StrLit { value: s.value() }
        }
        syn::Expr::Path(path) => ArgExpr::Path { idents: path_idents(&path.path) },
        syn::Expr::Struct(s) => ArgExpr::Struct { path: convert_path(&s.path) },
        syn::Expr::Call(call) => match &*call.func {
            syn::Expr::Path(path) => ArgExpr::CallPath { path: convert_path(&path.path) },
            _ => ArgExpr::Other,
        },
        _ => ArgExpr::Other,
    }
}

fn convert_path(path: &syn::Path) -> TypeExpr {
    TypeExpr::Path { segments: path.segments.iter().map(convert_segment).collect() }
}

fn convert_segment(segment: &syn::PathSegment) -> Segment {
    let ident = segment.ident.to_string();
    match &segment.arguments {
        syn::PathArguments::None => {
            Segment { ident, shape: ArgShape::NoArgs, args: Vec::new(), output: None }
        }
        syn::PathArguments::AngleBracketed(angle) => Segment {
            ident,
            shape: ArgShape::Angle,
            args: angle
                .args
                .iter()
                .map(|arg| match arg {
                    syn::GenericArgument::Type(ty) => convert_type(ty),
                    other => TypeExpr::Verbatim { text: other.to_token_stream().to_string() },
                })
                .collect(),
            output: None,
        },
        syn::PathArguments::Parenthesized(paren) => Segment {
            ident,
            shape: ArgShape::Paren,
            args: paren.inputs.iter().map(convert_type).collect(),
            output: match &paren.output {
                syn::ReturnType::Default => None,
                syn::ReturnType::Type(_, ty) => Some(Box::new(convert_type(ty))),
            },
        },
    }
}

/// Turns a type of the syntax tree into a type expression.
pub fn convert_type(ty: &syn::Type) -> TypeExpr {
    match ty {
        syn::Type::Path(path) => convert_path(&path.path),
        syn::Type::Tuple(tuple) => {
            TypeExpr::Tuple { elems: tuple.elems.iter().map(convert_type).collect() }
        }
        syn::Type::Reference(reference) => TypeExpr::Reference {
            mutable: reference.mutability.is_some(),
            elem: Box::new(convert_type(&reference.elem)),
        },
        syn::Type::ImplTrait(_) => TypeExpr::ImplTrait { text: ty.to_token_stream().to_string() },
        other => TypeExpr::Verbatim { text: other.to_token_stream().to_string() },
    }
}

/// Turns a use tree of the syntax tree into a use tree of the declaration.
pub fn convert_use_tree(tree: &syn::UseTree) -> UseTree {
    match tree {
        syn::UseTree::Path(path) => UseTree::Path {
            ident: path.ident.to_string(),
            tree: Box::new(convert_use_tree(&path.tree)),
        },
        syn::UseTree::Name(name) => UseTree::Name { ident: name.ident.to_string() },
        syn::UseTree::Rename(rename) => UseTree::Rename {
            ident: rename.ident.to_string(),
            rename: rename.rename.to_string(),
        },
        syn::UseTree::Glob(_) => UseTree::Glob,
        syn::UseTree::Group(group) => {
            UseTree::Group { items: group.items.iter().map(convert_use_tree).collect() }
        }
    }
}

fn convert_tokens(tokens: proc_macro2::TokenStream) -> Vec<Token> {
    tokens
        .into_iter()
        .map(|tree| match tree {
            proc_macro2::TokenTree::Ident(ident) => Token::Ident { name: ident.to_string() },
            proc_macro2::TokenTree::Punct(punct) => Token::Punct { ch: punct.as_char() },
            proc_macro2::TokenTree::Literal(literal) => Token::Literal { text: literal.to_string() },
            proc_macro2::TokenTree::Group(group) => Token::Group {
                delimiter: match group.delimiter() {
                    proc_macro2::Delimiter::Parenthesis => Delimiter::Parenthesis,
                    proc_macro2::Delimiter::Brace => Delimiter::Brace,
                    proc_macro2::Delimiter::Bracket => Delimiter::Bracket,
                    proc_macro2::Delimiter::None => Delimiter::Invisible,
                },
                idents: group
                    .stream()
                    .into_iter()
                    .filter_map(|inner| match inner {
                        proc_macro2::TokenTree::Ident(ident) => Some(ident.to_string()),
                        _ => None,
                    })
                    .collect(),
            },
        })
        .collect()
}

/// Turns an attribute of the syntax tree into an attribute of the
/// declaration.
pub fn convert_attr(attr: &syn::Attribute) -> Attribute {
    let name = attr.path().get_ident().map(|i| i.to_string()).unwrap_or_default();
    let args = match &attr.meta {
        syn::Meta::Path(_) => AttrArgs::Word,
        syn::Meta::NameValue(pair) => match &pair.value {
            syn::Expr::Lit(syn::ExprLit { lit: syn::Lit::Str(s), .. }) => {
                AttrArgs::Str { value: s.value() }
            }
            _ => AttrArgs::OtherValue,
        },
        syn::Meta::List(list) => AttrArgs::List {
            text: list.tokens.to_string(),
            tokens: convert_tokens(list.tokens.clone()),
        },
    };
    Attribute { name, args }
}

/// The type that a `feeds = "Type"` annotation names.
fn feeds_of(attrs: &[syn::Attribute]) -> Option<TypeExpr> {
    let attrs: Vec<Attribute> = attrs.iter().map(convert_attr).collect();
    let text = feeds_text(&attrs)?;
    Some(match syn::parse_str::<syn::Type>(&text) {
        Ok(ty) => convert_type(&ty),
        Err(_) => TypeExpr::Verbatim { text },
    })
}

/// Turns a method of the syntax tree into a method of the declaration.
pub fn convert_method(method: &syn::ImplItemFn) -> MethodDecl {
    let self_param = match method.sig.inputs.first() {
        Some(syn::FnArg::Receiver(receiver)) => {
            if receiver.reference.is_none() {
                SelfParam::Value
            } else if receiver.mutability.is_some() {
                SelfParam::RefMut
            } else {
                SelfParam::Ref
            }
        }
        _ => SelfParam::Absent,
    };
    let params = method
        .sig
        .inputs
        .iter()
        .filter_map(|arg| match arg {
            syn::FnArg::Typed(typed) => Some(ParamDecl {
                name: match &*typed.pat {
                    syn::Pat::Ident(ident) => ident.ident.to_string(),
                    _ => String::new(),
                },
                ty: convert_type(&typed.ty),
            }),
            syn::FnArg::Receiver(_) => None,
        })
        .collect();
    let mut collector = CallCollector { calls: Vec::new() };
    collector.visit_block(&method.block);
    MethodDecl {
        name: method.sig.ident.to_string(),
        is_public: matches!(method.vis, syn::Visibility::Public(_)),
        is_const: method.sig.constness.is_some(),
        is_async: method.sig.asyncness.is_some(),
        has_generics: !method.sig.generics.params.is_empty(),
        self_param,
        params,
        output: match &method.sig.output {
            syn::ReturnType::Default => None,
            syn::ReturnType::Type(_, ty) => Some(convert_type(ty)),
        },
        attrs: method.attrs.iter().map(convert_attr).collect(),
        feeds: feeds_of(&method.attrs),
        body_is_empty: method.block.stmts.is_empty(),
        calls: collector.calls,
    }
}

/// Turns an operation group of the syntax tree into one of the
/// declaration.
pub fn convert_impl(block: &syn::ItemImpl) -> ImplBlock {
    ImplBlock {
        attrs: block.attrs.iter().map(convert_attr).collect(),
        trait_path: match &block.trait_ {
            Some((_, path, _)) => path_idents(path),
            None => Vec::new(),
        },
        self_ty: match &*block.self_ty {
            syn::Type::Path(path) => {
                path.path.get_ident().map(|i| i.to_string()).unwrap_or_default()
            }
            _ => String::new(),
        },
        methods: block
            .items
            .iter()
            .filter_map(|item| match item {
                syn::ImplItem::Fn(method) => Some(convert_method(method)),
                _ => None,
            })
            .collect(),
    }
}

/// Turns an item of the syntax tree into an item of the declaration.
pub fn convert_item(item: &syn::Item) -> Item {
    match item {
        syn::Item::Use(item_use) => Item::Use { tree: convert_use_tree(&item_use.tree) },
        syn::Item::Struct(item_struct) => Item::Struct {
            name: item_struct.ident.to_string(),
            is_public: matches!(item_struct.vis, syn::Visibility::Public(_)),
        },
        syn::Item::Impl(block) => Item::Impl { block: convert_impl(block) },
        syn::Item::Fn(func) => {
            let mut stripped = func.clone();
            stripped.attrs.retain(|attr| !attr.path().is_ident("contract"));
            Item::Fn {
                func: FnItem {
                    name: func.sig.ident.to_string(),
                    attrs: func.attrs.iter().map(convert_attr).collect(),
                    source: stripped.to_token_stream().to_string(),
                },
            }
        }
        _ => Item::Other,
    }
}

/// Turns a module of the syntax tree into a contract module.
pub fn convert_module(module: &syn::ItemMod) -> ContractModule {
    match &module.content {
        Some((_, items)) => ContractModule {
            has_content: true,
            items: items.iter().map(convert_item).collect(),
        },
        None => ContractModule { has_content: false, items: Vec::new() },
    }
}

fn method(src: &str) -> MethodDecl {
    convert_method(&syn::parse_str::<syn::ImplItemFn>(src).expect("a method"))
}

fn block(src: &str) -> ImplBlock {
    convert_impl(&syn::parse_str::<syn::ItemImpl>(src).expect("an impl block"))
}

fn module(src: &str) -> ContractModule {
    convert_module(&syn::parse_str::<syn::ItemMod>(src).expect("a module"))
}

fn ty(src: &str) -> TypeExpr {
    convert_type(&syn::parse_str::<syn::Type>(src).expect("a type"))
}

fn use_tree(src: &str) -> UseTree {
    convert_use_tree(&syn::parse_str::<syn::ItemUse>(src).expect("a use item").tree)
}

fn text(ty: &TypeExpr) -> String {
    resolve_type(ty, &StringMap::new())
}

fn make_import(name: &str, path: &str) -> ImportInfo {
    ImportInfo { name: name.to_string(), path: path.to_string() }
}

fn make_function(name: &str, input: &str, output: &str, is_custom: bool) -> FunctionInfo {
    FunctionInfo {
        name: name.to_string(),
        doc: None,
        params: vec![],
        input_type: ty(input),
        output_type: ty(output),
        is_custom,
        returns_ref: false,
        receiver: Receiver::Ref,
        trait_name: None,
        feed_type: None,
    }
}

fn diagnostic_of(module: &ContractModule) -> ContractError {
    match contract(module) {
        Ok(_) => panic!("expected a diagnostic"),
        Err(e) => e,
    }
}

fn make_event(topic: &str, data_type: &str) -> EventInfo {
    EventInfo { topic: topic.to_string(), data_type: ty(data_type), topic_is_literal: false }
}

fn make_literal_event(topic: &str, data_type: &str) -> EventInfo {
    EventInfo { topic: topic.to_string(), data_type: ty(data_type), topic_is_literal: true }
}

fn make_custom_handler(fn_name: &str, role: DataDriverRole, handler: &str) -> CustomDataDriverHandler {
    CustomDataDriverHandler {
        fn_name: fn_name.to_string(),
        role,
        handler: handler.to_string(),
        source: format!("fn {handler}(_input: &str) -> Result<Vec<u8>, Error> {{ Ok(vec![]) }}"),
    }
}

fn type_map(entries: &[(&str, &str)]) -> StringMap {
    let mut map = StringMap::new();
    for (key, value) in entries {
        map.insert(key.to_string(), value.to_string());
    }
    map
}

fn param(name: &str, ty_src: &str, is_ref: bool, is_mut_ref: bool) -> ParameterInfo {
    ParameterInfo { name: name.to_string(), ty: ty(ty_src), is_ref, is_mut_ref }
}

fn function(
    name: &str,
    doc: Option<&str>,
    params: Vec<ParameterInfo>,
    input: &str,
    output: &str,
    returns_ref: bool,
    receiver: Receiver,
) -> FunctionInfo {
    FunctionInfo {
        name: name.to_string(),
        doc: doc.map(str::to_string),
        params,
        input_type: ty(input),
        output_type: ty(output),
        is_custom: false,
        returns_ref,
        receiver,
        trait_name: None,
        feed_type: None,
    }
}

fn convert_text(rule: &CodecRule) -> &str {
    match rule {
        CodecRule::Convert { ty } => ty,
        other => panic!("expected a generic rule, found {other:?}"),
    }
}

fn handler_name(rule: &CodecRule) -> &str {
    match rule {
        CodecRule::Handler { handler } => handler,
        other => panic!("expected a handler, found {other:?}"),
    }
}

fn refs(blocks: &[ImplBlock]) -> Vec<&ImplBlock> {
    blocks.iter().collect()
}

#[test]
fn parse_test_extract_imports_simple() {
    let extraction = imports_from_use(&use_tree("use evm_core::standard_bridge::SetU64;"));
    assert_eq!(extraction.imports.len(), 1);
    assert_eq!(extraction.imports[0].name, "SetU64");
    assert_eq!(extraction.imports[0].path, "evm_core::standard_bridge::SetU64");
    assert!(!extraction.has_glob);
    assert!(!extraction.has_relative);
}

#[test]
fn lib_test_extract_imports_simple() {
    let extraction = imports_from_use(&use_tree("use evm_core::standard_bridge::SetU64;"));
    assert_eq!(extraction.imports.len(), 1);
    assert_eq!(extraction.imports[0].name, "SetU64");
    assert_eq!(extraction.imports[0].path, "evm_core::standard_bridge::SetU64");
    assert!(!extraction.has_glob);
    assert!(!extraction.has_relative);
}

#[test]
fn parse_test_extract_imports_renamed() {
    let extraction = imports_from_use(&use_tree("use dusk_core::Address as DSAddress;"));
    assert_eq!(extraction.imports.len(), 1);
    assert_eq!(extraction.imports[0].name, "DSAddress");
    assert_eq!(extraction.imports[0].path, "dusk_core::Address");
    assert!(!extraction.has_glob);
    assert!(!extraction.has_relative);
}

#[test]
fn lib_test_extract_imports_renamed() {
    let extraction = imports_from_use(&use_tree("use dusk_core::Address as DSAddress;"));
    assert_eq!(extraction.imports.len(), 1);
    assert_eq!(extraction.imports[0].name, "DSAddress");
    assert_eq!(extraction.imports[0].path, "dusk_core::Address");
    assert!(!extraction.has_glob);
    assert!(!extraction.has_relative);
}

#[test]
fn parse_test_extract_imports_group() {
    let extraction =
        imports_from_use(&use_tree("use evm_core::standard_bridge::{SetU64, Deposit, EVMAddress};"));
    assert_eq!(extraction.imports.len(), 3);
    assert!(!extraction.has_glob);
    assert!(!extraction.has_relative);
    let names: Vec<_> = extraction.imports.iter().map(|i| i.name.as_str()).collect();
    assert!(names.contains(&"SetU64"));
    assert!(names.contains(&"Deposit"));
    assert!(names.contains(&"EVMAddress"));
    let set_u64 = extraction.imports.iter().find(|i| i.name == "SetU64").unwrap();
    assert_eq!(set_u64.path, "evm_core::standard_bridge::SetU64");
}

#[test]
fn lib_test_extract_imports_group() {
    let extraction =
        imports_from_use(&use_tree("use evm_core::standard_bridge::{SetU64, Deposit, EVMAddress};"));
    assert_eq!(extraction.imports.len(), 3);
    assert!(!extraction.has_glob);
    assert!(!extraction.has_relative);
    let names: Vec<_> = extraction.imports.iter().map(|i| i.name.as_str()).collect();
    assert!(names.contains(&"SetU64"));
    assert!(names.contains(&"Deposit"));
    assert!(names.contains(&"EVMAddress"));
    let set_u64 = extraction.imports.iter().find(|i| i.name == "SetU64").unwrap();
    assert_eq!(set_u64.path, "evm_core::standard_bridge::SetU64");
}

#[test]
fn parse_test_extract_imports_glob() {
    let extraction = imports_from_use(&use_tree("use evm_core::standard_bridge::*;"));
    assert!(extraction.imports.is_empty());
    assert!(extraction.has_glob);
    assert!(!extraction.has_relative);
}

#[test]
fn lib_test_extract_imports_glob() {
    let extraction = imports_from_use(&use_tree("use evm_core::standard_bridge::*;"));
    assert!(extraction.imports.is_empty());
    assert!(extraction.has_glob);
    assert!(!extraction.has_relative);
}

#[test]
fn parse_test_extract_imports_group_with_glob() {
    let extraction =
        imports_from_use(&use_tree("use evm_core::standard_bridge::{SetU64, events::*};"));
    assert_eq!(extraction.imports.len(), 1);
    assert_eq!(extraction.imports[0].name, "SetU64");
    assert!(extraction.has_glob);
    assert!(!extraction.has_relative);
}

#[test]
fn lib_test_extract_imports_group_with_glob() {
    let extraction =
        imports_from_use(&use_tree("use evm_core::standard_bridge::{SetU64, events::*};"));
    assert_eq!(extraction.imports.len(), 1);
    assert_eq!(extraction.imports[0].name, "SetU64");
    assert!(extraction.has_glob);
    assert!(!extraction.has_relative);
}

#[test]
fn parse_test_extract_imports_relative_self() {
    let extraction = imports_from_use(&use_tree("use self::types::MyType;"));
    assert_eq!(extraction.imports.len(), 1);
    assert_eq!(extraction.imports[0].name, "MyType");
    assert_eq!(extraction.imports[0].path, "self::types::MyType");
    assert!(!extraction.has_glob);
    assert!(extraction.has_relative);
}

#[test]
fn lib_test_extract_imports_relative_self() {
    let extraction = imports_from_use(&use_tree("use self::types::MyType;"));
    assert_eq!(extraction.imports.len(), 1);
    assert_eq!(extraction.imports[0].name, "MyType");
    assert_eq!(extraction.imports[0].path, "self::types::MyType");
    assert!(!extraction.has_glob);
    assert!(extraction.has_relative);
}

#[test]
fn parse_test_extract_imports_relative_super() {
    let extraction = imports_from_use(&use_tree("use super::common::SharedType;"));
    assert_eq!(extraction.imports.len(), 1);
    assert_eq!(extraction.imports[0].name, "SharedType");
    assert_eq!(extraction.imports[0].path, "super::common::SharedType");
    assert!(!extraction.has_glob);
    assert!(extraction.has_relative);
}

#[test]
fn lib_test_extract_imports_relative_super() {
    let extraction = imports_from_use(&use_tree("use super::common::SharedType;"));
    assert_eq!(extraction.imports.len(), 1);
    assert_eq!(extraction.imports[0].name, "SharedType");
    assert_eq!(extraction.imports[0].path, "super::common::SharedType");
    assert!(!extraction.has_glob);
    assert!(extraction.has_relative);
}

#[test]
fn parse_test_extract_imports_relative_crate() {
    let extraction = imports_from_use(&use_tree("use crate::utils::Helper;"));
    assert_eq!(extraction.imports.len(), 1);
    assert_eq!(extraction.imports[0].name, "Helper");
    assert_eq!(extraction.imports[0].path, "crate::utils::Helper");
    assert!(!extraction.has_glob);
    assert!(extraction.has_relative);
}

#[test]
fn lib_test_extract_imports_relative_crate() {
    let extraction = imports_from_use(&use_tree("use crate::utils::Helper;"));
    assert_eq!(extraction.imports.len(), 1);
    assert_eq!(extraction.imports[0].name, "Helper");
    assert_eq!(extraction.imports[0].path, "crate::utils::Helper");
    assert!(!extraction.has_glob);
    assert!(extraction.has_relative);
}

#[test]
fn parse_test_extract_imports_group_with_relative() {
    let extraction = imports_from_use(&use_tree("use self::types::{TypeA, TypeB};"));
    assert_eq!(extraction.imports.len(), 2);
    assert!(!extraction.has_glob);
    assert!(extraction.has_relative);
}

#[test]
fn lib_test_extract_imports_group_with_relative() {
    let extraction = imports_from_use(&use_tree("use self::types::{TypeA, TypeB};"));
    assert_eq!(extraction.imports.len(), 2);
    assert!(!extraction.has_glob);
    assert!(extraction.has_relative);
}

#[test]
fn validate_test_validate_method_valid_ref_self() {
    assert!(public_method(&method("pub fn get_value(&self) -> u64 { 0 }")).is_ok());
}

#[test]
fn lib_test_validate_method_valid_ref_self() {
    assert!(public_method(&method("pub fn get_value(&self) -> u64 { 0 }")).is_ok());
}

#[test]
fn validate_test_validate_method_valid_mut_self() {
    assert!(public_method(&method("pub fn set_value(&mut self, value: u64) { }")).is_ok());
}

#[test]
fn lib_test_validate_method_valid_mut_self() {
    assert!(public_method(&method("pub fn set_value(&mut self, value: u64) { }")).is_ok());
}

#[test]
fn validate_test_validate_method_no_self() {
    let err = public_method(&method("pub fn new() -> Self { Self }")).unwrap_err();
    assert!(err.message().contains("must have a `self` receiver"));
}

#[test]
fn lib_test_validate_method_no_self() {
    let err = public_method(&method("pub fn new() -> Self { Self }")).unwrap_err();
    assert!(err.message().contains("must have a `self` receiver"));
}

#[test]
fn validate_test_validate_method_consuming_self() {
    let err = public_method(&method("pub fn destroy(self) { }")).unwrap_err();
    assert!(err.message().contains("cannot consume `self`"));
}

#[test]
fn lib_test_validate_method_consuming_self() {
    let err = public_method(&method("pub fn destroy(self) { }")).unwrap_err();
    assert!(err.message().contains("cannot consume `self`"));
}

#[test]
fn validate_test_validate_method_generic() {
    let err = public_method(&method("pub fn process<T>(&self, value: T) -> T { value }")).unwrap_err();
    assert!(err.message().contains("cannot have generic or const parameters"));
}

#[test]
fn lib_test_validate_method_generic() {
    let err = public_method(&method("pub fn process<T>(&self, value: T) -> T { value }")).unwrap_err();
    assert!(err.message().contains("cannot have generic or const parameters"));
}

#[test]
fn validate_test_validate_method_async() {
    let err = public_method(&method("pub async fn fetch_data(&self) -> u64 { 0 }")).unwrap_err();
    assert!(err.message().contains("cannot be async"));
}

#[test]
fn lib_test_validate_method_async() {
    let err = public_method(&method("pub async fn fetch_data(&self) -> u64 { 0 }")).unwrap_err();
    assert!(err.message().contains("cannot be async"));
}

#[test]
fn validate_test_validate_method_const_generic() {
    let err = public_method(&method("pub fn process<const N: usize>(&self) -> [u8; N] { [0; N] }")).unwrap_err();
    assert!(err.message().contains("cannot have generic or const parameters"));
}

#[test]
fn lib_test_validate_method_const_generic() {
    let err = public_method(&method("pub fn process<const N: usize>(&self) -> [u8; N] { [0; N] }")).unwrap_err();
    assert!(err.message().contains("cannot have generic or const parameters"));
}

#[test]
fn validate_test_validate_method_impl_trait_param() {
    let err = public_method(&method("pub fn process(&self, x: impl Display) {}")).unwrap_err();
    assert!(err.message().contains("cannot use `impl Trait` in parameters"));
}

#[test]
fn lib_test_validate_method_impl_trait_param() {
    let err = public_method(&method("pub fn process(&self, x: impl Display) {}")).unwrap_err();
    assert!(err.message().contains("cannot use `impl Trait` in parameters"));
}

#[test]
fn validate_test_validate_method_impl_trait_return() {
    let err = public_method(&method("pub fn iter(&self) -> impl Iterator<Item = u64> { std::iter::empty() }")).unwrap_err();
    assert!(err.message().contains("cannot use `impl Trait` as return type"));
}

#[test]
fn lib_test_validate_method_impl_trait_return() {
    let err = public_method(&method("pub fn iter(&self) -> impl Iterator<Item = u64> { std::iter::empty() }")).unwrap_err();
    assert!(err.message().contains("cannot use `impl Trait` as return type"));
}

#[test]
fn test_new_constructor_valid() {
    let blocks = [block("impl MyContract { pub const fn new() -> Self { Self { value: 0 } } }")];
    assert!(new_constructor("MyContract", &refs(&blocks)).is_ok());
}

#[test]
fn test_validate_new_constructor_valid() {
    let blocks = [block("impl MyContract { pub const fn new() -> Self { Self { value: 0 } } }")];
    assert!(new_constructor("MyContract", &refs(&blocks)).is_ok());
}

#[test]
fn test_new_constructor_valid_returns_typename() {
    let blocks = [block("impl MyContract { pub const fn new() -> MyContract { MyContract { value: 0 } } }")];
    assert!(new_constructor("MyContract", &refs(&blocks)).is_ok());
}

#[test]
fn test_validate_new_constructor_valid_returns_typename() {
    let blocks = [block("impl MyContract { pub const fn new() -> MyContract { MyContract { value: 0 } } }")];
    assert!(new_constructor("MyContract", &refs(&blocks)).is_ok());
}

#[test]
fn test_new_constructor_missing() {
    let blocks = [block("impl MyContract { pub fn get_value(&self) -> u64 { 0 } }")];
    let err = new_constructor("MyContract", &refs(&blocks)).unwrap_err();
    assert!(err.message().contains("const fn new() -> Self"));
}

#[test]
fn test_validate_new_constructor_missing() {
    let blocks = [block("impl MyContract { pub fn get_value(&self) -> u64 { 0 } }")];
    let err = new_constructor("MyContract", &refs(&blocks)).unwrap_err();
    assert!(err.message().contains("const fn new() -> Self"));
}

#[test]
fn test_new_constructor_not_const() {
    let blocks = [block("impl MyContract { pub fn new() -> Self { Self { value: 0 } } }")];
    let err = new_constructor("MyContract", &refs(&blocks)).unwrap_err();
    assert!(err.message().contains("must be a `const fn`"));
}

#[test]
fn test_validate_new_constructor_not_const() {
    let blocks = [block("impl MyContract { pub fn new() -> Self { Self { value: 0 } } }")];
    let err = new_constructor("MyContract", &refs(&blocks)).unwrap_err();
    assert!(err.message().contains("must be a `const fn`"));
}

#[test]
fn test_new_constructor_has_params() {
    let blocks = [block("impl MyContract { pub const fn new(value: u64) -> Self { Self { value } } }")];
    let err = new_constructor("MyContract", &refs(&blocks)).unwrap_err();
    assert!(err.message().contains("must have no parameters"));
}

#[test]
fn test_validate_new_constructor_has_params() {
    let blocks = [block("impl MyContract { pub const fn new(value: u64) -> Self { Self { value } } }")];
    let err = new_constructor("MyContract", &refs(&blocks)).unwrap_err();
    assert!(err.message().contains("must have no parameters"));
}

#[test]
fn test_new_constructor_wrong_return() {
    let blocks = [block("impl MyContract { pub const fn new() -> u64 { 0 } }")];
    let err = new_constructor("MyContract", &refs(&blocks)).unwrap_err();
    assert!(err.message().contains("must return `Self`"));
}

#[test]
fn test_validate_new_constructor_wrong_return() {
    let blocks = [block("impl MyContract { pub const fn new() -> u64 { 0 } }")];
    let err = new_constructor("MyContract", &refs(&blocks)).unwrap_err();
    assert!(err.message().contains("must return `Self`"));
}

#[test]
fn test_init_method_valid() {
    let blocks = [block("impl MyContract { pub fn init(&mut self, owner: Address) { self.owner = owner; } }")];
    assert!(init_method("MyContract", &refs(&blocks)).is_ok());
}

#[test]
fn test_validate_init_method_valid() {
    let blocks = [block("impl MyContract { pub fn init(&mut self, owner: Address) { self.owner = owner; } }")];
    assert!(init_method("MyContract", &refs(&blocks)).is_ok());
}

#[test]
fn test_init_method_valid_no_params() {
    let blocks = [block("impl MyContract { pub fn init(&mut self) { self.initialized = true; } }")];
    assert!(init_method("MyContract", &refs(&blocks)).is_ok());
}

#[test]
fn test_validate_init_method_valid_no_params() {
    let blocks = [block("impl MyContract { pub fn init(&mut self) { self.initialized = true; } }")];
    assert!(init_method("MyContract", &refs(&blocks)).is_ok());
}

#[test]
fn test_init_method_absent_is_ok() {
    let blocks = [block("impl MyContract { pub fn get_value(&self) -> u64 { 0 } }")];
    assert!(init_method("MyContract", &refs(&blocks)).is_ok());
}

#[test]
fn test_validate_init_method_absent_is_ok() {
    let blocks = [block("impl MyContract { pub fn get_value(&self) -> u64 { 0 } }")];
    assert!(init_method("MyContract", &refs(&blocks)).is_ok());
}

#[test]
fn test_init_method_immutable_self() {
    let blocks = [block("impl MyContract { pub fn init(&self, owner: Address) {} }")];
    let err = init_method("MyContract", &refs(&blocks)).unwrap_err();
    assert!(err.message().contains("must take `&mut self`"));
}

#[test]
fn test_validate_init_method_immutable_self() {
    let blocks = [block("impl MyContract { pub fn init(&self, owner: Address) {} }")];
    let err = init_method("MyContract", &refs(&blocks)).unwrap_err();
    assert!(err.message().contains("must take `&mut self`"));
}

#[test]
fn test_init_method_no_self() {
    let blocks = [block("impl MyContract { pub fn init(owner: Address) {} }")];
    let err = init_method("MyContract", &refs(&blocks)).unwrap_err();
    assert!(err.message().contains("must take `&mut self`"));
}

#[test]
fn test_validate_init_method_no_self() {
    let blocks = [block("impl MyContract { pub fn init(owner: Address) {} }")];
    let err = init_method("MyContract", &refs(&blocks)).unwrap_err();
    assert!(err.message().contains("must take `&mut self`"));
}

#[test]
fn test_init_method_consuming_self() {
    let blocks = [block("impl MyContract { pub fn init(self, owner: Address) {} }")];
    let err = init_method("MyContract", &refs(&blocks)).unwrap_err();
    assert!(err.message().contains("must take `&mut self`"));
}

#[test]
fn test_validate_init_method_consuming_self() {
    let blocks = [block("impl MyContract { pub fn init(self, owner: Address) {} }")];
    let err = init_method("MyContract", &refs(&blocks)).unwrap_err();
    assert!(err.message().contains("must take `&mut self`"));
}

#[test]
fn test_init_method_returns_value() {
    let blocks = [block("impl MyContract { pub fn init(&mut self, owner: Address) -> bool { true } }")];
    let err = init_method("MyContract", &refs(&blocks)).unwrap_err();
    assert!(err.message().contains("must return `()`"));
}

#[test]
fn test_validate_init_method_returns_value() {
    let blocks = [block("impl MyContract { pub fn init(&mut self, owner: Address) -> bool { true } }")];
    let err = init_method("MyContract", &refs(&blocks)).unwrap_err();
    assert!(err.message().contains("must return `()`"));
}

#[test]
fn test_init_method_returns_result() {
    let blocks = [block("impl MyContract { pub fn init(&mut self, owner: Address) -> Result<(), Error> { Ok(()) } }")];
    let err = init_method("MyContract", &refs(&blocks)).unwrap_err();
    assert!(err.message().contains("must return `()`"));
}

#[test]
fn test_validate_init_method_returns_result() {
    let blocks = [block("impl MyContract { pub fn init(&mut self, owner: Address) -> Result<(), Error> { Ok(()) } }")];
    let err = init_method("MyContract", &refs(&blocks)).unwrap_err();
    assert!(err.message().contains("must return `()`"));
}

#[test]
fn test_trait_method_valid() {
    assert!(trait_method(&method("fn owner(&self) -> Option<Address> { self.owner }"), "OwnableTrait", false).is_ok());
}

#[test]
fn test_trait_method_mut_self() {
    assert!(trait_method(&method("fn transfer(&mut self, to: Address) {}"), "OwnableTrait", false).is_ok());
}

#[test]
fn test_trait_method_no_self_not_default() {
    let err = trait_method(&method("fn version() -> String { \"1.0\".to_string() }"), "ISemver", false).unwrap_err();
    let msg = err.message();
    assert!(msg.contains("must have a `self` receiver"), "{msg}");
    assert!(msg.contains("ISemver::version"), "{msg}");
}

#[test]
fn test_trait_method_no_self_default_impl() {
    assert!(trait_method(&method("fn version() -> String {}"), "ISemver", true).is_ok());
}

#[test]
fn test_trait_method_consuming_self() {
    let err = trait_method(&method("fn destroy(self) {}"), "Destructible", false).unwrap_err();
    let msg = err.message();
    assert!(msg.contains("cannot consume `self`"), "{msg}");
}

#[test]
fn test_trait_method_generic() {
    let err = trait_method(&method("fn process<T>(&self, value: T) {}"), "Processor", false).unwrap_err();
    let msg = err.message();
    assert!(msg.contains("cannot have generic or const parameters"), "{msg}");
}

#[test]
fn test_trait_method_async() {
    let err = trait_method(&method("async fn fetch(&self) -> Data {}"), "AsyncTrait", false).unwrap_err();
    let msg = err.message();
    assert!(msg.contains("cannot be async"), "{msg}");
    assert!(msg.contains("AsyncTrait::fetch"), "{msg}");
}

#[test]
fn test_trait_method_impl_trait_param() {
    let err = trait_method(&method("fn process(&self, handler: impl Handler) {}"), "Processor", false).unwrap_err();
    let msg = err.message();
    assert!(msg.contains("impl Trait"), "{msg}");
    assert!(msg.contains("parameters"), "{msg}");
}

#[test]
fn test_trait_method_impl_trait_return() {
    let err = trait_method(&method("fn items(&self) -> impl Iterator<Item = u64> {}"), "Collection", false).unwrap_err();
    let msg = err.message();
    assert!(msg.contains("impl Trait"), "{msg}");
    assert!(msg.contains("return type"), "{msg}");
}

#[test]
fn test_output_type_value() {
    let (ty, returns_ref) = output_type(&method("fn f() -> u64 {}").output);
    assert_eq!(text(&ty), "u64");
    assert!(!returns_ref);
}

#[test]
fn test_extract_output_type_value() {
    let (ty, returns_ref) = output_type(&method("fn f() -> u64 {}").output);
    assert_eq!(text(&ty), "u64");
    assert!(!returns_ref);
}

#[test]
fn test_output_type_ref() {
    let (ty, returns_ref) = output_type(&method("fn f() -> &LargeStruct {}").output);
    assert_eq!(text(&ty), "LargeStruct");
    assert!(returns_ref);
}

#[test]
fn test_extract_output_type_ref() {
    let (ty, returns_ref) = output_type(&method("fn f() -> &LargeStruct {}").output);
    assert_eq!(text(&ty), "LargeStruct");
    assert!(returns_ref);
}

#[test]
fn test_output_type_mut_ref() {
    let (ty, returns_ref) = output_type(&method("fn f() -> &mut Data {}").output);
    assert_eq!(text(&ty), "Data");
    assert!(returns_ref);
}

#[test]
fn test_extract_output_type_mut_ref() {
    let (ty, returns_ref) = output_type(&method("fn f() -> &mut Data {}").output);
    assert_eq!(text(&ty), "Data");
    assert!(returns_ref);
}

#[test]
fn test_parameters_ref() {
    let params = parameters(&method("pub fn process(&self, data: &LargeStruct) {}"));
    assert_eq!(params.len(), 1);
    assert_eq!(params[0].name, "data");
    assert_eq!(text(&params[0].ty), "LargeStruct");
    assert!(params[0].is_ref);
    assert!(!params[0].is_mut_ref);
}

#[test]
fn test_extract_parameters_ref() {
    let params = parameters(&method("pub fn process(&self, data: &LargeStruct) {}"));
    assert_eq!(params.len(), 1);
    assert_eq!(params[0].name, "data");
    assert_eq!(text(&params[0].ty), "LargeStruct");
    assert!(params[0].is_ref);
    assert!(!params[0].is_mut_ref);
}

#[test]
fn test_parameters_mut_ref() {
    let params = parameters(&method("pub fn modify(&mut self, data: &mut Data) {}"));
    assert_eq!(params.len(), 1);
    assert_eq!(params[0].name, "data");
    assert_eq!(text(&params[0].ty), "Data");
    assert!(params[0].is_ref);
    assert!(params[0].is_mut_ref);
}

#[test]
fn test_extract_parameters_mut_ref() {
    let params = parameters(&method("pub fn modify(&mut self, data: &mut Data) {}"));
    assert_eq!(params.len(), 1);
    assert_eq!(params[0].name, "data");
    assert_eq!(text(&params[0].ty), "Data");
    assert!(params[0].is_ref);
    assert!(params[0].is_mut_ref);
}

#[test]
fn test_expose_list_simple() {
    let impl_block = block("#[contract(expose = [owner, transfer_ownership])] impl OwnableTrait for MyContract { fn owner(&self) -> Address { self.owner } }");
    let list = expose_list(&impl_block.attrs).expect("an exposure list");
    assert_eq!(list.len(), 2);
    assert!(list.contains(&"owner".to_string()));
    assert!(list.contains(&"transfer_ownership".to_string()));
}

#[test]
fn test_expose_list_single() {
    let impl_block = block("#[contract(expose = [version])] impl ISemver for MyContract {}");
    let list = expose_list(&impl_block.attrs).expect("an exposure list");
    assert_eq!(list.len(), 1);
    assert_eq!(list[0], "version");
}

#[test]
fn test_expose_list_none() {
    let impl_block = block("impl OwnableTrait for MyContract { fn owner(&self) -> Address { self.owner } }");
    assert!(expose_list(&impl_block.attrs).is_none());
}

#[test]
fn test_expose_list_other_attribute() {
    let impl_block = block("#[derive(Debug)] impl OwnableTrait for MyContract { fn owner(&self) -> Address { self.owner } }");
    assert!(expose_list(&impl_block.attrs).is_none());
}

#[test]
fn test_trait_methods_success() {
    let impl_block = block("#[contract(expose = [owner])] impl OwnableTrait for MyContract { fn owner(&self) -> Option<Address> { self.owner } fn owner_mut(&mut self) -> &mut Option<Address> { &mut self.owner } }");
    let trait_impl = TraitImplInfo {
        trait_name: "OwnableTrait".to_string(),
        item: 0,
        expose_list: vec!["owner".to_string()],
    };
    let functions = trait_methods(&trait_impl, &impl_block).expect("extraction succeeds");
    assert_eq!(functions.len(), 1);
    assert_eq!(functions[0].name, "owner");
}

#[test]
fn test_trait_methods_multiple() {
    let impl_block = block("#[contract(expose = [owner, transfer_ownership])] impl OwnableTrait for MyContract { fn owner(&self) -> Option<Address> { self.owner } fn owner_mut(&mut self) -> &mut Option<Address> { &mut self.owner } fn transfer_ownership(&mut self, new_owner: Address) { self.owner = Some(new_owner); } }");
    let trait_impl = TraitImplInfo {
        trait_name: "OwnableTrait".to_string(),
        item: 0,
        expose_list: vec!["owner".to_string(), "transfer_ownership".to_string()],
    };
    let functions = trait_methods(&trait_impl, &impl_block).expect("extraction succeeds");
    assert_eq!(functions.len(), 2);
}

#[test]
fn test_trait_methods_missing_method() {
    let impl_block = block("#[contract(expose = [owner, nonexistent])] impl OwnableTrait for MyContract { fn owner(&self) -> Option<Address> { self.owner } }");
    let trait_impl = TraitImplInfo {
        trait_name: "OwnableTrait".to_string(),
        item: 0,
        expose_list: vec!["owner".to_string(), "nonexistent".to_string()],
    };
    let Err(err) = trait_methods(&trait_impl, &impl_block) else {
        panic!("expected error for missing method");
    };
    assert_eq!(err.rule, Rule::ExposedMethodMissing);
    assert!(err.message().contains("nonexistent"));
    assert!(err.message().contains("not found"));
}

#[test]
fn test_resolve_simple_type() {
    let imports = vec![make_import("Deposit", "evm_core::standard_bridge::Deposit")];
    let import_map = build_import_map(&imports);
    assert_eq!(resolve_type(&ty("Deposit"), &import_map), "evm_core::standard_bridge::Deposit");
}

#[test]
fn test_resolve_aliased_type() {
    let imports = vec![make_import("DSAddress", "evm_core::Address")];
    let import_map = build_import_map(&imports);
    assert_eq!(resolve_type(&ty("DSAddress"), &import_map), "evm_core::Address");
}

#[test]
fn test_resolve_multi_segment_path() {
    let imports = vec![make_import("events", "evm_core::standard_bridge::events")];
    let import_map = build_import_map(&imports);
    assert_eq!(resolve_type(&ty("events::PauseToggled"), &import_map), "evm_core::standard_bridge::events::PauseToggled");
}

#[test]
fn test_resolve_generic_type() {
    let imports = vec![make_import("Deposit", "evm_core::standard_bridge::Deposit")];
    let import_map = build_import_map(&imports);
    assert_eq!(resolve_type(&ty("Option<Deposit>"), &import_map), "Option<evm_core::standard_bridge::Deposit>");
}

#[test]
fn test_resolve_tuple_type() {
    let imports = vec![make_import("Deposit", "evm_core::standard_bridge::Deposit"), make_import("DSAddress", "evm_core::Address")];
    let import_map = build_import_map(&imports);
    assert_eq!(resolve_type(&ty("(Deposit, DSAddress)"), &import_map), "(evm_core::standard_bridge::Deposit, evm_core::Address)");
}

#[test]
fn test_resolve_unit_type() {
    let imports: Vec<ImportInfo> = vec![];
    let import_map = build_import_map(&imports);
    assert_eq!(resolve_type(&ty("()"), &import_map), "()");
}

#[test]
fn test_resolve_primitive_unchanged() {
    let imports: Vec<ImportInfo> = vec![];
    let import_map = build_import_map(&imports);
    assert_eq!(resolve_type(&ty("u64"), &import_map), "u64");
}

#[test]
fn generate_test_extern_wrapper_no_params() {
    let functions = vec![function("is_paused", Some("Returns pause state."), vec![], "()", "bool", false, Receiver::Ref)];
    let shims = extern_wrappers(&functions);
    assert_eq!(shims.len(), 1);
    assert_eq!(shims[0].name, "is_paused");
    assert!(matches!(shims[0].input, ShimInput::Unit));
    assert!(matches!(shims[0].target, CallTarget::Instance));
    assert_eq!(shims[0].call_expr("MyContract"), "STATE.is_paused()");
}

#[test]
fn lib_test_extern_wrapper_no_params() {
    let functions = vec![function("is_paused", Some("Returns pause state."), vec![], "()", "bool", false, Receiver::Ref)];
    let shims = extern_wrappers(&functions);
    assert_eq!(shims.len(), 1);
    assert_eq!(shims[0].name, "is_paused");
    assert!(matches!(shims[0].input, ShimInput::Unit));
    assert!(matches!(shims[0].target, CallTarget::Instance));
    assert_eq!(shims[0].call_expr("MyContract"), "STATE.is_paused()");
}

#[test]
fn generate_test_extern_wrapper_single_param() {
    let functions = vec![function("init", Some("Initialize."), vec![param("owner", "Address", false, false)], "Address", "()", false, Receiver::RefMut)];
    let shims = extern_wrappers(&functions);
    assert_eq!(shims.len(), 1);
    match &shims[0].input {
        ShimInput::Single { name, ty } => {
            assert_eq!(name, "owner");
            assert_eq!(text(ty), "Address");
        }
        other => panic!("expected a single parameter, found {other:?}"),
    }
    assert_eq!(shims[0].call_expr("MyContract"), "STATE.init(owner)");
}

#[test]
fn lib_test_extern_wrapper_single_param() {
    let functions = vec![function("init", Some("Initialize."), vec![param("owner", "Address", false, false)], "Address", "()", false, Receiver::RefMut)];
    let shims = extern_wrappers(&functions);
    assert_eq!(shims.len(), 1);
    match &shims[0].input {
        ShimInput::Single { name, ty } => {
            assert_eq!(name, "owner");
            assert_eq!(text(ty), "Address");
        }
        other => panic!("expected a single parameter, found {other:?}"),
    }
    assert_eq!(shims[0].call_expr("MyContract"), "STATE.init(owner)");
}

#[test]
fn generate_test_extern_wrapper_multiple_params() {
    let functions = vec![function(
        "transfer",
        Some("Transfer funds."),
        vec![param("to", "Address", false, false), param("amount", "u64", false, false)],
        "(Address, u64)",
        "()",
        false,
        Receiver::RefMut,
    )];
    let shims = extern_wrappers(&functions);
    assert_eq!(shims.len(), 1);
    match &shims[0].input {
        ShimInput::Tuple { names, ty } => {
            assert_eq!(names, &vec!["to".to_string(), "amount".to_string()]);
            assert_eq!(text(ty), "(Address, u64)");
        }
        other => panic!("expected a tuple, found {other:?}"),
    }
    assert_eq!(shims[0].call_expr("MyContract"), "STATE.transfer(to, amount)");
}

#[test]
fn lib_test_extern_wrapper_multiple_params() {
    let functions = vec![function(
        "transfer",
        Some("Transfer funds."),
        vec![param("to", "Address", false, false), param("amount", "u64", false, false)],
        "(Address, u64)",
        "()",
        false,
        Receiver::RefMut,
    )];
    let shims = extern_wrappers(&functions);
    assert_eq!(shims.len(), 1);
    match &shims[0].input {
        ShimInput::Tuple { names, ty } => {
            assert_eq!(names, &vec!["to".to_string(), "amount".to_string()]);
            assert_eq!(text(ty), "(Address, u64)");
        }
        other => panic!("expected a tuple, found {other:?}"),
    }
    assert_eq!(shims[0].call_expr("MyContract"), "STATE.transfer(to, amount)");
}

#[test]
fn generate_test_extern_wrappers_multiple_functions() {
    let functions = vec![
        function("pause", None, vec![], "()", "()", false, Receiver::RefMut),
        function("unpause", None, vec![], "()", "()", false, Receiver::RefMut),
    ];
    let shims = extern_wrappers(&functions);
    assert_eq!(shims.len(), 2);
    assert_eq!(shims[0].call_expr("MyContract"), "STATE.pause()");
    assert_eq!(shims[1].call_expr("MyContract"), "STATE.unpause()");
}

#[test]
fn lib_test_extern_wrappers_multiple_functions() {
    let functions = vec![
        function("pause", None, vec![], "()", "()", false, Receiver::RefMut),
        function("unpause", None, vec![], "()", "()", false, Receiver::RefMut),
    ];
    let shims = extern_wrappers(&functions);
    assert_eq!(shims.len(), 2);
    assert_eq!(shims[0].call_expr("MyContract"), "STATE.pause()");
    assert_eq!(shims[1].call_expr("MyContract"), "STATE.unpause()");
}

#[test]
fn generate_test_extern_wrapper_returns_ref() {
    let functions = vec![function("get_data", None, vec![], "()", "LargeStruct", true, Receiver::Ref)];
    let shims = extern_wrappers(&functions);
    assert!(shims[0].clone_result);
    assert_eq!(shims[0].call_expr("MyContract"), "STATE.get_data().clone()");
}

#[test]
fn lib_test_extern_wrapper_returns_ref() {
    let functions = vec![function("get_data", None, vec![], "()", "LargeStruct", true, Receiver::Ref)];
    let shims = extern_wrappers(&functions);
    assert!(shims[0].clone_result);
    assert_eq!(shims[0].call_expr("MyContract"), "STATE.get_data().clone()");
}

#[test]
fn generate_test_extern_wrapper_ref_param() {
    let functions = vec![function("process", None, vec![param("data", "LargeStruct", true, false)], "LargeStruct", "()", false, Receiver::RefMut)];
    let shims = extern_wrappers(&functions);
    assert_eq!(shims[0].args[0].mode, ArgMode::Ref);
    assert_eq!(shims[0].call_expr("MyContract"), "STATE.process(&data)");
}

#[test]
fn lib_test_extern_wrapper_ref_param() {
    let functions = vec![function("process", None, vec![param("data", "LargeStruct", true, false)], "LargeStruct", "()", false, Receiver::RefMut)];
    let shims = extern_wrappers(&functions);
    assert_eq!(shims[0].args[0].mode, ArgMode::Ref);
    assert_eq!(shims[0].call_expr("MyContract"), "STATE.process(&data)");
}

#[test]
fn generate_test_extern_wrapper_mut_ref_param() {
    let functions = vec![function("modify", None, vec![param("data", "Data", true, true)], "Data", "()", false, Receiver::RefMut)];
    let shims = extern_wrappers(&functions);
    assert_eq!(shims[0].args[0].mode, ArgMode::RefMut);
    assert_eq!(shims[0].call_expr("MyContract"), "STATE.modify(&mut data)");
}

#[test]
fn lib_test_extern_wrapper_mut_ref_param() {
    let functions = vec![function("modify", None, vec![param("data", "Data", true, true)], "Data", "()", false, Receiver::RefMut)];
    let shims = extern_wrappers(&functions);
    assert_eq!(shims[0].args[0].mode, ArgMode::RefMut);
    assert_eq!(shims[0].call_expr("MyContract"), "STATE.modify(&mut data)");
}

#[test]
fn test_state_static() {
    assert_eq!(state_static("MyContract"), "static mut STATE: MyContract = MyContract::new();");
}

#[test]
fn test_generate_state_static() {
    assert_eq!(state_static("MyContract"), "static mut STATE: MyContract = MyContract::new();");
}

// ---------------------------------------------------------------------------
// The codec table
// ---------------------------------------------------------------------------

#[test]
fn test_get_resolved_type_found_in_map() {
    let map = type_map(&[("Address", "evm_core::Address")]);
    assert_eq!(get_resolved_type(&ty("Address"), &map), "evm_core::Address");
}

#[test]
fn test_get_resolved_type_not_in_map() {
    let map = StringMap::new();
    assert_eq!(get_resolved_type(&ty("u64"), &map), "u64");
}

#[test]
fn test_get_resolved_type_complex_path() {
    let map = type_map(&[("Deposit", "evm_core::standard_bridge::Deposit")]);
    assert_eq!(get_resolved_type(&ty("Deposit"), &map), "evm_core::standard_bridge::Deposit");
}

#[test]
fn get_resolved_type_keeps_the_written_type_where_the_resolved_text_is_no_type() {
    let map = type_map(&[("Address", "not a type !")]);
    assert_eq!(get_resolved_type(&ty("Address"), &map), "Address");
}

#[test]
fn test_encode_input_simple_type() {
    let map = type_map(&[("Address", "evm_core::Address")]);
    let functions = vec![make_function("init", "Address", "()", false)];
    let arms = generate_encode_input_arms(&functions, &map, &vec![]);
    assert_eq!(arms.len(), 1);
    assert_eq!(arms[0].name, "init");
    assert_eq!(convert_text(&arms[0].rule), "evm_core::Address");
}

#[test]
fn test_encode_input_unit_type() {
    let map = StringMap::new();
    let functions = vec![make_function("is_paused", "()", "bool", false)];
    let arms = generate_encode_input_arms(&functions, &map, &vec![]);
    assert_eq!(arms.len(), 1);
    assert_eq!(arms[0].name, "is_paused");
    assert_eq!(convert_text(&arms[0].rule), "()");
}

#[test]
fn test_encode_input_tuple_type() {
    let map = type_map(&[("(Address, u64)", "(evm_core::Address, u64)")]);
    let functions = vec![make_function("transfer", "(Address, u64)", "()", false)];
    let arms = generate_encode_input_arms(&functions, &map, &vec![]);
    assert_eq!(arms.len(), 1);
    assert_eq!(arms[0].name, "transfer");
    assert!(convert_text(&arms[0].rule).contains("evm_core::Address"));
    assert_eq!(convert_text(&arms[0].rule), "(evm_core::Address, u64)");
}

#[test]
fn test_encode_input_custom_returns_error() {
    let map = StringMap::new();
    let functions = vec![make_function("custom_fn", "CustomType", "Vec<u8>", true)];
    let arms = generate_encode_input_arms(&functions, &map, &vec![]);
    assert_eq!(arms.len(), 1);
    assert_eq!(arms[0].name, "custom_fn");
    assert!(matches!(arms[0].rule, CodecRule::CustomRequired));
}

#[test]
fn test_encode_input_with_custom_handler() {
    let map = StringMap::new();
    let handlers =
        vec![make_custom_handler("extra_data", DataDriverRole::EncodeInput, "encode_extra_data")];
    let arms = generate_encode_input_arms(&vec![], &map, &handlers);
    assert_eq!(arms.len(), 1);
    assert_eq!(arms[0].name, "extra_data");
    assert_eq!(handler_name(&arms[0].rule), "encode_extra_data");
}

#[test]
fn test_encode_input_multiple_functions() {
    let map = StringMap::new();
    let functions = vec![
        make_function("pause", "()", "()", false),
        make_function("unpause", "()", "()", false),
        make_function("init", "Address", "()", false),
    ];
    let arms = generate_encode_input_arms(&functions, &map, &vec![]);
    assert_eq!(arms.len(), 3);
    let names: Vec<_> = arms.iter().map(|a| a.name.as_str()).collect();
    assert_eq!(names, vec!["pause", "unpause", "init"]);
}

#[test]
fn test_decode_input_simple_type() {
    let map = type_map(&[("Deposit", "evm_core::Deposit")]);
    let functions = vec![make_function("deposit", "Deposit", "()", false)];
    let arms = generate_decode_input_arms(&functions, &map, &vec![]);
    assert_eq!(arms.len(), 1);
    assert_eq!(arms[0].name, "deposit");
    assert_eq!(convert_text(&arms[0].rule), "evm_core::Deposit");
}

#[test]
fn test_decode_input_custom_returns_error() {
    let map = StringMap::new();
    let functions = vec![make_function("custom_fn", "CustomType", "()", true)];
    let arms = generate_decode_input_arms(&functions, &map, &vec![]);
    assert_eq!(arms.len(), 1);
    assert!(matches!(arms[0].rule, CodecRule::CustomRequired));
}

#[test]
fn test_decode_input_with_custom_handler() {
    let map = StringMap::new();
    let handlers =
        vec![make_custom_handler("extra_data", DataDriverRole::DecodeInput, "decode_extra_input")];
    let arms = generate_decode_input_arms(&vec![], &map, &handlers);
    assert_eq!(arms.len(), 1);
    assert_eq!(arms[0].name, "extra_data");
    assert_eq!(handler_name(&arms[0].rule), "decode_extra_input");
}

#[test]
fn test_decode_input_tuple_type() {
    let map = type_map(&[(
        "(Address, EVMAddress, u64)",
        "(evm_core::Address, evm_core::EVMAddress, u64)",
    )]);
    let functions =
        vec![make_function("transfer_with_fee", "(Address, EVMAddress, u64)", "()", false)];
    let arms = generate_decode_input_arms(&functions, &map, &vec![]);
    assert_eq!(arms.len(), 1);
    assert_eq!(arms[0].name, "transfer_with_fee");
    assert!(convert_text(&arms[0].rule).contains("evm_core::Address"));
    assert!(convert_text(&arms[0].rule).contains("evm_core::EVMAddress"));
}

#[test]
fn test_custom_handler_wrong_role_not_included_in_encode() {
    let map = StringMap::new();
    let handlers = vec![make_custom_handler(
        "extra_data",
        DataDriverRole::DecodeOutput,
        "decode_extra_output",
    )];
    let arms = generate_encode_input_arms(&vec![], &map, &handlers);
    assert_eq!(arms.len(), 0, "DecodeOutput handler should not appear in encode_input_arms");
}

#[test]
fn test_custom_handler_wrong_role_not_included_in_decode_input() {
    let map = StringMap::new();
    let handlers =
        vec![make_custom_handler("extra_data", DataDriverRole::EncodeInput, "encode_extra_data")];
    let arms = generate_decode_input_arms(&vec![], &map, &handlers);
    assert_eq!(arms.len(), 0, "EncodeInput handler should not appear in decode_input_arms");
}

#[test]
fn test_custom_handler_wrong_role_not_included_in_decode_output() {
    let map = StringMap::new();
    let handlers =
        vec![make_custom_handler("extra_data", DataDriverRole::DecodeInput, "decode_extra_input")];
    let arms = generate_decode_output_arms(&vec![], &map, &handlers);
    assert_eq!(arms.len(), 0, "DecodeInput handler should not appear in decode_output_arms");
}

#[test]
fn test_encode_input_mixed_regular_and_custom() {
    let map = type_map(&[("Address", "evm_core::Address")]);
    let functions = vec![
        make_function("init", "Address", "()", false),
        make_function("is_paused", "()", "bool", false),
    ];
    let handlers =
        vec![make_custom_handler("extra_data", DataDriverRole::EncodeInput, "encode_extra_data")];
    let arms = generate_encode_input_arms(&functions, &map, &handlers);
    assert_eq!(arms.len(), 3);
    assert_eq!(arms[0].name, "init");
    assert_eq!(convert_text(&arms[0].rule), "evm_core::Address");
    assert_eq!(arms[1].name, "is_paused");
    assert_eq!(convert_text(&arms[1].rule), "()");
    assert_eq!(arms[2].name, "extra_data");
    assert_eq!(handler_name(&arms[2].rule), "encode_extra_data");
}

#[test]
fn test_decode_output_mixed_regular_and_custom() {
    let map = StringMap::new();
    let functions = vec![
        make_function("pause", "()", "()", false),
        make_function("get_value", "()", "u64", false),
    ];
    let handlers = vec![make_custom_handler(
        "extra_data",
        DataDriverRole::DecodeOutput,
        "decode_extra_output",
    )];
    let arms = generate_decode_output_arms(&functions, &map, &handlers);
    assert_eq!(arms.len(), 3);
    assert_eq!(arms[0].name, "pause");
    assert!(matches!(arms[0].rule, CodecRule::Null));
    assert_eq!(arms[1].name, "get_value");
    assert!(matches!(arms[1].rule, CodecRule::U64));
    assert_eq!(arms[2].name, "extra_data");
    assert_eq!(handler_name(&arms[2].rule), "decode_extra_output");
}

#[test]
fn test_decode_output_unit_returns_null() {
    let map = StringMap::new();
    let functions = vec![make_function("pause", "()", "()", false)];
    let arms = generate_decode_output_arms(&functions, &map, &vec![]);
    assert_eq!(arms.len(), 1);
    assert_eq!(arms[0].name, "pause");
    assert!(
        matches!(arms[0].rule, CodecRule::Null),
        "Unit type should return Null directly, not use the generic conversion"
    );
}

#[test]
fn test_decode_output_u64_uses_special_handler() {
    let map = StringMap::new();
    let functions = vec![make_function("finalization_period", "()", "u64", false)];
    let arms = generate_decode_output_arms(&functions, &map, &vec![]);
    assert_eq!(arms.len(), 1);
    assert_eq!(arms[0].name, "finalization_period");
    assert!(
        matches!(arms[0].rule, CodecRule::U64),
        "u64 should use the dedicated path, not the generic conversion"
    );
}

#[test]
fn test_decode_output_bool() {
    let map = StringMap::new();
    let functions = vec![make_function("is_paused", "()", "bool", false)];
    let arms = generate_decode_output_arms(&functions, &map, &vec![]);
    assert_eq!(arms.len(), 1);
    assert_eq!(arms[0].name, "is_paused");
    assert_eq!(convert_text(&arms[0].rule), "bool");
}

#[test]
fn test_decode_output_complex_type() {
    let map = type_map(&[("Option<PendingWithdrawal>", "Option<evm_core::PendingWithdrawal>")]);
    let functions =
        vec![make_function("pending_withdrawal", "WithdrawalId", "Option<PendingWithdrawal>", false)];
    let arms = generate_decode_output_arms(&functions, &map, &vec![]);
    assert_eq!(arms.len(), 1);
    assert_eq!(arms[0].name, "pending_withdrawal");
    assert!(convert_text(&arms[0].rule).contains("evm_core::PendingWithdrawal"));
}

#[test]
fn test_decode_output_custom_returns_error() {
    let map = StringMap::new();
    let functions = vec![make_function("custom_fn", "()", "Vec<u8>", true)];
    let arms = generate_decode_output_arms(&functions, &map, &vec![]);
    assert_eq!(arms.len(), 1);
    assert!(matches!(arms[0].rule, CodecRule::CustomRequired));
}

#[test]
fn test_decode_output_with_custom_handler() {
    let map = StringMap::new();
    let handlers = vec![make_custom_handler(
        "extra_data",
        DataDriverRole::DecodeOutput,
        "decode_extra_output",
    )];
    let arms = generate_decode_output_arms(&vec![], &map, &handlers);
    assert_eq!(arms.len(), 1);
    assert_eq!(arms[0].name, "extra_data");
    assert_eq!(handler_name(&arms[0].rule), "decode_extra_output");
}

#[test]
fn decode_output_uses_the_fed_type() {
    let map = StringMap::new();
    let mut f = make_function("pending_withdrawals", "()", "()", false);
    f.feed_type = Some(ty("(WithdrawalId, PendingWithdrawal)"));
    let arms = generate_decode_output_arms(&vec![f], &map, &vec![]);
    assert_eq!(convert_text(&arms[0].rule), "(WithdrawalId, PendingWithdrawal)");
}

fn constant(key: &EventKey) -> &str {
    match key {
        EventKey::Constant { path } => path,
        other => panic!("expected a constant, found {other:?}"),
    }
}

#[test]
fn test_decode_event_with_const_topic() {
    let map = type_map(&[
        ("events::PauseToggled::PAUSED", "evm_core::events::PauseToggled::PAUSED"),
        ("events::PauseToggled", "evm_core::events::PauseToggled"),
    ]);
    let events = vec![make_event("events::PauseToggled::PAUSED", "events::PauseToggled")];
    let arms = generate_decode_event_arms(&events, &map).expect("an event table");
    assert_eq!(arms.len(), 1);
    assert_eq!(constant(&arms[0].key), "evm_core::events::PauseToggled::PAUSED");
    assert_eq!(arms[0].ty, "evm_core::events::PauseToggled");
}

#[test]
fn test_decode_event_with_multi_segment_topic() {
    let map = StringMap::new();
    let events = vec![make_event("events::Paused", "PauseEvent")];
    let arms = generate_decode_event_arms(&events, &map).expect("an event table");
    assert_eq!(arms.len(), 1);
    assert_eq!(constant(&arms[0].key), "events::Paused");
    assert_eq!(arms[0].ty, "PauseEvent");
}

#[test]
fn test_decode_event_skips_lowercase_variable() {
    let map = StringMap::new();
    let events = vec![make_event("topic", "SomeEvent")];
    // A bare lowercase identifier names a variable. No rule is made for
    // it, and the table is not generated without saying so.
    let err = generate_decode_event_arms(&events, &map).unwrap_err();
    assert_eq!(err.rule, Rule::VariableTopic);
    assert_eq!(err.subject, "topic");
    assert_eq!(
        err.message(),
        "event topic `topic` is a bare lowercase identifier, which names a variable; use a string literal or the path of a constant as the topic"
    );
}

#[test]
fn test_decode_event_uppercase_single_ident_kept() {
    let map = StringMap::new();
    let events = vec![make_event("PAUSED", "PauseEvent")];
    let arms = generate_decode_event_arms(&events, &map).expect("an event table");
    assert_eq!(arms.len(), 1);
    assert_eq!(constant(&arms[0].key), "PAUSED");
    assert_eq!(arms[0].ty, "PauseEvent");
}

#[test]
fn test_decode_event_string_literal_topic() {
    let map = StringMap::new();
    let events = vec![make_event("bridge/deposited", "DepositEvent")];
    let arms = generate_decode_event_arms(&events, &map).expect("an event table");
    assert_eq!(arms.len(), 1);
    match &arms[0].key {
        EventKey::Literal { text } => assert_eq!(text, "bridge/deposited"),
        other => panic!("expected a literal, found {other:?}"),
    }
    assert_eq!(arms[0].ty, "DepositEvent");
}

#[test]
fn test_decode_event_multiple_events() {
    let map = type_map(&[
        ("events::PauseToggled::PAUSED", "evm_core::events::PauseToggled::PAUSED"),
        ("events::BridgeInitiated::TOPIC", "evm_core::events::BridgeInitiated::TOPIC"),
    ]);
    let events = vec![
        make_event("events::PauseToggled::PAUSED", "PauseToggled"),
        make_event("events::BridgeInitiated::TOPIC", "BridgeInitiated"),
    ];
    let arms = generate_decode_event_arms(&events, &map).expect("an event table");
    assert_eq!(arms.len(), 2);
    assert_eq!(constant(&arms[0].key), "evm_core::events::PauseToggled::PAUSED");
    assert_eq!(constant(&arms[1].key), "evm_core::events::BridgeInitiated::TOPIC");
    assert_eq!(arms[0].ty, "PauseToggled");
    assert_eq!(arms[1].ty, "BridgeInitiated");
}

#[test]
fn test_module_generates_complete_structure() {
    let map = type_map(&[("Address", "evm_core::Address")]);
    let functions = vec![
        make_function("init", "Address", "()", false),
        make_function("is_paused", "()", "bool", false),
    ];
    let events = vec![make_event("PAUSED", "PauseEvent")];
    let table = codec_module(&map, &functions, &events, &vec![]).expect("a codec table");
    assert_eq!(table.encode_input.len(), 2);
    assert_eq!(table.decode_input.len(), 2);
    assert_eq!(table.decode_output.len(), 2);
    assert_eq!(table.decode_event.len(), 1);
    assert_eq!(table.encode_input[0].name, "init");
    assert_eq!(table.encode_input[1].name, "is_paused");
    assert!(table.handler_sources.is_empty());
}

// ---------------------------------------------------------------------------
// A bridge contract
// ---------------------------------------------------------------------------

const TEST_BRIDGE: &str = r#"
mod test_bridge {
    use evm_core::standard_bridge::events;
    use evm_core::standard_bridge::{
        Deposit, EVMAddress, PendingWithdrawal, SetEVMAddressOrOffset, SetU64,
        WithdrawalId, WithdrawalRequest,
    };
    use evm_core::Address as DSAddress;

    pub struct TestBridge {
        owner: Option<DSAddress>,
        is_paused: bool,
        finalization_period: u64,
        other_bridge: EVMAddress,
    }

    impl TestBridge {
        pub const fn new() -> Self {
            Self { owner: None, is_paused: false, finalization_period: 0, other_bridge: EVMAddress::ZERO }
        }

        /// Initializes the contract with an owner.
        pub fn init(&mut self, owner: DSAddress) {
            self.owner = Some(owner);
        }

        /// Returns whether the bridge is paused.
        pub fn is_paused(&self) -> bool {
            self.is_paused
        }

        /// Pauses the bridge.
        pub fn pause(&mut self) {
            self.is_paused = true;
            abi::emit(events::PauseToggled::PAUSED, events::PauseToggled());
        }

        /// Unpauses the bridge.
        pub fn unpause(&mut self) {
            self.is_paused = false;
            abi::emit(events::PauseToggled::UNPAUSED, events::PauseToggled());
        }

        /// Returns the finalization period.
        pub fn finalization_period(&self) -> u64 {
            self.finalization_period
        }

        /// Sets a u64 configuration value.
        pub fn set_u64(&mut self, _value: SetU64) {
            abi::emit(
                events::U64Set::FINALIZATION_PERIOD,
                events::U64Set { previous: 0, new: 0 },
            );
        }

        /// Sets an EVM address configuration value.
        pub fn set_evm_address_or_offset(&mut self, _value: SetEVMAddressOrOffset) {
            abi::emit(
                events::EVMAddressOrOffsetSet::OTHER_BRIDGE,
                events::EVMAddressOrOffsetSet {
                    previous: EVMAddress::default(),
                    new: EVMAddress::default(),
                },
            );
        }

        /// Returns the other bridge address.
        pub fn other_bridge(&self) -> EVMAddress {
            self.other_bridge
        }

        /// Deposits funds.
        pub fn deposit(&mut self, _deposit: Deposit) {
            abi::emit(
                events::TransactionDeposited::TOPIC,
                events::TransactionDeposited {
                    from: EVMAddress::default(),
                    to: EVMAddress::default(),
                    version: [0u8; 32],
                    opaque_data: Vec::new(),
                },
            );
            abi::emit(
                events::BridgeInitiated::TOPIC,
                events::BridgeInitiated {
                    from: None,
                    to: EVMAddress::default(),
                    amount: 0,
                    deposit_fee: 0,
                    extra_data: Vec::new(),
                },
            );
        }

        /// Returns a pending withdrawal.
        pub fn pending_withdrawal(&self, _id: WithdrawalId) -> Option<PendingWithdrawal> {
            None
        }

        /// Adds a pending withdrawal.
        pub fn add_pending_withdrawal(&mut self, _withdrawal: WithdrawalRequest) {
            abi::emit(
                events::PendingWithdrawal::ADDED,
                events::PendingWithdrawal {
                    from: EVMAddress::default(),
                    to: DSAddress::Contract(dusk_core::abi::ContractId::from_bytes([0u8; 32])),
                    amount: 0,
                    block_height: 0,
                },
            );
        }

        /// Finalizes a withdrawal.
        pub fn finalize_withdrawal(&mut self, _id: WithdrawalId) {
            abi::emit(
                events::BridgeFinalized::TOPIC,
                events::BridgeFinalized {
                    from: EVMAddress::default(),
                    to: DSAddress::Contract(dusk_core::abi::ContractId::from_bytes([0u8; 32])),
                    amount: 0,
                },
            );
        }

        /// Returns the owner.
        pub fn owner(&self) -> Option<DSAddress> {
            self.owner
        }

        // Private helper - should NOT be exported
        fn only_owner(&self) {}
    }
}
"#;

fn bridge_schema() -> ContractSchema {
    contract(&module(TEST_BRIDGE)).expect("the bridge compiles").schema
}

#[test]
fn test_schema_contract_name() {
    assert_eq!(bridge_schema().name, "TestBridge");
}

#[test]
fn test_public_functions_extracted() {
    let schema = bridge_schema();
    let names: Vec<_> = schema.iter_functions().iter().map(|f| f.name.as_str()).collect();

    // All public functions should be present, but for the initializer,
    // which is validated and not listed.
    assert!(!names.contains(&"init"));
    assert!(names.contains(&"is_paused"));
    assert!(names.contains(&"pause"));
    assert!(names.contains(&"unpause"));
    assert!(names.contains(&"finalization_period"));
    assert!(names.contains(&"set_u64"));
    assert!(names.contains(&"set_evm_address_or_offset"));
    assert!(names.contains(&"other_bridge"));
    assert!(names.contains(&"deposit"));
    assert!(names.contains(&"pending_withdrawal"));
    assert!(names.contains(&"add_pending_withdrawal"));
    assert!(names.contains(&"finalize_withdrawal"));
    assert!(names.contains(&"owner"));

    // Private functions should NOT be present
    assert!(!names.contains(&"only_owner"));
}

#[test]
fn test_function_signatures() {
    let schema = bridge_schema();
    assert!(schema.get_function("init").is_none());
    let set_u64 = schema.get_function("set_u64").unwrap();
    assert_eq!(set_u64.doc, "Sets a u64 configuration value.");
    assert!(set_u64.input.contains("SetU64"));

    let is_paused = schema.get_function("is_paused").unwrap();
    assert!(is_paused.input.contains("()"));
    assert!(is_paused.output.contains("bool"));

    let pending = schema.get_function("pending_withdrawal").unwrap();
    assert!(pending.input.contains("WithdrawalId"));
    assert!(pending.output.contains("Option"));
    assert!(pending.output.contains("PendingWithdrawal"));
}

#[test]
fn test_events_extracted() {
    let schema = bridge_schema();
    let topics: Vec<_> = schema.iter_events().iter().map(|e| e.topic.as_str()).collect();

    // Event topics are stored as path expressions
    assert!(topics.contains(&"events::PauseToggled::PAUSED"));
    assert!(topics.contains(&"events::PauseToggled::UNPAUSED"));
    assert!(topics.contains(&"events::U64Set::FINALIZATION_PERIOD"));
    assert!(topics.contains(&"events::EVMAddressOrOffsetSet::OTHER_BRIDGE"));
    assert!(topics.contains(&"events::TransactionDeposited::TOPIC"));
    assert!(topics.contains(&"events::BridgeInitiated::TOPIC"));
    assert!(topics.contains(&"events::PendingWithdrawal::ADDED"));
    assert!(topics.contains(&"events::BridgeFinalized::TOPIC"));
}

#[test]
fn test_event_data_types() {
    let schema = bridge_schema();
    let paused = schema.get_event("events::PauseToggled::PAUSED").unwrap();
    assert!(paused.data.contains("PauseToggled"));

    let deposited = schema.get_event("events::TransactionDeposited::TOPIC").unwrap();
    assert!(deposited.data.contains("TransactionDeposited"));

    let finalized = schema.get_event("events::BridgeFinalized::TOPIC").unwrap();
    assert!(finalized.data.contains("BridgeFinalized"));
}

#[test]
fn bridge_schema_holds_resolved_types_in_declaration_order() {
    let schema = bridge_schema();
    let names: Vec<_> = schema.iter_functions().iter().map(|f| f.name.as_str()).collect();
    assert_eq!(
        names,
        vec![
            "is_paused",
            "pause",
            "unpause",
            "finalization_period",
            "set_u64",
            "set_evm_address_or_offset",
            "other_bridge",
            "deposit",
            "pending_withdrawal",
            "add_pending_withdrawal",
            "finalize_withdrawal",
            "owner",
        ]
    );
    assert!(schema.get_function("init").is_none());
    assert!(schema.get_function("new").is_none());
    assert_eq!(schema.get_function("pause").unwrap().input, "()");
    assert_eq!(schema.get_function("pause").unwrap().output, "()");
    assert_eq!(
        schema.get_function("pending_withdrawal").unwrap().output,
        "Option<evm_core::standard_bridge::PendingWithdrawal>"
    );
    assert_eq!(
        schema.get_event("events::PauseToggled::PAUSED").unwrap().data,
        "evm_core::standard_bridge::events::PauseToggled"
    );
    assert_eq!(schema.iter_imports().len(), 9);
    assert_eq!(schema.get_import("DSAddress").unwrap().path, "evm_core::Address");
    assert!(schema.get_import("Address").is_none());
    assert!(schema.get_function("only_owner").is_none());
    assert!(schema.get_event("events::Missing::TOPIC").is_none());
}

#[test]
fn bridge_codec_table_is_keyed_by_resolved_topics() {
    let generated = contract(&module(TEST_BRIDGE)).expect("the bridge compiles");
    let keys: Vec<_> = generated.codec.decode_event.iter().map(|a| constant(&a.key)).collect();
    assert_eq!(keys.len(), 8);
    assert_eq!(keys[0], "evm_core::standard_bridge::events::PauseToggled::PAUSED");
    assert_eq!(
        generated.type_map.get("events::PauseToggled::PAUSED").unwrap(),
        "evm_core::standard_bridge::events::PauseToggled::PAUSED"
    );
    assert_eq!(generated.state_static, "static mut STATE: TestBridge = TestBridge::new();");
    assert_eq!(generated.shims.len(), 12);
    assert_eq!(generated.shims[0].call_expr("TestBridge"), "STATE.is_paused()");
}

// ---------------------------------------------------------------------------
// Scenarios and laws on concrete values
// ---------------------------------------------------------------------------

const COUNTER: &str = r#"
mod counter {
    use dusk_core::abi;

    pub struct Counter {
        value: u64,
    }

    pub struct CountChanged {
        pub old_value: u64,
        pub new_value: u64,
    }

    impl Counter {
        pub const fn new() -> Self {
            Self { value: 0 }
        }

        /// Get the current count.
        pub fn get_count(&self) -> u64 {
            self.value
        }

        /// Set the counter to a specific value.
        pub fn set_count(&mut self, value: u64) {
            let old_value = self.value;
            self.value = value;
            abi::emit("count_changed", CountChanged { old_value, new_value: self.value });
        }

        /// Increment the counter by one.
        pub fn increment(&mut self) {
            let old_value = self.value;
            self.value = self.value.saturating_add(1);
            abi::emit("count_changed", CountChanged { old_value, new_value: self.value });
        }
    }
}
"#;

#[test]
fn duplicate_state_struct_is_rejected() {
    let err = diagnostic_of(&module(COUNTER));
    assert_eq!(err.rule, Rule::DuplicateState);
    assert_eq!(err.position, Some(2));
    assert!(err.message().contains("exactly one pub struct"));
}

fn counter_source() -> String {
    COUNTER.replace("pub struct CountChanged", "struct CountChanged")
}

#[test]
fn scenario_schema_lists_inputs_and_outputs() {
    let generated = contract(&module(&counter_source())).expect("the counter compiles");
    let schema = &generated.schema;
    assert_eq!(schema.name, "Counter");
    assert_eq!(schema.functions.len(), 3);
    let get_count = schema.get_function("get_count").unwrap();
    assert_eq!(get_count.input, "()");
    assert_eq!(get_count.output, "u64");
    assert_eq!(get_count.doc, "Get the current count.");
    assert!(!get_count.custom);
    let set_count = schema.get_function("set_count").unwrap();
    assert_eq!(set_count.input, "u64");
    assert_eq!(set_count.output, "()");
}

#[test]
fn scenario_two_emit_sites_share_one_event() {
    let generated = contract(&module(&counter_source())).expect("the counter compiles");
    assert_eq!(generated.events.len(), 1);
    assert_eq!(generated.events[0].topic, "count_changed");
    assert_eq!(text(&generated.events[0].data_type), "CountChanged");
    assert_eq!(generated.schema.events.len(), 1);
    assert_eq!(generated.schema.events[0].topic, "count_changed");
    // A topic written as a string literal keys its decode rule as it stands.
    assert_eq!(generated.codec.decode_event.len(), 1);
    match &generated.codec.decode_event[0].key {
        EventKey::Literal { text } => assert_eq!(text, "count_changed"),
        other => panic!("expected a literal, found {other:?}"),
    }
    assert_eq!(generated.codec.decode_event[0].ty, "CountChanged");
}

#[test]
fn dedup_keeps_the_first_event_of_each_topic() {
    let events = vec![
        make_event("a", "First"),
        make_event("b", "Second"),
        make_event("a", "Third"),
        make_event("c", "Fourth"),
        make_event("b", "Fifth"),
    ];
    let kept = dedup_events(events);
    let seen: Vec<_> = kept.iter().map(|e| (e.topic.as_str(), text(&e.data_type))).collect();
    assert_eq!(
        seen,
        vec![("a", "First".to_string()), ("b", "Second".to_string()), ("c", "Fourth".to_string())]
    );
    assert!(dedup_events(vec![]).is_empty());
}

#[test]
fn input_type_collapses_by_parameter_count() {
    let none = parameters(&method("pub fn f(&self) {}"));
    assert_eq!(text(&input_type(&none)), "()");
    let one = parameters(&method("pub fn f(&self, a: Option<u8>) {}"));
    assert_eq!(text(&input_type(&one)), "Option<u8>");
    let two = parameters(&method("pub fn f(&self, a: Address, b: &u64) {}"));
    assert_eq!(text(&input_type(&two)), "(Address, u64)");
    let three = parameters(&method("pub fn f(&mut self, a: A, b: B, (c, d): (C, D)) {}"));
    assert_eq!(text(&input_type(&three)), "(A, B, (C, D))");
    assert_eq!(three[2].name, "arg");
}

#[test]
fn resolution_leaves_qualified_types_alone_and_repeats() {
    let imports = vec![make_import("Deposit", "evm_core::Deposit")];
    let import_map = build_import_map(&imports);
    for source in ["u64", "core::option::Option<u32>", "(u8, alloc::vec::Vec<u8>)", "&mut [u8; 4]"] {
        let parsed = ty(source);
        assert_eq!(resolve_type(&parsed, &import_map), text(&parsed));
    }
    let short = ty("Vec<(Deposit, &Deposit)>");
    let first = resolve_type(&short, &import_map);
    let second = resolve_type(&short, &import_map);
    assert_eq!(first, "Vec<(evm_core::Deposit, &evm_core::Deposit)>");
    assert_eq!(first, second);
}

#[test]
fn resolution_of_special_forms() {
    let imports = vec![make_import("A", "x::A"), make_import("A", "y::A")];
    let import_map = build_import_map(&imports);
    // The later import of a name wins.
    assert_eq!(resolve_type(&ty("A"), &import_map), "y::A");
    assert_eq!(resolve_type(&ty("&mut A"), &import_map), "&mut y::A");
    assert_eq!(resolve_type(&ty("&A"), &import_map), "&y::A");
    assert_eq!(resolve_type(&ty("A<A>"), &import_map), "y::A<y::A>");
    let callable = TypeExpr::Path {
        segments: vec![Segment {
            ident: "Fn".to_string(),
            shape: ArgShape::Paren,
            args: vec![ty("A"), ty("u8")],
            output: Some(Box::new(ty("A"))),
        }],
    };
    assert_eq!(resolve_type(&callable, &import_map), "Fn(y::A, u8) -> y::A");
    let procedure = TypeExpr::Path {
        segments: vec![Segment {
            ident: "FnMut".to_string(),
            shape: ArgShape::Paren,
            args: vec![],
            output: None,
        }],
    };
    assert_eq!(resolve_type(&procedure, &import_map), "FnMut()");
    assert_eq!(resolve_type(&ty("A::B<A>"), &import_map), "y::A::B<y::A>");
    assert_eq!(resolve_type(&ty("b::A"), &import_map), "b::A");
    assert_eq!(resolve_type(&ty("Vec<'static, A>"), &import_map), "Vec<'static, y::A>");
}

#[test]
fn resolve_path_string_replaces_the_first_segment() {
    let imports = vec![make_import("events", "evm_core::standard_bridge::events")];
    let import_map = build_import_map(&imports);
    assert_eq!(
        resolve_path_string("events::PauseToggled::PAUSED", &import_map),
        "evm_core::standard_bridge::events::PauseToggled::PAUSED"
    );
    assert_eq!(resolve_path_string("events", &import_map), "evm_core::standard_bridge::events");
    assert_eq!(resolve_path_string("other::PAUSED", &import_map), "other::PAUSED");
    assert_eq!(resolve_path_string("count_changed", &import_map), "count_changed");
    assert_eq!(resolve_path_string("", &import_map), "");
}

#[test]
fn type_map_holds_types_and_topics() {
    let imports = vec![
        make_import("Address", "evm_core::Address"),
        make_import("events", "evm_core::events"),
    ];
    let functions = vec![make_function("init", "(Address, u64)", "Option<Address>", false)];
    let events = vec![make_event("events::Paused::TOPIC", "events::Paused")];
    let map = build_type_map(&imports, &functions, &events);
    assert_eq!(map.get("(Address, u64)").unwrap(), "(evm_core::Address, u64)");
    assert_eq!(map.get("Option<Address>").unwrap(), "Option<evm_core::Address>");
    assert_eq!(map.get("events::Paused").unwrap(), "evm_core::events::Paused");
    assert_eq!(map.get("events::Paused::TOPIC").unwrap(), "evm_core::events::Paused::TOPIC");
    assert!(map.get("Address").is_none());
    assert!(map.contains_key("(Address, u64)"));
}

fn driver_for(source: &str) -> ContractDriver {
    let generated = contract(&module(source)).expect("the contract compiles");
    ContractDriver { table: generated.codec, schema: generated.schema }
}

#[test]
fn scenario_unknown_function_is_unsupported() {
    let driver = driver_for(&counter_source());
    let err = driver.encode_input_fn("nonexistent").unwrap_err();
    match &err {
        DriverError::Unsupported { lookup, name } => {
            assert_eq!(*lookup, Lookup::EncodeInput);
            assert_eq!(name, "nonexistent");
        }
        other => panic!("expected an unsupported lookup, found {other:?}"),
    }
    assert_eq!(err.message(), "unsupported: encode_input: unknown fn nonexistent");
    assert_eq!(
        driver.decode_input_fn("nonexistent").unwrap_err().message(),
        "unsupported: decode_input: unknown fn nonexistent"
    );
    assert_eq!(
        driver.decode_output_fn("nonexistent").unwrap_err().message(),
        "unsupported: decode_output: unknown fn nonexistent"
    );
    assert_eq!(
        driver.decode_event("nonexistent", &StringMap::new()).unwrap_err().message(),
        "unsupported: decode_event: unknown event nonexistent"
    );
}

#[test]
fn driver_selects_the_rules_of_known_functions() {
    let driver = driver_for(&counter_source());
    assert_eq!(convert_text(driver.encode_input_fn("set_count").unwrap()), "u64");
    assert_eq!(convert_text(driver.decode_input_fn("get_count").unwrap()), "()");
    assert!(matches!(driver.decode_output_fn("get_count").unwrap(), CodecRule::U64));
    assert!(matches!(driver.decode_output_fn("set_count").unwrap(), CodecRule::Null));
    assert_eq!(driver.get_schema().name, "Counter");
}

const CUSTOM: &str = r#"
mod custom {
    use evm_core::events;

    pub struct Custom;

    impl Custom {
        pub const fn new() -> Self { Self }

        #[contract(custom)]
        pub fn extra_data(&self, pk: PublicKey) -> Vec<u8> { encode(pk) }

        #[contract(custom)]
        pub fn opaque(&self) -> Vec<u8> { Vec::new() }

        pub fn plain(&self) -> u64 { 0 }

        pub fn notify(&mut self) {
            abi::emit(events::Notified::TOPIC, events::Notified {});
            abi::emit("literal/topic", events::Notified {});
        }
    }

    #[contract(encode_input = "extra_data")]
    fn encode_extra_data(json: &str) -> Result<Vec<u8>, Error> { encode_with(json) }

    #[contract(decode_output = "extra_data")]
    fn decode_extra_data(rkyv: &[u8]) -> Result<JsonValue, Error> { decode_with(rkyv) }

    #[contract(encode_input = "plain")]
    fn encode_plain(json: &str) -> Result<Vec<u8>, Error> { encode_with(json) }
}
"#;

#[test]
fn custom_and_generic_rules_exclude_each_other() {
    let driver = driver_for(CUSTOM);
    // A custom function with a handler gets the handler.
    assert_eq!(handler_name(driver.encode_input_fn("extra_data").unwrap()), "encode_extra_data");
    assert_eq!(handler_name(driver.decode_output_fn("extra_data").unwrap()), "decode_extra_data");
    // Without a handler for the role the lookup fails.
    let err = driver.decode_input_fn("extra_data").unwrap_err();
    assert!(matches!(err, DriverError::CustomHandlerRequired { .. }));
    assert_eq!(err.message(), "unsupported: custom handler required: extra_data");
    assert!(matches!(
        driver.encode_input_fn("opaque").unwrap_err(),
        DriverError::CustomHandlerRequired { .. }
    ));
    // A function that is not custom never gets a handler.
    assert_eq!(convert_text(driver.encode_input_fn("plain").unwrap()), "()");
    assert!(matches!(driver.decode_output_fn("plain").unwrap(), CodecRule::U64));
    assert!(driver.schema.get_function("extra_data").unwrap().custom);
    assert!(!driver.schema.get_function("plain").unwrap().custom);
    assert_eq!(driver.table.handler_sources.len(), 3);
}

#[test]
fn driver_decodes_events_by_constant_and_literal() {
    let driver = driver_for(CUSTOM);
    let mut constants = StringMap::new();
    constants.insert("evm_core::events::Notified::TOPIC".to_string(), "notified".to_string());
    assert_eq!(driver.decode_event("notified", &constants).unwrap(), "evm_core::events::Notified");
    assert_eq!(
        driver.decode_event("literal/topic", &constants).unwrap(),
        "evm_core::events::Notified"
    );
    assert!(driver.decode_event("notified", &StringMap::new()).is_err());
}

#[test]
fn custom_handlers_are_found_among_the_items() {
    let parsed = module(CUSTOM);
    let handlers = custom_data_driver_handlers(&parsed.items);
    assert_eq!(handlers.len(), 3);
    assert_eq!(handlers[0].fn_name, "extra_data");
    assert_eq!(handlers[0].role, DataDriverRole::EncodeInput);
    assert_eq!(handlers[0].handler, "encode_extra_data");
    assert_eq!(handlers[1].role, DataDriverRole::DecodeOutput);
    assert!(!handlers[0].source.contains("contract"));
    let flags: Vec<_> = parsed.items.iter().map(is_custom_handler).collect();
    assert_eq!(flags, vec![false, false, false, true, true, true]);
}

#[test]
fn extraction_reads_docs_and_custom_marks() {
    let m = method(
        "/// First line.\n///   Second line.  \n#[contract(custom)]\npub fn f(&self) {}",
    );
    assert_eq!(extract_doc_comment(&m.attrs), Some("First line. Second line.".to_string()));
    assert!(has_custom_attribute(&m.attrs));
    let plain = method("#[inline]\npub fn f(&self) {}");
    assert_eq!(extract_doc_comment(&plain.attrs), None);
    assert!(!has_custom_attribute(&plain.attrs));
}

#[test]
fn public_methods_skip_private_methods_and_the_constructor() {
    let b = block(
        "impl C { pub const fn new() -> Self { Self } pub fn a(&self) {} fn b(&self) {} pub(crate) fn c(&self) {} pub fn d(&mut self, x: &mut X) -> &Y { &self.y } }",
    );
    let functions = public_methods(&b).unwrap();
    let names: Vec<_> = functions.iter().map(|f| f.name.as_str()).collect();
    assert_eq!(names, vec!["a", "d"]);
    assert_eq!(functions[0].receiver, Receiver::Ref);
    assert_eq!(functions[1].receiver, Receiver::RefMut);
    assert!(functions[1].returns_ref);
    assert_eq!(text(&functions[1].output_type), "Y");
    assert!(functions[1].params[0].is_mut_ref);
    assert!(impl_block_methods(&b).is_ok());
}

#[test]
fn feeding_without_a_fed_type_is_rejected() {
    let b = block("impl C { pub fn stream(&self) { abi::feed(1u64); } }");
    let err = public_methods(&b).unwrap_err();
    assert_eq!(err.rule, Rule::FeedTypeMissing);
    assert!(err.message().contains("method `stream` uses `abi::feed()`"));
    let typed =
        block("impl C { #[contract(feeds = \"u64\")] pub fn stream(&self) { abi::feed(1u64); } }");
    let functions = public_methods(&typed).unwrap();
    assert_eq!(text(functions[0].feed_type.as_ref().unwrap()), "u64");
}

#[test]
fn emit_calls_reads_topics_and_types() {
    let b = block(
        r#"impl C {
            fn a(&self) {
                emit("plain", Event());
                abi::emit(TOPIC, events::Moved { x: 1 });
                abi::emit(topic(), Event());
                abi::emit("one");
                other::emit("no", Event());
                abi::emit("nested", wrap(abi::emit("inner", data)));
                abi::emit("plain", Other());
            }
        }"#,
    );
    let events = emit_calls(&b);
    let seen: Vec<_> = events.iter().map(|e| (e.topic.as_str(), text(&e.data_type))).collect();
    assert_eq!(
        seen,
        vec![
            ("plain", "Event".to_string()),
            ("TOPIC", "events::Moved".to_string()),
            ("nested", "wrap".to_string()),
            ("inner", "data".to_string()),
        ]
    );
}

#[test]
fn interface_defaults_are_dispatched_through_the_interface() {
    let source = r#"
    mod owned {
        pub struct Owned;
        impl Owned {
            pub const fn new() -> Self { Self }
        }
        #[contract(expose = [owner, version, rename])]
        impl Ownable for Owned {
            fn owner(&self) -> &Address {}
            fn version() -> String {}
            fn rename(&mut self, name: &str) { self.name = name.into(); }
            fn hidden(&self) {}
        }
    }"#;
    let generated = contract(&module(source)).expect("the contract compiles");
    assert_eq!(generated.functions.len(), 3);
    assert_eq!(generated.functions[0].trait_name.as_deref(), Some("Ownable"));
    assert_eq!(generated.functions[2].trait_name, None);
    assert_eq!(generated.shims[0].call_expr("Owned"), "Ownable::owner(&STATE).clone()");
    assert_eq!(generated.shims[1].call_expr("Owned"), "<Owned as Ownable>::version()");
    assert_eq!(generated.shims[2].call_expr("Owned"), "STATE.rename(&name)");
    let stripped = match module(source).items.remove(2) {
        Item::Impl { block } => strip_contract_attributes(block),
        _ => panic!("expected an impl block"),
    };
    assert!(stripped.attrs.is_empty());
    let left: Vec<_> = stripped.methods.iter().map(|m| m.name.as_str()).collect();
    assert_eq!(left, vec!["rename"]);
}

fn rule_of(source: &str) -> (Rule, String) {
    let err: ContractError = diagnostic_of(&module(source));
    (err.rule, err.message())
}

#[test]
fn pipeline_reports_the_first_diagnostic() {
    let no_content = ContractModule { has_content: false, items: vec![] };
    assert_eq!(diagnostic_of(&no_content).rule, Rule::NoContent);
    let (rule, msg) = rule_of("mod m { use a::*; use self::b; pub struct S; }");
    assert_eq!(rule, Rule::GlobImport);
    assert!(msg.contains("does not support glob imports"));
    let (rule, msg) = rule_of("mod m { use super::b::C; pub struct S; }");
    assert_eq!(rule, Rule::RelativeImport);
    assert!(msg.contains("does not support relative imports"));
    let (rule, msg) = rule_of("mod m { struct S; }");
    assert_eq!(rule, Rule::MissingState);
    assert!(msg.contains("must contain a pub struct"));
    let (rule, msg) = rule_of("mod m { pub struct S; impl Other { fn f() {} } }");
    assert_eq!(rule, Rule::MissingImpl);
    assert_eq!(msg, "#[contract] module must contain an impl block for `S`");
    let (rule, _) = rule_of("mod m { pub struct S; impl S { pub fn f(self) {} } }");
    assert_eq!(rule, Rule::ConsumesSelf);
    let (rule, _) = rule_of("mod m { pub struct S; impl S { pub fn f(&self) {} } }");
    assert_eq!(rule, Rule::ConstructorMissing);
    let (rule, _) = rule_of(
        "mod m { pub struct S; impl S { pub const fn new() -> Self { S } pub fn init(&self) {} } }",
    );
    assert_eq!(rule, Rule::InitNotMutable);
    let data = contract_data(&module(
        "mod m { use a::B; pub struct S; impl S { pub const fn new() -> S { S } } impl S { fn g(&self) {} } }",
    ))
    .unwrap();
    assert_eq!(data.contract_name, "S");
    assert_eq!(data.impl_blocks, vec![2, 3]);
    assert_eq!(data.imports.len(), 1);
}

#[test]
fn schema_is_generated_from_descriptors() {
    let imports = vec![make_import("Address", "evm_core::Address")];
    let mut f = make_function("init", "Address", "()", true);
    f.doc = Some("Sets up.".to_string());
    let s = schema("Demo", &imports, &vec![f], &vec![make_event("TOPIC", "Address")]);
    assert_eq!(s.name, "Demo");
    assert_eq!(s.imports[0].name, "Address");
    assert_eq!(s.functions[0].doc, "Sets up.");
    assert_eq!(s.functions[0].input, "evm_core::Address");
    assert!(s.functions[0].custom);
    assert_eq!(s.events[0].data, "evm_core::Address");
}

// ---------------------------------------------------------------------------
// One rule per name, one rule per event
// ---------------------------------------------------------------------------

fn arm_names(arms: &[CodecArm]) -> Vec<&str> {
    arms.iter().map(|arm| arm.name.as_str()).collect()
}

#[test]
fn handler_of_an_operation_adds_no_second_arm() {
    let map = StringMap::new();
    let functions = vec![make_function("f", "u64", "()", false)];
    let handlers = vec![make_custom_handler("f", DataDriverRole::DecodeInput, "decode_f")];
    let arms = generate_decode_input_arms(&functions, &map, &handlers);
    assert_eq!(arm_names(&arms), vec!["f"]);
    // The operation is not custom: its one rule is the generic one.
    assert_eq!(convert_text(&arms[0].rule), "u64");
}

#[test]
fn custom_operation_with_handler_has_one_arm() {
    let map = StringMap::new();
    let functions = vec![make_function("f", "u64", "()", true)];
    let handlers = vec![make_custom_handler("f", DataDriverRole::EncodeInput, "encode_f")];
    let arms = generate_encode_input_arms(&functions, &map, &handlers);
    assert_eq!(arm_names(&arms), vec!["f"]);
    assert_eq!(handler_name(&arms[0].rule), "encode_f");
    // In a role without a handler the one rule is the failure.
    let arms = generate_decode_input_arms(&functions, &map, &handlers);
    assert_eq!(arm_names(&arms), vec!["f"]);
    assert!(matches!(arms[0].rule, CodecRule::CustomRequired));
}

#[test]
fn no_name_keys_two_arms() {
    let map = StringMap::new();
    let functions = vec![
        make_function("a", "u64", "()", false),
        make_function("b", "()", "u64", true),
        make_function("a", "bool", "bool", false),
    ];
    let handlers = vec![
        make_custom_handler("b", DataDriverRole::DecodeOutput, "decode_b"),
        make_custom_handler("c", DataDriverRole::DecodeOutput, "decode_c"),
        make_custom_handler("c", DataDriverRole::DecodeOutput, "decode_c_again"),
        make_custom_handler("a", DataDriverRole::DecodeOutput, "decode_a"),
        make_custom_handler("d", DataDriverRole::EncodeInput, "encode_d"),
    ];
    let arms = generate_decode_output_arms(&functions, &map, &handlers);
    assert_eq!(arm_names(&arms), vec!["a", "b", "c"]);
    assert!(matches!(arms[0].rule, CodecRule::Null));
    assert_eq!(handler_name(&arms[1].rule), "decode_b");
    assert_eq!(handler_name(&arms[2].rule), "decode_c");
    let arms = generate_encode_input_arms(&functions, &map, &handlers);
    assert_eq!(arm_names(&arms), vec!["a", "b", "d"]);
    assert_eq!(convert_text(&arms[0].rule), "u64");
    assert!(matches!(arms[1].rule, CodecRule::CustomRequired));
}

#[test]
fn literal_topics_key_their_rules_as_literals() {
    let map = type_map(&[("events::Paused", "evm_core::events::Paused")]);
    let events = vec![
        make_literal_event("count_changed", "CountChanged"),
        make_literal_event("events::Paused", "events::Paused"),
        make_event("events::Paused", "events::Paused"),
    ];
    let arms = generate_decode_event_arms(&events, &map).expect("an event table");
    assert_eq!(arms.len(), 3);
    assert!(matches!(&arms[0].key, EventKey::Literal { text } if text == "count_changed"));
    assert_eq!(arms[0].ty, "CountChanged");
    // A literal is never read as a path: its resolved text is the key.
    assert!(
        matches!(&arms[1].key, EventKey::Literal { text } if text == "evm_core::events::Paused")
    );
    assert_eq!(constant(&arms[2].key), "evm_core::events::Paused");
    assert_eq!(arms[2].ty, "evm_core::events::Paused");
}

#[test]
fn first_variable_topic_stops_the_event_table() {
    let map = StringMap::new();
    let events = vec![
        make_event("PAUSED", "Paused"),
        make_event("first", "First"),
        make_event("second", "Second"),
    ];
    let err = generate_decode_event_arms(&events, &map).unwrap_err();
    assert_eq!(err.rule, Rule::VariableTopic);
    assert_eq!(err.subject, "first");
    let err = codec_module(&map, &vec![], &events, &vec![]).unwrap_err();
    assert_eq!(err.subject, "first");
}

const VARIABLE_TOPIC: &str = r#"
mod notifier {
    pub struct Notifier;

    impl Notifier {
        pub const fn new() -> Self { Self }

        pub fn notify(&mut self, topic: u64) {
            abi::emit(topic, Notified { at: 1 });
        }
    }
}
"#;

#[test]
fn pipeline_flags_a_variable_topic() {
    let err = diagnostic_of(&module(VARIABLE_TOPIC));
    assert_eq!(err.rule, Rule::VariableTopic);
    assert_eq!(err.subject, "topic");
    // The same emission with a literal topic compiles, with one rule.
    let literal = VARIABLE_TOPIC.replace("abi::emit(topic,", "abi::emit(\"topic\",");
    let generated = contract(&module(&literal)).expect("a literal topic compiles");
    assert_eq!(generated.events.len(), 1);
    assert!(generated.events[0].topic_is_literal);
    assert_eq!(generated.codec.decode_event.len(), 1);
    assert!(
        matches!(&generated.codec.decode_event[0].key, EventKey::Literal { text } if text == "topic")
    );
}

const WITH_INIT: &str = r#"
mod vault {
    pub struct Vault;

    impl Vault {
        pub const fn new() -> Self { Self }

        /// Sets the owner.
        pub fn init(&mut self, owner: u64) {}

        pub fn owner(&self) -> u64 { 0 }
    }
}
"#;

#[test]
fn constructor_and_initializer_are_not_listed() {
    let generated = contract(&module(WITH_INIT)).expect("the vault compiles");
    let names: Vec<_> = generated.functions.iter().map(|f| f.name.as_str()).collect();
    assert_eq!(names, vec!["owner"]);
    assert_eq!(generated.schema.functions.len(), 1);
    assert_eq!(generated.shims.len(), 1);
    assert_eq!(arm_names(&generated.codec.encode_input), vec!["owner"]);
    // The initializer is still validated.
    let broken = WITH_INIT.replace("pub fn init(&mut self, owner: u64) {}", "pub fn init(&self) {}");
    let err = diagnostic_of(&module(&broken));
    assert_eq!(err.rule, Rule::InitNotMutable);
}

// ---------------------------------------------------------------------------
// Fed types and the tables position by position
// ---------------------------------------------------------------------------

fn attrs_of(source: &str) -> Vec<Attribute> {
    let item = syn::parse_str::<syn::ItemFn>(source).expect("a function");
    item.attrs.iter().map(convert_attr).collect()
}

#[test]
fn fed_type_is_read_from_the_annotation() {
    assert_eq!(
        feeds_text(&attrs_of("#[contract(feeds = \"(u64, Vec<u8>)\")] fn f() {}")).unwrap(),
        "(u64, Vec<u8>)"
    );
    assert_eq!(
        feeds_text(&attrs_of("#[contract(custom, feeds = \"u64\")] fn f() {}")).unwrap(),
        "u64"
    );
    // The first annotation that names a fed type decides.
    assert_eq!(
        feeds_text(&attrs_of(
            "#[doc = \"x\"] #[contract(custom)] #[contract(feeds = \"A\")] #[contract(feeds = \"B\")] fn f() {}"
        ))
        .unwrap(),
        "A"
    );
    assert!(feeds_text(&attrs_of("#[contract(custom)] fn f() {}")).is_none());
    assert!(feeds_text(&attrs_of("#[contract(feeds)] fn f() {}")).is_none());
    assert!(feeds_text(&attrs_of("#[contract(feeds = [a])] fn f() {}")).is_none());
    assert!(feeds_text(&attrs_of("#[contract(feeds(u64))] fn f() {}")).is_none());
    assert!(feeds_text(&attrs_of("#[other(feeds = \"u64\")] fn f() {}")).is_none());
    assert!(feeds_text(&attrs_of("fn f() {}")).is_none());
    assert!(feeds_text(&vec![]).is_none());
}

#[test]
fn encode_and_decode_rules_match_position_by_position() {
    let map = type_map(&[("Address", "evm_core::Address"), ("Option<Address>", "Option<evm_core::Address>")]);
    let functions = vec![
        make_function("a", "u64", "()", false),
        make_function("b", "(Address, u64)", "u64", false),
        make_function("c", "Option<Address>", "bool", false),
        make_function("d", "Vec<Option<u8>>", "bool", true),
        make_function("e", "Address", "Address", false),
    ];
    let handlers = vec![
        make_custom_handler("d", DataDriverRole::EncodeInput, "encode_d"),
        make_custom_handler("z", DataDriverRole::DecodeInput, "decode_z"),
    ];
    let encode = generate_encode_input_arms(&functions, &map, &handlers);
    let decode = generate_decode_input_arms(&functions, &map, &handlers);
    assert_eq!(arm_names(&encode), vec!["a", "b", "c", "d", "e"]);
    assert_eq!(arm_names(&decode), vec!["a", "b", "c", "d", "e", "z"]);
    let expected = ["u64", "(Address, u64)", "Option<evm_core::Address>", "", "evm_core::Address"];
    for k in [0, 1, 2, 4] {
        assert_eq!(convert_text(&encode[k].rule), expected[k]);
        assert_eq!(convert_text(&decode[k].rule), expected[k]);
    }
    assert_eq!(handler_name(&encode[3].rule), "encode_d");
    assert!(matches!(decode[3].rule, CodecRule::CustomRequired));
}
