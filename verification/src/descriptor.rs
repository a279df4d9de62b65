//! Descriptors: the records that extraction produces and the generators read.

use crate::declaration::{TypeExpr, TypeModel, optional_type};
use crate::error::optional_text;
use vstd::prelude::*;

verus! {

/// An imported name with its full path.
#[derive(Debug)]
pub struct ImportInfo {
    /// The short name used in the contract.
    pub name: String,
    /// The full path that the name stands for.
    pub path: String,
}

/// Model of [`ImportInfo`].
pub struct ImportModel {
    pub name: Seq<char>,
    pub path: Seq<char>,
}

impl View for ImportInfo {
    type V = ImportModel;

    open spec fn view(&self) -> ImportModel {
        ImportModel { name: self.name@, path: self.path@ }
    }
}

/// The models of a sequence of imports.
pub open spec fn imports_view(s: Seq<ImportInfo>) -> Seq<ImportModel> {
    s.map_values(|i: ImportInfo| i@)
}

/// What one `use` declaration yields.
#[derive(Debug)]
pub struct ImportExtraction {
    pub imports: Vec<ImportInfo>,
    pub has_glob: bool,
    pub has_relative: bool,
}

/// Model of [`ImportExtraction`].
pub struct ImportExtractionModel {
    pub imports: Seq<ImportModel>,
    pub has_glob: bool,
    pub has_relative: bool,
}

impl View for ImportExtraction {
    type V = ImportExtractionModel;

    open spec fn view(&self) -> ImportExtractionModel {
        ImportExtractionModel {
            imports: imports_view(self.imports@),
            has_glob: self.has_glob,
            has_relative: self.has_relative,
        }
    }
}

/// A parameter of an operation. For a reference parameter `ty` is the
/// pointee type.
#[derive(Debug)]
pub struct ParameterInfo {
    pub name: String,
    pub ty: TypeExpr,
    pub is_ref: bool,
    pub is_mut_ref: bool,
}

/// Model of [`ParameterInfo`].
pub struct ParameterModel {
    pub name: Seq<char>,
    pub ty: TypeModel,
    pub is_ref: bool,
    pub is_mut_ref: bool,
}

impl View for ParameterInfo {
    type V = ParameterModel;

    open spec fn view(&self) -> ParameterModel {
        ParameterModel {
            name: self.name@,
            ty: self.ty@,
            is_ref: self.is_ref,
            is_mut_ref: self.is_mut_ref,
        }
    }
}

/// The models of a sequence of parameters.
pub open spec fn parameters_view(s: Seq<ParameterInfo>) -> Seq<ParameterModel> {
    s.map_values(|p: ParameterInfo| p@)
}

/// How an exposed operation takes the contract instance.
#[derive(Clone, Copy, Debug, PartialEq, Eq, Structural)]
pub enum Receiver {
    /// Not at all: an associated function.
    Absent,
    /// By shared reference.
    Ref,
    /// By mutable reference.
    RefMut,
}

/// An exposed operation of the contract.
#[derive(Debug)]
pub struct FunctionInfo {
    pub name: String,
    pub doc: Option<String>,
    pub params: Vec<ParameterInfo>,
    pub input_type: TypeExpr,
    /// The return type; the pointee where the operation returns a reference.
    pub output_type: TypeExpr,
    pub is_custom: bool,
    pub returns_ref: bool,
    pub receiver: Receiver,
    /// The interface to dispatch through, for a delegation to the
    /// interface's own default behaviour.
    pub trait_name: Option<String>,
    /// The type that the operation feeds, if it streams its output.
    pub feed_type: Option<TypeExpr>,
}

/// Model of [`FunctionInfo`].
pub struct FunctionModel {
    pub name: Seq<char>,
    pub doc: Option<Seq<char>>,
    pub params: Seq<ParameterModel>,
    pub input_type: TypeModel,
    pub output_type: TypeModel,
    pub is_custom: bool,
    pub returns_ref: bool,
    pub receiver: Receiver,
    pub trait_name: Option<Seq<char>>,
    pub feed_type: Option<TypeModel>,
}

impl View for FunctionInfo {
    type V = FunctionModel;

    open spec fn view(&self) -> FunctionModel {
        FunctionModel {
            name: self.name@,
            doc: optional_text(self.doc),
            params: parameters_view(self.params@),
            input_type: self.input_type@,
            output_type: self.output_type@,
            is_custom: self.is_custom,
            returns_ref: self.returns_ref,
            receiver: self.receiver,
            trait_name: optional_text(self.trait_name),
            feed_type: optional_type(self.feed_type),
        }
    }
}

/// The models of a sequence of operations.
pub open spec fn functions_view(s: Seq<FunctionInfo>) -> Seq<FunctionModel> {
    s.map_values(|f: FunctionInfo| f@)
}

/// An event that the contract emits.
#[derive(Debug)]
pub struct EventInfo {
    pub topic: String,
    pub data_type: TypeExpr,
    /// The topic was written as a string literal, not as a path.
    pub topic_is_literal: bool,
}

/// Model of [`EventInfo`].
pub struct EventModel {
    pub topic: Seq<char>,
    pub data_type: TypeModel,
    pub topic_is_literal: bool,
}

impl View for EventInfo {
    type V = EventModel;

    open spec fn view(&self) -> EventModel {
        EventModel {
            topic: self.topic@,
            data_type: self.data_type@,
            topic_is_literal: self.topic_is_literal,
        }
    }
}

/// The models of a sequence of events.
pub open spec fn events_view(s: Seq<EventInfo>) -> Seq<EventModel> {
    s.map_values(|e: EventInfo| e@)
}

/// The role of a hand-written codec handler.
#[derive(Clone, Copy, Debug, PartialEq, Eq, Structural)]
pub enum DataDriverRole {
    EncodeInput,
    DecodeInput,
    DecodeOutput,
}

/// A hand-written handler that replaces a generated codec rule.
#[derive(Debug)]
pub struct CustomDataDriverHandler {
    /// The contract function that the handler serves.
    pub fn_name: String,
    pub role: DataDriverRole,
    /// The name of the handler function.
    pub handler: String,
    /// The handler function's text.
    pub source: String,
}

/// Model of [`CustomDataDriverHandler`].
pub struct HandlerModel {
    pub fn_name: Seq<char>,
    pub role: DataDriverRole,
    pub handler: Seq<char>,
    pub source: Seq<char>,
}

impl View for CustomDataDriverHandler {
    type V = HandlerModel;

    open spec fn view(&self) -> HandlerModel {
        HandlerModel {
            fn_name: self.fn_name@,
            role: self.role,
            handler: self.handler@,
            source: self.source@,
        }
    }
}

/// The models of a sequence of handlers.
pub open spec fn handlers_view(s: Seq<CustomDataDriverHandler>) -> Seq<HandlerModel> {
    s.map_values(|h: CustomDataDriverHandler| h@)
}

/// An interface implementation with an explicit list of exposed methods.
/// `item` is the index of the implementation among the module's items.
#[derive(Debug)]
pub struct TraitImplInfo {
    pub trait_name: String,
    pub item: usize,
    pub expose_list: Vec<String>,
}

/// Model of [`TraitImplInfo`].
pub struct TraitImplModel {
    pub trait_name: Seq<char>,
    pub item: usize,
    pub expose_list: Seq<Seq<char>>,
}

impl View for TraitImplInfo {
    type V = TraitImplModel;

    open spec fn view(&self) -> TraitImplModel {
        TraitImplModel {
            trait_name: self.trait_name@,
            item: self.item,
            expose_list: self.expose_list.deep_view(),
        }
    }
}

/// The models of a sequence of interface implementations.
pub open spec fn trait_impls_view(s: Seq<TraitImplInfo>) -> Seq<TraitImplModel> {
    s.map_values(|t: TraitImplInfo| t@)
}

/// What a validated module yields before its operations are extracted.
/// `impl_blocks` holds the indices of the state's inherent operation groups
/// among the module's items.
#[derive(Debug)]
pub struct ContractData {
    pub imports: Vec<ImportInfo>,
    pub contract_name: String,
    pub impl_blocks: Vec<usize>,
    pub trait_impls: Vec<TraitImplInfo>,
    pub custom_handlers: Vec<CustomDataDriverHandler>,
}

/// Model of [`ContractData`].
pub struct ContractDataModel {
    pub imports: Seq<ImportModel>,
    pub contract_name: Seq<char>,
    pub impl_blocks: Seq<usize>,
    pub trait_impls: Seq<TraitImplModel>,
    pub custom_handlers: Seq<HandlerModel>,
}

impl View for ContractData {
    type V = ContractDataModel;

    open spec fn view(&self) -> ContractDataModel {
        ContractDataModel {
            imports: imports_view(self.imports@),
            contract_name: self.contract_name@,
            impl_blocks: self.impl_blocks@,
            trait_impls: trait_impls_view(self.trait_impls@),
            custom_handlers: handlers_view(self.custom_handlers@),
        }
    }
}

} // verus!
