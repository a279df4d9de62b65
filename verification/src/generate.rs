//! The schema and binding generator: the contract's schema and one
//! dispatch shim per operation.

use crate::declaration::{
    Attribute, AttributeModel, ImplBlock, ImplModel, MethodDecl, MethodModel, TypeExpr, TypeModel,
};
use crate::descriptor::{
    EventInfo, EventModel, FunctionInfo, FunctionModel, ImportInfo, ImportModel, ParameterInfo,
    ParameterModel, Receiver, events_view, functions_view, imports_view,
};
use crate::extract::attrs_view;
use crate::resolve::{build_import_map, import_map, resolve_type, resolved_type};
use crate::schema::{
    ContractSchema, EventSchema, EventSchemaModel, FunctionSchema, FunctionSchemaModel,
    ImportSchema, ImportSchemaModel, SchemaModel,
};
use crate::text::{join, join_seq, same_text};
use vstd::prelude::*;

verus! {

// ---------------------------------------------------------------------------
// Schema
// ---------------------------------------------------------------------------
/// The schema record of an import.
pub open spec fn import_schema(i: ImportModel) -> ImportSchemaModel {
    ImportSchemaModel { name: i.name, path: i.path }
}

/// The schema record of an operation: its name, its documentation (empty
/// where it has none), its input and output types in resolved form, and
/// its custom flag.
pub open spec fn function_schema(f: FunctionModel, table: Map<Seq<char>, Seq<char>>)
    -> FunctionSchemaModel {
    FunctionSchemaModel {
        name: f.name,
        doc: match f.doc {
            Some(doc) => doc,
            None => Seq::empty(),
        },
        input: resolved_type(f.input_type, table),
        output: resolved_type(f.output_type, table),
        custom: f.is_custom,
    }
}

/// The schema record of an event: its topic as declared and its data type
/// in resolved form.
pub open spec fn event_schema(e: EventModel, table: Map<Seq<char>, Seq<char>>) -> EventSchemaModel {
    EventSchemaModel { topic: e.topic, data: resolved_type(e.data_type, table) }
}

/// The schema of a contract: one record per import, per operation and per
/// event, each in declaration order.
pub open spec fn schema_of(
    contract_name: Seq<char>,
    imports: Seq<ImportModel>,
    functions: Seq<FunctionModel>,
    events: Seq<EventModel>,
) -> SchemaModel {
    let table = import_map(imports);
    SchemaModel {
        name: contract_name,
        imports: imports.map_values(|i: ImportModel| import_schema(i)),
        functions: functions.map_values(|f: FunctionModel| function_schema(f, table)),
        events: events.map_values(|e: EventModel| event_schema(e, table)),
    }
}

/// Generates the schema of a contract.
pub fn schema(
    contract_name: &str,
    imports: &Vec<ImportInfo>,
    functions: &Vec<FunctionInfo>,
    events: &Vec<EventInfo>,
) -> (r: ContractSchema)
    ensures
        r@ == schema_of(
            contract_name@,
            imports_view(imports@),
            functions_view(functions@),
            events_view(events@),
        ),
{
    let table = build_import_map(imports);
    let mut import_entries: Vec<ImportSchema> = Vec::new();
    let mut i: usize = 0;
    while i < imports.len()
        invariant
            i <= imports.len(),
            import_entries.len() == i,
            forall|j: int| 0 <= j < i ==> import_entries@[j]@ == import_schema(imports@[j]@),
        decreases imports.len() - i,
    {
        import_entries.push(
            ImportSchema { name: imports[i].name.clone(), path: imports[i].path.clone() },
        );
        i = i + 1;
    }
    let mut function_entries: Vec<FunctionSchema> = Vec::new();
    let mut f: usize = 0;
    while f < functions.len()
        invariant
            f <= functions.len(),
            function_entries.len() == f,
            forall|j: int|
                0 <= j < f ==> function_entries@[j]@ == function_schema(functions@[j]@, table@),
        decreases functions.len() - f,
    {
        let func = &functions[f];
        let doc = match &func.doc {
            Some(doc) => doc.clone(),
            None => String::new(),
        };
        function_entries.push(
            FunctionSchema {
                name: func.name.clone(),
                doc,
                input: resolve_type(&func.input_type, &table),
                output: resolve_type(&func.output_type, &table),
                custom: func.is_custom,
            },
        );
        f = f + 1;
    }
    let mut event_entries: Vec<EventSchema> = Vec::new();
    let mut e: usize = 0;
    while e < events.len()
        invariant
            e <= events.len(),
            event_entries.len() == e,
            forall|j: int| 0 <= j < e ==> event_entries@[j]@ == event_schema(events@[j]@, table@),
        decreases events.len() - e,
    {
        event_entries.push(
            EventSchema {
                topic: events[e].topic.clone(),
                data: resolve_type(&events[e].data_type, &table),
            },
        );
        e = e + 1;
    }
    let r = ContractSchema {
        name: String::from_str(contract_name),
        imports: import_entries,
        functions: function_entries,
        events: event_entries,
    };
    proof {
        let want = schema_of(
            contract_name@,
            imports_view(imports@),
            functions_view(functions@),
            events_view(events@),
        );
        assert(r@.imports =~= want.imports);
        assert(r@.functions =~= want.functions);
        assert(r@.events =~= want.events);
    }
    r
}

/// The declaration of the single contract instance.
pub open spec fn state_static_text(contract_name: Seq<char>) -> Seq<char> {
    "static mut STATE: "@ + contract_name + " = "@ + contract_name + "::new();"@
}

/// Generates the declaration of the single contract instance, brought
/// into existence by the contract's constructor.
pub fn state_static(contract_name: &str) -> (r: String)
    ensures
        r@ == state_static_text(contract_name@),
{
    let mut out = String::from_str("static mut STATE: ");
    out.append(contract_name);
    out.append(" = ");
    out.append(contract_name);
    out.append("::new();");
    out
}

// ---------------------------------------------------------------------------
// Dispatch shims
// ---------------------------------------------------------------------------
/// How a shim hands a decoded parameter to the operation.
#[derive(Clone, Copy, Debug, PartialEq, Eq, Structural)]
pub enum ArgMode {
    /// By value.
    Value,
    /// Behind `&`.
    Ref,
    /// Behind `&mut`.
    RefMut,
}

/// One argument of the call that a shim makes.
#[derive(Debug)]
pub struct ShimArg {
    pub name: String,
    pub mode: ArgMode,
}

/// Model of [`ShimArg`].
pub struct ShimArgModel {
    pub name: Seq<char>,
    pub mode: ArgMode,
}

impl View for ShimArg {
    type V = ShimArgModel;

    open spec fn view(&self) -> ShimArgModel {
        ShimArgModel { name: self.name@, mode: self.mode }
    }
}

/// What a shim decodes its argument buffer into.
#[derive(Debug)]
pub enum ShimInput {
    /// The unit value: the operation has no parameters.
    Unit,
    /// The sole parameter.
    Single { name: String, ty: TypeExpr },
    /// A tuple of all parameters.
    Tuple { names: Vec<String>, ty: TypeExpr },
}

/// Model of [`ShimInput`].
pub enum ShimInputModel {
    Unit,
    Single { name: Seq<char>, ty: TypeModel },
    Tuple { names: Seq<Seq<char>>, ty: TypeModel },
}

impl View for ShimInput {
    type V = ShimInputModel;

    open spec fn view(&self) -> ShimInputModel {
        match self {
            ShimInput::Unit => ShimInputModel::Unit,
            ShimInput::Single { name, ty } => ShimInputModel::Single { name: name@, ty: ty@ },
            ShimInput::Tuple { names, ty } => ShimInputModel::Tuple {
                names: names.deep_view(),
                ty: ty@,
            },
        }
    }
}

/// What a shim calls.
#[derive(Debug)]
pub enum CallTarget {
    /// The operation, as a method of the contract instance.
    Instance,
    /// The interface's method, handed the contract instance.
    InterfaceMethod { interface: String, mutable: bool },
    /// The interface's associated function of the contract type.
    InterfaceFunction { interface: String },
    /// An associated function of the contract type.
    TypeFunction,
}

/// Model of [`CallTarget`].
pub enum CallTargetModel {
    Instance,
    InterfaceMethod { interface: Seq<char>, mutable: bool },
    InterfaceFunction { interface: Seq<char> },
    TypeFunction,
}

impl View for CallTarget {
    type V = CallTargetModel;

    open spec fn view(&self) -> CallTargetModel {
        match self {
            CallTarget::Instance => CallTargetModel::Instance,
            CallTarget::InterfaceMethod { interface, mutable } => CallTargetModel::InterfaceMethod {
                interface: interface@,
                mutable: *mutable,
            },
            CallTarget::InterfaceFunction { interface } => CallTargetModel::InterfaceFunction {
                interface: interface@,
            },
            CallTarget::TypeFunction => CallTargetModel::TypeFunction,
        }
    }
}

/// The entry point generated for one operation: it decodes one argument
/// buffer, calls the operation and hands back an owned result.
#[derive(Debug)]
pub struct DispatchShim {
    /// The name of the entry point and of the operation.
    pub name: String,
    pub input: ShimInput,
    pub args: Vec<ShimArg>,
    pub target: CallTarget,
    /// Whether the operation's result is cloned before it is returned.
    pub clone_result: bool,
}

/// Model of [`DispatchShim`].
pub struct ShimModel {
    pub name: Seq<char>,
    pub input: ShimInputModel,
    pub args: Seq<ShimArgModel>,
    pub target: CallTargetModel,
    pub clone_result: bool,
}

impl View for DispatchShim {
    type V = ShimModel;

    open spec fn view(&self) -> ShimModel {
        ShimModel {
            name: self.name@,
            input: self.input@,
            args: self.args@.map_values(|a: ShimArg| a@),
            target: self.target@,
            clone_result: self.clone_result,
        }
    }
}

/// The models of a sequence of shims.
pub open spec fn shims_view(s: Seq<DispatchShim>) -> Seq<ShimModel> {
    s.map_values(|x: DispatchShim| x@)
}

/// How a parameter is handed on: a mutable reference parameter behind
/// `&mut`, any other reference parameter behind `&`, the rest by value.
pub open spec fn arg_of(p: ParameterModel) -> ShimArgModel {
    ShimArgModel {
        name: p.name,
        mode: if p.is_mut_ref {
            ArgMode::RefMut
        } else if p.is_ref {
            ArgMode::Ref
        } else {
            ArgMode::Value
        },
    }
}

/// What the shim of `f` decodes its argument buffer into.
pub open spec fn input_of(f: FunctionModel) -> ShimInputModel {
    if f.params.len() == 0 {
        ShimInputModel::Unit
    } else if f.params.len() == 1 {
        ShimInputModel::Single { name: f.params[0].name, ty: f.params[0].ty }
    } else {
        ShimInputModel::Tuple {
            names: f.params.map_values(|p: ParameterModel| p.name),
            ty: f.input_type,
        }
    }
}

/// What the shim of `f` calls: the interface where the operation delegates
/// to the interface's own default behaviour, the contract otherwise.
pub open spec fn target_of(f: FunctionModel) -> CallTargetModel {
    match f.trait_name {
        Some(interface) => if f.receiver == Receiver::Absent {
            CallTargetModel::InterfaceFunction { interface }
        } else {
            CallTargetModel::InterfaceMethod { interface, mutable: f.receiver == Receiver::RefMut }
        },
        None => if f.receiver == Receiver::Absent {
            CallTargetModel::TypeFunction
        } else {
            CallTargetModel::Instance
        },
    }
}

/// The shim of the operation `f`.
pub open spec fn shim_of(f: FunctionModel) -> ShimModel {
    ShimModel {
        name: f.name,
        input: input_of(f),
        args: f.params.map_values(|p: ParameterModel| arg_of(p)),
        target: target_of(f),
        clone_result: f.returns_ref,
    }
}

/// The text of one argument.
pub open spec fn arg_text(a: ShimArgModel) -> Seq<char> {
    match a.mode {
        ArgMode::Value => a.name,
        ArgMode::Ref => "&"@ + a.name,
        ArgMode::RefMut => "&mut "@ + a.name,
    }
}

/// The text of the call that a shim makes, as an expression over the
/// contract instance `STATE` of type `contract_name`.
pub open spec fn call_text(shim: ShimModel, contract_name: Seq<char>) -> Seq<char> {
    let args = join_seq(shim.args.map_values(|a: ShimArgModel| arg_text(a)), ", "@);
    let call = match shim.target {
        CallTargetModel::Instance => "STATE."@ + shim.name + "("@ + args + ")"@,
        CallTargetModel::InterfaceMethod { interface, mutable } => interface + "::"@ + shim.name
            + (if mutable {
            "(&mut STATE"@
        } else {
            "(&STATE"@
        }) + (if shim.args.len() == 0 {
            Seq::empty()
        } else {
            ", "@ + args
        }) + ")"@,
        CallTargetModel::InterfaceFunction { interface } => "<"@ + contract_name + " as "@
            + interface + ">::"@ + shim.name + "("@ + args + ")"@,
        CallTargetModel::TypeFunction => contract_name + "::"@ + shim.name + "("@ + args + ")"@,
    };
    if shim.clone_result {
        call + ".clone()"@
    } else {
        call
    }
}

/// Generates the argument that hands a parameter on to the operation.
pub fn generate_arg_expr(param: &ParameterInfo) -> (r: ShimArg)
    ensures
        r@ == arg_of(param@),
{
    let mode = if param.is_mut_ref {
        ArgMode::RefMut
    } else if param.is_ref {
        ArgMode::Ref
    } else {
        ArgMode::Value
    };
    ShimArg { name: param.name.clone(), mode }
}

/// Generates the shim of one operation.
fn shim(f: &FunctionInfo) -> (r: DispatchShim)
    ensures
        r@ == shim_of(f@),
{
    let input = if f.params.len() == 0 {
        ShimInput::Unit
    } else if f.params.len() == 1 {
        proof {
            assert(f@.params[0] == f.params@[0]@);
        }
        ShimInput::Single { name: f.params[0].name.clone(), ty: f.params[0].ty.duplicate() }
    } else {
        let mut names: Vec<String> = Vec::new();
        let mut i: usize = 0;
        while i < f.params.len()
            invariant
                i <= f.params.len(),
                names.len() == i,
                forall|j: int| 0 <= j < i ==> names@[j]@ == f.params@[j]@.name,
            decreases f.params.len() - i,
        {
            names.push(f.params[i].name.clone());
            i = i + 1;
        }
        proof {
            assert(names.deep_view() =~= f@.params.map_values(|p: ParameterModel| p.name));
        }
        ShimInput::Tuple { names, ty: f.input_type.duplicate() }
    };
    let mut args: Vec<ShimArg> = Vec::new();
    let mut k: usize = 0;
    while k < f.params.len()
        invariant
            k <= f.params.len(),
            args.len() == k,
            forall|j: int| 0 <= j < k ==> args@[j]@ == arg_of(f.params@[j]@),
        decreases f.params.len() - k,
    {
        args.push(generate_arg_expr(&f.params[k]));
        k = k + 1;
    }
    let has_receiver = match f.receiver {
        Receiver::Absent => false,
        _ => true,
    };
    let mutable = match f.receiver {
        Receiver::RefMut => true,
        _ => false,
    };
    let target = match &f.trait_name {
        Some(interface) => if has_receiver {
            CallTarget::InterfaceMethod { interface: interface.clone(), mutable }
        } else {
            CallTarget::InterfaceFunction { interface: interface.clone() }
        },
        None => if has_receiver {
            CallTarget::Instance
        } else {
            CallTarget::TypeFunction
        },
    };
    let r = DispatchShim {
        name: f.name.clone(),
        input,
        args,
        target,
        clone_result: f.returns_ref,
    };
    proof {
        assert(r@.args =~= shim_of(f@).args);
    }
    r
}

/// Generates the dispatch shims of a contract, one per operation and in
/// the order of the operations.
pub fn extern_wrappers(functions: &Vec<FunctionInfo>) -> (r: Vec<DispatchShim>)
    ensures
        shims_view(r@) == functions_view(functions@).map_values(|f: FunctionModel| shim_of(f)),
{
    let mut out: Vec<DispatchShim> = Vec::new();
    let mut i: usize = 0;
    while i < functions.len()
        invariant
            i <= functions.len(),
            out.len() == i,
            forall|j: int| 0 <= j < i ==> out@[j]@ == shim_of(functions@[j]@),
        decreases functions.len() - i,
    {
        out.push(shim(&functions[i]));
        i = i + 1;
    }
    proof {
        assert(shims_view(out@) =~= functions_view(functions@).map_values(
            |f: FunctionModel| shim_of(f),
        ));
    }
    out
}

impl DispatchShim {
    /// Writes the call that the shim makes.
    pub fn call_expr(&self, contract_name: &str) -> (r: String)
        ensures
            r@ == call_text(self@, contract_name@),
    {
        let mut texts: Vec<String> = Vec::new();
        let mut i: usize = 0;
        while i < self.args.len()
            invariant
                i <= self.args.len(),
                texts.len() == i,
                forall|j: int| 0 <= j < i ==> texts@[j]@ == arg_text(self.args@[j]@),
            decreases self.args.len() - i,
        {
            let a = &self.args[i];
            let text = match a.mode {
                ArgMode::Value => a.name.clone(),
                ArgMode::Ref => {
                    let mut t = String::from_str("&");
                    t.append(a.name.as_str());
                    t
                },
                ArgMode::RefMut => {
                    let mut t = String::from_str("&mut ");
                    t.append(a.name.as_str());
                    t
                },
            };
            texts.push(text);
            i = i + 1;
        }
        proof {
            assert(texts.deep_view() =~= self@.args.map_values(|a: ShimArgModel| arg_text(a)));
        }
        let args = join(&texts, ", ");
        let mut out = String::new();
        match &self.target {
            CallTarget::Instance => {
                out.append("STATE.");
                out.append(self.name.as_str());
                out.append("(");
                out.append(args.as_str());
                out.append(")");
                proof {
                    assert(out@ =~= "STATE."@ + self.name@ + "("@ + args@ + ")"@);
                }
            },
            CallTarget::InterfaceMethod { interface, mutable } => {
                out.append(interface.as_str());
                out.append("::");
                out.append(self.name.as_str());
                if *mutable {
                    out.append("(&mut STATE");
                } else {
                    out.append("(&STATE");
                }
                let ghost head = out@;
                if self.args.len() > 0 {
                    out.append(", ");
                    out.append(args.as_str());
                    proof {
                        assert(out@ =~= head + (", "@ + args@));
                    }
                } else {
                    proof {
                        assert(out@ =~= head + Seq::<char>::empty());
                    }
                }
                out.append(")");
                proof {
                    assert(head =~= interface@ + "::"@ + self.name@ + (if *mutable {
                        "(&mut STATE"@
                    } else {
                        "(&STATE"@
                    }));
                }
            },
            CallTarget::InterfaceFunction { interface } => {
                out.append("<");
                out.append(contract_name);
                out.append(" as ");
                out.append(interface.as_str());
                out.append(">::");
                out.append(self.name.as_str());
                out.append("(");
                out.append(args.as_str());
                out.append(")");
                proof {
                    assert(out@ =~= "<"@ + contract_name@ + " as "@ + interface@ + ">::"@
                        + self.name@ + "("@ + args@ + ")"@);
                }
            },
            CallTarget::TypeFunction => {
                out.append(contract_name);
                out.append("::");
                out.append(self.name.as_str());
                out.append("(");
                out.append(args.as_str());
                out.append(")");
                proof {
                    assert(out@ =~= contract_name@ + "::"@ + self.name@ + "("@ + args@ + ")"@);
                }
            },
        }
        if self.clone_result {
            out.append(".clone()");
        }
        out
    }
}

// ---------------------------------------------------------------------------
// Stripping contract annotations
// ---------------------------------------------------------------------------
/// The first `n` attributes without the contract annotations.
pub open spec fn without_contract(attrs: Seq<AttributeModel>, n: nat) -> Seq<AttributeModel>
    decreases n,
{
    if n == 0 || n > attrs.len() {
        Seq::empty()
    } else {
        let prev = without_contract(attrs, (n - 1) as nat);
        if attrs[n - 1].name == "contract"@ {
            prev
        } else {
            prev.push(attrs[n - 1])
        }
    }
}

/// The method without its contract annotations.
pub open spec fn stripped_method(m: MethodModel) -> MethodModel {
    MethodModel { attrs: without_contract(m.attrs, m.attrs.len()), ..m }
}

/// The first `n` methods, stripped; stubs with an empty body are dropped
/// where `drop_stubs` is set.
pub open spec fn stripped_methods(methods: Seq<MethodModel>, drop_stubs: bool, n: nat) -> Seq<
    MethodModel,
>
    decreases n,
{
    if n == 0 || n > methods.len() {
        Seq::empty()
    } else {
        let prev = stripped_methods(methods, drop_stubs, (n - 1) as nat);
        if drop_stubs && methods[n - 1].body_is_empty {
            prev
        } else {
            prev.push(stripped_method(methods[n - 1]))
        }
    }
}

/// The operation group as it is handed on to the compiler: without
/// contract annotations, and, for an interface implementation, without the
/// stubs that stand for the interface's own default behaviour.
pub open spec fn stripped_block(b: ImplModel) -> ImplModel {
    ImplModel {
        attrs: without_contract(b.attrs, b.attrs.len()),
        trait_path: b.trait_path,
        self_ty: b.self_ty,
        methods: stripped_methods(b.methods, b.trait_path.len() > 0, b.methods.len()),
    }
}

/// Reverses a vector.
fn reversed<T>(v: Vec<T>) -> (r: Vec<T>)
    ensures
        r@.len() == v@.len(),
        forall|j: int| 0 <= j < v@.len() ==> r@[j] == v@[v@.len() - 1 - j],
{
    let ghost given = v@;
    let mut v = v;
    let mut out: Vec<T> = Vec::new();
    while v.len() > 0
        invariant
            v.len() + out.len() == given.len(),
            forall|j: int| 0 <= j < v.len() ==> v@[j] == given[j],
            forall|j: int| 0 <= j < out.len() ==> out@[j] == given[given.len() - 1 - j],
        decreases v.len(),
    {
        let x = v.pop().unwrap();
        out.push(x);
    }
    out
}

/// Removes the contract annotations from a list of attributes.
fn strip_attrs(attrs: Vec<Attribute>) -> (r: Vec<Attribute>)
    ensures
        attrs_view(r@) == without_contract(attrs_view(attrs@), attrs@.len()),
{
    let ghost models = attrs_view(attrs@);
    let ghost total = attrs.len();
    let mut stack = reversed(attrs);
    let mut kept: Vec<Attribute> = Vec::new();
    proof {
        assert(attrs_view(kept@) =~= without_contract(models, 0));
    }
    while stack.len() > 0
        invariant
            stack.len() <= total,
            models.len() == total,
            forall|j: int| 0 <= j < stack.len() ==> stack@[j]@ == models[total - 1 - j],
            attrs_view(kept@) == without_contract(models, (total - stack.len()) as nat),
        decreases stack.len(),
    {
        let a = stack.pop().unwrap();
        if !same_text(a.name.as_str(), "contract") {
            proof {
                assert(attrs_view(kept@.push(a)) =~= attrs_view(kept@).push(a@));
            }
            kept.push(a);
        }
    }
    kept
}

/// The models of a sequence of methods.
pub open spec fn methods_view(s: Seq<MethodDecl>) -> Seq<MethodModel> {
    s.map_values(|m: MethodDecl| m@)
}

/// Strips the contract annotations from an operation group and its
/// methods. From an interface implementation the methods with an empty
/// body are removed as well: they only mark the use of the interface's own
/// default behaviour.
pub fn strip_contract_attributes(impl_block: ImplBlock) -> (r: ImplBlock)
    ensures
        r@ == stripped_block(impl_block@),
{
    let ghost source = impl_block@;
    let is_trait_impl = impl_block.trait_path.len() > 0;
    let ImplBlock { attrs, trait_path, self_ty, methods } = impl_block;
    let ghost models = methods_view(methods@);
    let ghost total = methods.len();
    proof {
        assert(source.methods == models);
        assert(source.attrs == attrs_view(attrs@));
    }
    let attrs = strip_attrs(attrs);
    let mut stack = reversed(methods);
    let mut kept: Vec<MethodDecl> = Vec::new();
    proof {
        assert(methods_view(kept@) =~= stripped_methods(models, is_trait_impl, 0));
    }
    while stack.len() > 0
        invariant
            stack.len() <= total,
            models.len() == total,
            forall|j: int| 0 <= j < stack.len() ==> stack@[j]@ == models[total - 1 - j],
            methods_view(kept@) == stripped_methods(
                models,
                is_trait_impl,
                (total - stack.len()) as nat,
            ),
        decreases stack.len(),
    {
        let m = stack.pop().unwrap();
        if !(is_trait_impl && m.body_is_empty) {
            let ghost before = m@;
            let MethodDecl {
                name,
                is_public,
                is_const,
                is_async,
                has_generics,
                self_param,
                params,
                output,
                attrs: method_attrs,
                feeds,
                body_is_empty,
                calls,
            } = m;
            proof {
                assert(before.attrs == attrs_view(method_attrs@));
            }
            let stripped = MethodDecl {
                name,
                is_public,
                is_const,
                is_async,
                has_generics,
                self_param,
                params,
                output,
                attrs: strip_attrs(method_attrs),
                feeds,
                body_is_empty,
                calls,
            };
            proof {
                assert(stripped@ == stripped_method(before));
                assert(methods_view(kept@.push(stripped)) =~= methods_view(kept@).push(
                    stripped@,
                ));
            }
            kept.push(stripped);
        }
    }
    ImplBlock { attrs, trait_path, self_ty, methods: kept }
}

} // verus!
