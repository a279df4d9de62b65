//! The pipeline: from a contract module to its generated artifacts.

use crate::data_driver::{
    CodecTable, CodecTableModel, codec_table_of, codec_table_result, module,
};
use crate::declaration::{ContractModule, ImplBlock, Item, ItemModel, ModuleModel};
use crate::descriptor::{
    ContractData, EventInfo, EventModel, FunctionInfo, FunctionModel, TraitImplInfo,
    TraitImplModel, events_view, functions_view, trait_impls_view,
};
use crate::error::{ContractError, ErrorModel, Rule, plain_error};
use crate::extract::{
    block_events, dedup_by_topic, dedup_events, emit_calls, functions_result, public_functions,
    public_methods, trait_functions, trait_methods,
};
use crate::generate::{
    DispatchShim, ShimModel, extern_wrappers, schema, schema_of, shim_of, shims_view, state_static,
    state_static_text,
};
use crate::resolve::{TypeMap, build_type_map, type_map_of};
use crate::scan::{
    contract_data, contract_data_of, impls_hold_blocks, items_view, positions_hold_blocks,
};
use crate::schema::{ContractSchema, SchemaModel};
use vstd::prelude::*;

verus! {

/// Everything that is generated for one contract.
pub struct GeneratedContract {
    pub functions: Vec<FunctionInfo>,
    pub events: Vec<EventInfo>,
    pub schema: ContractSchema,
    pub state_static: String,
    pub shims: Vec<DispatchShim>,
    pub type_map: TypeMap,
    pub codec: CodecTable,
}

/// Model of [`GeneratedContract`].
pub struct GeneratedModel {
    pub functions: Seq<FunctionModel>,
    pub events: Seq<EventModel>,
    pub schema: SchemaModel,
    pub state_static: Seq<char>,
    pub shims: Seq<ShimModel>,
    pub type_map: Map<Seq<char>, Seq<char>>,
    pub codec: CodecTableModel,
}

impl View for GeneratedContract {
    type V = GeneratedModel;

    open spec fn view(&self) -> GeneratedModel {
        GeneratedModel {
            functions: functions_view(self.functions@),
            events: events_view(self.events@),
            schema: self.schema@,
            state_static: self.state_static@,
            shims: shims_view(self.shims@),
            type_map: self.type_map@,
            codec: self.codec@,
        }
    }
}

/// The diagnostic `e`, placed at the item at `position`.
pub open spec fn placed(e: ErrorModel, position: usize) -> ErrorModel {
    ErrorModel { position: Some(position), ..e }
}

/// The operations of the operation groups at the first `n` positions, in
/// order, or the first diagnostic, placed at its group.
pub open spec fn inherent_functions(items: Seq<ItemModel>, positions: Seq<usize>, n: nat) -> Result<
    Seq<FunctionModel>,
    ErrorModel,
>
    decreases n,
{
    if n == 0 || n > positions.len() {
        Ok(Seq::empty())
    } else {
        match inherent_functions(items, positions, (n - 1) as nat) {
            Err(e) => Err(e),
            Ok(prev) => {
                let methods = items[positions[n - 1] as int]->block.methods;
                match public_functions(methods, methods.len()) {
                    Err(e) => Err(placed(e, positions[n - 1])),
                    Ok(more) => Ok(prev + more),
                }
            },
        }
    }
}

/// `base` followed by the operations that the first `n` interface
/// implementations expose, or the first diagnostic, placed at its
/// implementation.
pub open spec fn with_interface_functions(
    base: Seq<FunctionModel>,
    items: Seq<ItemModel>,
    impls: Seq<TraitImplModel>,
    n: nat,
) -> Result<Seq<FunctionModel>, ErrorModel>
    decreases n,
{
    if n == 0 || n > impls.len() {
        Ok(base)
    } else {
        match with_interface_functions(base, items, impls, (n - 1) as nat) {
            Err(e) => Err(e),
            Ok(prev) => {
                let t = impls[n - 1];
                match trait_functions(
                    items[t.item as int]->block.methods,
                    t.expose_list,
                    t.trait_name,
                    t.item,
                ) {
                    Err(e) => Err(placed(e, t.item)),
                    Ok(more) => Ok(prev + more),
                }
            },
        }
    }
}

/// The events of the operation groups at the first `n` positions.
pub open spec fn events_at(items: Seq<ItemModel>, positions: Seq<usize>, n: nat) -> Seq<EventModel>
    decreases n,
{
    if n == 0 || n > positions.len() {
        Seq::empty()
    } else {
        events_at(items, positions, (n - 1) as nat) + block_events(
            items[positions[n - 1] as int]->block.methods,
        )
    }
}

/// `base` followed by the events of the first `n` interface
/// implementations.
pub open spec fn with_interface_events(
    base: Seq<EventModel>,
    items: Seq<ItemModel>,
    impls: Seq<TraitImplModel>,
    n: nat,
) -> Seq<EventModel>
    decreases n,
{
    if n == 0 || n > impls.len() {
        base
    } else {
        with_interface_events(base, items, impls, (n - 1) as nat) + block_events(
            items[impls[n - 1].item as int]->block.methods,
        )
    }
}

/// The events of a contract: what its operation groups and exposed
/// interface implementations emit, one event per topic.
pub open spec fn contract_events(
    items: Seq<ItemModel>,
    positions: Seq<usize>,
    impls: Seq<TraitImplModel>,
) -> Seq<EventModel> {
    let all = with_interface_events(
        events_at(items, positions, positions.len()),
        items,
        impls,
        impls.len(),
    );
    dedup_by_topic(all, all.len())
}

/// What is generated for `module`, or the first diagnostic: extraction and
/// validation of the module, then the operations of the state's own
/// operation groups, then those of the exposed interface implementations;
/// the schema, the shims and the codec table are generated from these.
pub open spec fn contract_of(module: ModuleModel) -> Result<GeneratedModel, ErrorModel> {
    if !module.has_content {
        Err(plain_error(Rule::NoContent, Seq::empty()))
    } else {
        match contract_data_of(module) {
            Err(e) => Err(e),
            Ok(data) => {
                let own = inherent_functions(
                    module.items,
                    data.impl_blocks,
                    data.impl_blocks.len(),
                );
                match own {
                    Err(e) => Err(e),
                    Ok(own) => match with_interface_functions(
                        own,
                        module.items,
                        data.trait_impls,
                        data.trait_impls.len(),
                    ) {
                        Err(e) => Err(e),
                        Ok(functions) => {
                            let events = contract_events(
                                module.items,
                                data.impl_blocks,
                                data.trait_impls,
                            );
                            let type_map = type_map_of(data.imports, functions, events);
                            match codec_table_of(
                                type_map,
                                functions,
                                events,
                                data.custom_handlers,
                            ) {
                                Err(e) => Err(e),
                                Ok(codec) => Ok(
                                    GeneratedModel {
                                        functions,
                                        events,
                                        schema: schema_of(
                                            data.contract_name,
                                            data.imports,
                                            functions,
                                            events,
                                        ),
                                        state_static: state_static_text(data.contract_name),
                                        shims: functions.map_values(|f: FunctionModel| shim_of(f)),
                                        type_map,
                                        codec,
                                    },
                                ),
                            }
                        },
                    },
                }
            },
        }
    }
}

/// The model of a pipeline result.
pub open spec fn generated_result(r: Result<GeneratedContract, ContractError>) -> Result<
    GeneratedModel,
    ErrorModel,
> {
    match r {
        Ok(g) => Ok(g@),
        Err(e) => Err(e@),
    }
}

/// Once the extraction of the state's own operations has failed it stays
/// failed.
proof fn lemma_inherent_functions_error(
    items: Seq<ItemModel>,
    positions: Seq<usize>,
    n: nat,
    m: nat,
)
    requires
        n <= m <= positions.len(),
        inherent_functions(items, positions, n) is Err,
    ensures
        inherent_functions(items, positions, m) == inherent_functions(items, positions, n),
    decreases m,
{
    if n < m {
        lemma_inherent_functions_error(items, positions, n, (m - 1) as nat);
    }
}

/// Once the extraction of the exposed operations has failed it stays
/// failed.
proof fn lemma_interface_functions_error(
    base: Seq<FunctionModel>,
    items: Seq<ItemModel>,
    impls: Seq<TraitImplModel>,
    n: nat,
    m: nat,
)
    requires
        n <= m <= impls.len(),
        with_interface_functions(base, items, impls, n) is Err,
    ensures
        with_interface_functions(base, items, impls, m) == with_interface_functions(
            base,
            items,
            impls,
            n,
        ),
    decreases m,
{
    if n < m {
        lemma_interface_functions_error(base, items, impls, n, (m - 1) as nat);
    }
}

/// Borrows the operation group at `at`.
fn block_at<'a>(items: &'a Vec<Item>, at: usize) -> (r: &'a ImplBlock)
    requires
        at < items.len(),
        items_view(items@)[at as int] is Impl,
    ensures
        r@ == items_view(items@)[at as int]->block,
{
    proof {
        assert(items_view(items@)[at as int] == items@[at as int]@);
    }
    match &items[at] {
        Item::Impl { block } => block,
        _ => vstd::pervasive::unreached(),
    }
}

/// Extracts the operations of the state's own operation groups.
fn own_functions(items: &Vec<Item>, positions: &Vec<usize>) -> (r: Result<
    Vec<FunctionInfo>,
    ContractError,
>)
    requires
        positions_hold_blocks(items_view(items@), positions@),
    ensures
        functions_result(r) == inherent_functions(
            items_view(items@),
            positions@,
            positions@.len(),
        ),
{
    let ghost models = items_view(items@);
    let mut functions: Vec<FunctionInfo> = Vec::new();
    let mut i: usize = 0;
    proof {
        assert(functions_view(functions@) =~= Seq::<FunctionModel>::empty());
    }
    while i < positions.len()
        invariant
            i <= positions.len(),
            models == items_view(items@),
            positions_hold_blocks(models, positions@),
            inherent_functions(models, positions@, i as nat) == Ok::<
                Seq<FunctionModel>,
                ErrorModel,
            >(functions_view(functions@)),
        decreases positions.len() - i,
    {
        proof {
            assert(positions@[i as int] < models.len());
        }
        let block = block_at(items, positions[i]);
        match public_methods(block) {
            Err(e) => {
                proof {
                    lemma_inherent_functions_error(
                        models,
                        positions@,
                        (i + 1) as nat,
                        positions@.len(),
                    );
                }
                return Err(e.located(positions[i]));
            },
            Ok(mut more) => {
                proof {
                    assert(functions_view(functions@ + more@) =~= functions_view(functions@)
                        + functions_view(more@));
                }
                functions.append(&mut more);
            },
        }
        i = i + 1;
    }
    Ok(functions)
}

/// Adds the operations that the interface implementations expose.
fn add_interface_functions(
    Ghost(base): Ghost<Seq<FunctionModel>>,
    functions: Vec<FunctionInfo>,
    items: &Vec<Item>,
    impls: &Vec<TraitImplInfo>,
) -> (r: Result<Vec<FunctionInfo>, ContractError>)
    requires
        base == functions_view(functions@),
        impls_hold_blocks(items_view(items@), trait_impls_view(impls@)),
    ensures
        functions_result(r) == with_interface_functions(
            base,
            items_view(items@),
            trait_impls_view(impls@),
            impls@.len(),
        ),
{
    let ghost models = items_view(items@);
    let ghost ts = trait_impls_view(impls@);
    let mut all: Vec<FunctionInfo> = Vec::new();
    let mut functions = functions;
    all.append(&mut functions);
    proof {
        assert(functions_view(all@) =~= base);
    }
    let mut i: usize = 0;
    while i < impls.len()
        invariant
            i <= impls.len(),
            models == items_view(items@),
            ts == trait_impls_view(impls@),
            impls_hold_blocks(models, ts),
            with_interface_functions(base, models, ts, i as nat) == Ok::<
                Seq<FunctionModel>,
                ErrorModel,
            >(functions_view(all@)),
        decreases impls.len() - i,
    {
        let t = &impls[i];
        proof {
            assert(ts[i as int] == t@);
            assert(ts[i as int].item < models.len());
        }
        let block = block_at(items, t.item);
        match trait_methods(t, block) {
            Err(e) => {
                proof {
                    lemma_interface_functions_error(base, models, ts, (i + 1) as nat, ts.len());
                }
                return Err(e.located(t.item));
            },
            Ok(mut more) => {
                proof {
                    assert(functions_view(all@ + more@) =~= functions_view(all@) + functions_view(
                        more@,
                    ));
                }
                all.append(&mut more);
            },
        }
        i = i + 1;
    }
    Ok(all)
}

/// Collects the events of the contract, one per topic.
fn collect_events(items: &Vec<Item>, positions: &Vec<usize>, impls: &Vec<TraitImplInfo>) -> (r:
    Vec<EventInfo>)
    requires
        positions_hold_blocks(items_view(items@), positions@),
        impls_hold_blocks(items_view(items@), trait_impls_view(impls@)),
    ensures
        events_view(r@) == contract_events(
            items_view(items@),
            positions@,
            trait_impls_view(impls@),
        ),
{
    let ghost models = items_view(items@);
    let ghost ts = trait_impls_view(impls@);
    let mut events: Vec<EventInfo> = Vec::new();
    let mut i: usize = 0;
    proof {
        assert(events_view(events@) =~= events_at(models, positions@, 0));
    }
    while i < positions.len()
        invariant
            i <= positions.len(),
            models == items_view(items@),
            positions_hold_blocks(models, positions@),
            events_view(events@) == events_at(models, positions@, i as nat),
        decreases positions.len() - i,
    {
        proof {
            assert(positions@[i as int] < models.len());
        }
        let mut more = emit_calls(block_at(items, positions[i]));
        proof {
            assert(events_view(events@ + more@) =~= events_view(events@) + events_view(more@));
        }
        events.append(&mut more);
        i = i + 1;
    }
    let ghost base = events_view(events@);
    let mut k: usize = 0;
    while k < impls.len()
        invariant
            k <= impls.len(),
            models == items_view(items@),
            ts == trait_impls_view(impls@),
            impls_hold_blocks(models, ts),
            events_view(events@) == with_interface_events(base, models, ts, k as nat),
        decreases impls.len() - k,
    {
        proof {
            assert(ts[k as int] == impls@[k as int]@);
            assert(ts[k as int].item < models.len());
        }
        let mut more = emit_calls(block_at(items, impls[k].item));
        proof {
            assert(events_view(events@ + more@) =~= events_view(events@) + events_view(more@));
        }
        events.append(&mut more);
        k = k + 1;
    }
    dedup_events(events)
}

/// Compiles a contract module: extracts and validates its declaration and
/// generates the schema, the declaration of the contract instance, the
/// dispatch shims, the resolution table and the codec table. Any
/// diagnostic stops the pipeline; nothing is generated then.
pub fn contract(module: &ContractModule) -> (r: Result<GeneratedContract, ContractError>)
    ensures
        generated_result(r) == contract_of(module@),
{
    proof {
        reveal_strlit("");
        assert(""@ =~= Seq::<char>::empty());
        assert(module@.items == items_view(module.items@));
    }
    if !module.has_content {
        return Err(ContractError::new(Rule::NoContent, ""));
    }
    let data = match contract_data(module) {
        Ok(data) => data,
        Err(e) => {
            return Err(e);
        },
    };
    let own = match own_functions(&module.items, &data.impl_blocks) {
        Ok(own) => own,
        Err(e) => {
            return Err(e);
        },
    };
    let ghost own_models = functions_view(own@);
    let functions = match add_interface_functions(
        Ghost(own_models),
        own,
        &module.items,
        &data.trait_impls,
    ) {
        Ok(functions) => functions,
        Err(e) => {
            return Err(e);
        },
    };
    let events = collect_events(&module.items, &data.impl_blocks, &data.trait_impls);
    let contract_schema = schema(data.contract_name.as_str(), &data.imports, &functions, &events);
    let instance = state_static(data.contract_name.as_str());
    let shims = extern_wrappers(&functions);
    let type_map = build_type_map(&data.imports, &functions, &events);
    let codec = match module_table(&type_map, &functions, &events, &data) {
        Ok(codec) => codec,
        Err(e) => {
            return Err(e);
        },
    };
    Ok(
        GeneratedContract {
            functions,
            events,
            schema: contract_schema,
            state_static: instance,
            shims,
            type_map,
            codec,
        },
    )
}

/// Generates the codec table with the contract's custom handlers.
fn module_table(
    type_map: &TypeMap,
    functions: &Vec<FunctionInfo>,
    events: &Vec<EventInfo>,
    data: &ContractData,
) -> (r: Result<CodecTable, ContractError>)
    ensures
        codec_table_result(r) == codec_table_of(
            type_map@,
            functions_view(functions@),
            events_view(events@),
            data@.custom_handlers,
        ),
{
    module(type_map, functions, events, &data.custom_handlers)
}

} // verus!
