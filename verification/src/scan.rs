//! Module-level extraction: imports, the state struct, its operation
//! groups, exposed interface implementations and custom codec handlers.

use crate::declaration::{
    AttrArgs, AttrArgsModel, Attribute, AttributeModel, ContractModule, FnItem, FnItemModel,
    ImplBlock, ImplModel, Item, ItemModel, ModuleModel, Token, TokenModel,
};
use crate::descriptor::{
    ContractData, ContractDataModel, CustomDataDriverHandler, DataDriverRole, HandlerModel,
    ImportInfo, ImportModel, TraitImplInfo, TraitImplModel, handlers_view, imports_view,
    trait_impls_view,
};
use crate::error::{ContractError, ErrorModel, Rule};
use crate::extract::{attrs_view, expose_list, exposure};
use crate::parse::{imports_from_use, tree_has_glob, tree_imports, tree_is_relative};
use crate::text::{join, join_seq, same_text, strip_char, strip_seq};
use crate::validate::{
    blocks_view, constructor_check, impl_block_methods, init_method, initializer_check,
    methods_check, new_constructor,
};
use vstd::prelude::*;

verus! {

/// The models of a sequence of items.
pub open spec fn items_view(s: Seq<Item>) -> Seq<ItemModel> {
    s.map_values(|i: Item| i@)
}

/// A diagnostic that points at the item at `position`.
pub open spec fn error_at(rule: Rule, position: usize) -> ErrorModel {
    ErrorModel { rule, subject: Seq::empty(), owner: None, position: Some(position) }
}

// ---------------------------------------------------------------------------
// Imports
// ---------------------------------------------------------------------------
/// The imports that the first `n` items declare, in order.
pub open spec fn use_imports(items: Seq<ItemModel>, n: nat) -> Seq<ImportModel>
    decreases n,
{
    if n == 0 || n > items.len() {
        Seq::empty()
    } else {
        let prev = use_imports(items, (n - 1) as nat);
        match items[n - 1] {
            ItemModel::Use { tree } => prev + tree_imports(tree, Seq::empty()),
            _ => prev,
        }
    }
}

/// The item is an import with a wildcard.
pub open spec fn is_glob_use(item: ItemModel) -> bool {
    match item {
        ItemModel::Use { tree } => tree_has_glob(tree),
        _ => false,
    }
}

/// The item is an import that starts at a relative anchor.
pub open spec fn is_relative_use(item: ItemModel) -> bool {
    match item {
        ItemModel::Use { tree } => tree_is_relative(tree, Seq::empty()),
        _ => false,
    }
}

/// The position of the first wildcard import at or after `from`.
pub open spec fn first_glob_use(items: Seq<ItemModel>, from: int) -> Option<int>
    decreases items.len() - from,
{
    if from < 0 || from >= items.len() {
        None
    } else if is_glob_use(items[from]) {
        Some(from)
    } else {
        first_glob_use(items, from + 1)
    }
}

/// The position of the first relative import at or after `from`.
pub open spec fn first_relative_use(items: Seq<ItemModel>, from: int) -> Option<int>
    decreases items.len() - from,
{
    if from < 0 || from >= items.len() {
        None
    } else if is_relative_use(items[from]) {
        Some(from)
    } else {
        first_relative_use(items, from + 1)
    }
}

/// The imports of a module, or the diagnostic for its first wildcard
/// import or, where it has none, for its first relative import.
pub open spec fn module_imports(items: Seq<ItemModel>) -> Result<Seq<ImportModel>, ErrorModel> {
    match first_glob_use(items, 0) {
        Some(at) => Err(error_at(Rule::GlobImport, at as usize)),
        None => match first_relative_use(items, 0) {
            Some(at) => Err(error_at(Rule::RelativeImport, at as usize)),
            None => Ok(use_imports(items, items.len())),
        },
    }
}

/// The model of an import extraction result.
pub open spec fn imports_result(r: Result<Vec<ImportInfo>, ContractError>) -> Result<
    Seq<ImportModel>,
    ErrorModel,
> {
    match r {
        Ok(imports) => Ok(imports_view(imports@)),
        Err(e) => Err(e@),
    }
}

/// Extracts the imports of the module. A wildcard import or an import that
/// starts at `self`, `super` or `crate` fails the extraction.
pub fn imports(items: &Vec<Item>) -> (r: Result<Vec<ImportInfo>, ContractError>)
    ensures
        imports_result(r) == module_imports(items_view(items@)),
{
    let ghost models = items_view(items@);
    let mut result: Vec<ImportInfo> = Vec::new();
    let mut glob_import: Option<usize> = None;
    let mut relative_import: Option<usize> = None;
    let mut i: usize = 0;
    proof {
        assert(imports_view(result@) =~= use_imports(models, 0));
    }
    while i < items.len()
        invariant
            i <= items.len(),
            models == items_view(items@),
            imports_view(result@) == use_imports(models, i as nat),
            match glob_import {
                Some(at) => first_glob_use(models, 0) == Some(at as int),
                None => first_glob_use(models, 0) == first_glob_use(models, i as int),
            },
            match relative_import {
                Some(at) => first_relative_use(models, 0) == Some(at as int),
                None => first_relative_use(models, 0) == first_relative_use(models, i as int),
            },
        decreases items.len() - i,
    {
        proof {
            assert(models[i as int] == items@[i as int]@);
        }
        match &items[i] {
            Item::Use { tree } => {
                let mut extraction = imports_from_use(tree);
                proof {
                    assert(imports_view(result@ + extraction.imports@) =~= imports_view(result@)
                        + imports_view(extraction.imports@));
                }
                result.append(&mut extraction.imports);
                if extraction.has_glob && glob_import.is_none() {
                    glob_import = Some(i);
                }
                if extraction.has_relative && relative_import.is_none() {
                    relative_import = Some(i);
                }
            },
            _ => {},
        }
        i = i + 1;
    }
    match glob_import {
        Some(at) => {
            return Err(ContractError::at(Rule::GlobImport, at));
        },
        None => {},
    }
    match relative_import {
        Some(at) => {
            return Err(ContractError::at(Rule::RelativeImport, at));
        },
        None => {},
    }
    Ok(result)
}

// ---------------------------------------------------------------------------
// The state struct and its operation groups
// ---------------------------------------------------------------------------
/// The item is a public struct.
pub open spec fn is_public_struct(item: ItemModel) -> bool {
    match item {
        ItemModel::Struct { name, is_public } => is_public,
        _ => false,
    }
}

/// The positions of the public structs among the first `n` items.
pub open spec fn public_structs(items: Seq<ItemModel>, n: nat) -> Seq<usize>
    decreases n,
{
    if n == 0 || n > items.len() {
        Seq::empty()
    } else {
        let prev = public_structs(items, (n - 1) as nat);
        if is_public_struct(items[n - 1]) {
            prev.push((n - 1) as usize)
        } else {
            prev
        }
    }
}

/// The position of the state struct: the module's only public struct.
pub open spec fn state_struct(items: Seq<ItemModel>) -> Result<usize, ErrorModel> {
    let found = public_structs(items, items.len());
    if found.len() == 0 {
        Err(crate::error::plain_error(Rule::MissingState, Seq::empty()))
    } else if found.len() > 1 {
        Err(error_at(Rule::DuplicateState, found[1]))
    } else {
        Ok(found[0])
    }
}

/// The model of a position result.
pub open spec fn position_result(r: Result<usize, ContractError>) -> Result<usize, ErrorModel> {
    match r {
        Ok(at) => Ok(at),
        Err(e) => Err(e@),
    }
}

/// Every position in `found` is below `n` and holds a public struct.
pub proof fn lemma_public_structs(items: Seq<ItemModel>, n: nat, k: int)
    requires
        n <= items.len(),
        items.len() <= usize::MAX,
        0 <= k < public_structs(items, n).len(),
    ensures
        public_structs(items, n)[k] < n,
        is_public_struct(items[public_structs(items, n)[k] as int]),
    decreases n,
{
    if n > 0 {
        let prev = public_structs(items, (n - 1) as nat);
        if k < prev.len() {
            lemma_public_structs(items, (n - 1) as nat, k);
        }
    }
}

/// Finds the state struct: the module must declare exactly one public
/// struct.
pub fn contract_struct(items: &Vec<Item>) -> (r: Result<usize, ContractError>)
    ensures
        position_result(r) == state_struct(items_view(items@)),
        r matches Ok(at) ==> at < items.len() && is_public_struct(items@[at as int]@),
{
    let ghost models = items_view(items@);
    let mut found: Vec<usize> = Vec::new();
    let mut i: usize = 0;
    while i < items.len()
        invariant
            i <= items.len(),
            models == items_view(items@),
            found@ == public_structs(models, i as nat),
        decreases items.len() - i,
    {
        proof {
            assert(models[i as int] == items@[i as int]@);
        }
        match &items[i] {
            Item::Struct { name, is_public } => {
                if *is_public {
                    found.push(i);
                }
            },
            _ => {},
        }
        i = i + 1;
    }
    proof {
        reveal_strlit("");
        assert(""@ =~= Seq::<char>::empty());
    }
    if found.len() == 0 {
        return Err(ContractError::new(Rule::MissingState, ""));
    }
    if found.len() > 1 {
        return Err(ContractError::at(Rule::DuplicateState, found[1]));
    }
    proof {
        lemma_public_structs(models, models.len(), 0);
        assert(models[found@[0] as int] == items@[found@[0] as int]@);
    }
    Ok(found[0])
}

/// The item is an operation group of the type `name` itself.
pub open spec fn is_inherent_block(item: ItemModel, name: Seq<char>) -> bool {
    match item {
        ItemModel::Impl { block } => block.trait_path.len() == 0 && block.self_ty == name,
        _ => false,
    }
}

/// The positions of the operation groups of `name` among the first `n`
/// items.
pub open spec fn inherent_blocks(items: Seq<ItemModel>, name: Seq<char>, n: nat) -> Seq<usize>
    decreases n,
{
    if n == 0 || n > items.len() {
        Seq::empty()
    } else {
        let prev = inherent_blocks(items, name, (n - 1) as nat);
        if is_inherent_block(items[n - 1], name) {
            prev.push((n - 1) as usize)
        } else {
            prev
        }
    }
}

/// Every position in `positions` holds an operation group.
pub open spec fn positions_hold_blocks(items: Seq<ItemModel>, positions: Seq<usize>) -> bool {
    forall|j: int|
        0 <= j < positions.len() ==> (#[trigger] positions[j]) < items.len() && items[positions[j] as int] is Impl
}

/// The operation groups at `positions`.
pub open spec fn blocks_at(items: Seq<ItemModel>, positions: Seq<usize>) -> Seq<ImplModel> {
    positions.map_values(|at: usize| items[at as int]->block)
}

/// Finds the operation groups of the state struct itself.
pub fn impl_blocks(items: &Vec<Item>, contract_name: &str) -> (r: Vec<usize>)
    ensures
        r@ == inherent_blocks(items_view(items@), contract_name@, items@.len()),
        positions_hold_blocks(items_view(items@), r@),
{
    let ghost models = items_view(items@);
    let mut found: Vec<usize> = Vec::new();
    let mut i: usize = 0;
    while i < items.len()
        invariant
            i <= items.len(),
            models == items_view(items@),
            found@ == inherent_blocks(models, contract_name@, i as nat),
            positions_hold_blocks(models, found@),
        decreases items.len() - i,
    {
        proof {
            assert(models[i as int] == items@[i as int]@);
        }
        match &items[i] {
            Item::Impl { block } => {
                if block.trait_path.len() == 0 && same_text(block.self_ty.as_str(), contract_name) {
                    found.push(i);
                }
            },
            _ => {},
        }
        i = i + 1;
    }
    found
}

/// Borrows the operation groups at `positions`.
pub fn block_refs<'a>(items: &'a Vec<Item>, positions: &Vec<usize>) -> (r: Vec<&'a ImplBlock>)
    requires
        positions_hold_blocks(items_view(items@), positions@),
    ensures
        blocks_view(r@) == blocks_at(items_view(items@), positions@),
{
    let ghost models = items_view(items@);
    let mut out: Vec<&'a ImplBlock> = Vec::new();
    let mut j: usize = 0;
    while j < positions.len()
        invariant
            j <= positions.len(),
            models == items_view(items@),
            positions_hold_blocks(models, positions@),
            out.len() == j,
            forall|k: int| 0 <= k < j ==> out@[k]@ == models[positions@[k] as int]->block,
        decreases positions.len() - j,
    {
        let at = positions[j];
        proof {
            assert(positions@[j as int] < models.len());
            assert(models[at as int] == items@[at as int]@);
        }
        match &items[at] {
            Item::Impl { block } => {
                out.push(block);
            },
            _ => {
                proof {
                    assert(false);
                }
            },
        }
        j = j + 1;
    }
    proof {
        assert(blocks_view(out@) =~= blocks_at(models, positions@));
    }
    out
}

/// The interface implementation that the item at `at` exposes, if it is an
/// implementation of an interface for `name` with an exposure list.
pub open spec fn exposed_impl(item: ItemModel, name: Seq<char>, at: usize) -> Option<
    TraitImplModel,
> {
    match item {
        ItemModel::Impl { block } => {
            if block.trait_path.len() > 0 && block.self_ty == name && exposure(block.attrs, 0)
                is Some {
                Some(
                    TraitImplModel {
                        trait_name: join_seq(block.trait_path, "::"@),
                        item: at,
                        expose_list: exposure(block.attrs, 0)->0,
                    },
                )
            } else {
                None
            }
        },
        _ => None,
    }
}

/// The exposed interface implementations among the first `n` items.
pub open spec fn exposed_impls(items: Seq<ItemModel>, name: Seq<char>, n: nat) -> Seq<
    TraitImplModel,
>
    decreases n,
{
    if n == 0 || n > items.len() {
        Seq::empty()
    } else {
        let prev = exposed_impls(items, name, (n - 1) as nat);
        match exposed_impl(items[n - 1], name, (n - 1) as usize) {
            Some(t) => prev.push(t),
            None => prev,
        }
    }
}

/// Every exposed implementation sits at a position that holds an operation
/// group.
pub open spec fn impls_hold_blocks(items: Seq<ItemModel>, impls: Seq<TraitImplModel>) -> bool {
    forall|j: int|
        0 <= j < impls.len() ==> (#[trigger] impls[j]).item < items.len() && items[impls[j].item as int] is Impl
}

/// Finds the interface implementations for the state struct that carry an
/// explicit exposure list.
pub fn trait_impls(items: &Vec<Item>, contract_name: &str) -> (r: Vec<TraitImplInfo>)
    ensures
        trait_impls_view(r@) == exposed_impls(
            items_view(items@),
            contract_name@,
            items@.len(),
        ),
        impls_hold_blocks(items_view(items@), trait_impls_view(r@)),
{
    let ghost models = items_view(items@);
    let mut found: Vec<TraitImplInfo> = Vec::new();
    let mut i: usize = 0;
    proof {
        assert(trait_impls_view(found@) =~= exposed_impls(models, contract_name@, 0));
    }
    while i < items.len()
        invariant
            i <= items.len(),
            models == items_view(items@),
            trait_impls_view(found@) == exposed_impls(models, contract_name@, i as nat),
            impls_hold_blocks(models, trait_impls_view(found@)),
        decreases items.len() - i,
    {
        proof {
            assert(models[i as int] == items@[i as int]@);
        }
        match &items[i] {
            Item::Impl { block } => {
                if block.trait_path.len() > 0 && same_text(block.self_ty.as_str(), contract_name) {
                    proof {
                        assert(block@.attrs == attrs_view(block.attrs@));
                    }
                    match expose_list(&block.attrs) {
                        Some(list) => {
                            let info = TraitImplInfo {
                                trait_name: join(&block.trait_path, "::"),
                                item: i,
                                expose_list: list,
                            };
                            proof {
                                let before = trait_impls_view(found@);
                                assert(trait_impls_view(found@.push(info)) =~= before.push(
                                    info@,
                                ));
                                assert forall|j: int|
                                    0 <= j < before.push(info@).len() implies (
                                #[trigger] before.push(info@)[j]).item < models.len()
                                    && models[before.push(info@)[j].item as int] is Impl by {
                                    if j < before.len() {
                                        assert(before.push(info@)[j] == before[j]);
                                    }
                                }
                            }
                            found.push(info);
                        },
                        None => {},
                    }
                }
            },
            _ => {},
        }
        i = i + 1;
    }
    found
}

// ---------------------------------------------------------------------------
// Custom codec handlers
// ---------------------------------------------------------------------------
/// The role that an identifier names.
pub open spec fn role_named(name: Seq<char>) -> Option<DataDriverRole> {
    if name == "encode_input"@ {
        Some(DataDriverRole::EncodeInput)
    } else if name == "decode_input"@ {
        Some(DataDriverRole::DecodeInput)
    } else if name == "decode_output"@ {
        Some(DataDriverRole::DecodeOutput)
    } else {
        None
    }
}

/// The role that the argument list of a contract annotation starts with.
pub open spec fn leading_role(a: AttributeModel) -> Option<DataDriverRole> {
    match a.args {
        AttrArgsModel::List { text, tokens } => {
            if a.name == "contract"@ && tokens.len() >= 1 {
                match tokens[0] {
                    TokenModel::Ident { name } => role_named(name),
                    _ => None,
                }
            } else {
                None
            }
        },
        _ => None,
    }
}

/// The handler that the annotation `a` on `func` registers, where it has
/// the form `role = "function"`.
pub open spec fn handler_by(func: FnItemModel, a: AttributeModel) -> Option<HandlerModel> {
    match a.args {
        AttrArgsModel::List { text, tokens } => {
            if leading_role(a) is Some && tokens.len() >= 3 && tokens[1] == (TokenModel::Punct {
                ch: '=',
            }) {
                match tokens[2] {
                    TokenModel::Literal { text } => Some(
                        HandlerModel {
                            fn_name: strip_seq(text, '"'),
                            role: leading_role(a)->0,
                            handler: func.name,
                            source: func.source,
                        },
                    ),
                    _ => None,
                }
            } else {
                None
            }
        },
        _ => None,
    }
}

/// The handlers that the first `n` annotations of `func` register.
pub open spec fn function_handlers(func: FnItemModel, n: nat) -> Seq<HandlerModel>
    decreases n,
{
    if n == 0 || n > func.attrs.len() {
        Seq::empty()
    } else {
        let prev = function_handlers(func, (n - 1) as nat);
        match handler_by(func, func.attrs[n - 1]) {
            Some(h) => prev.push(h),
            None => prev,
        }
    }
}

/// The handlers that the first `n` items register.
pub open spec fn module_handlers(items: Seq<ItemModel>, n: nat) -> Seq<HandlerModel>
    decreases n,
{
    if n == 0 || n > items.len() {
        Seq::empty()
    } else {
        let prev = module_handlers(items, (n - 1) as nat);
        match items[n - 1] {
            ItemModel::Fn { func } => prev + function_handlers(func, func.attrs.len()),
            _ => prev,
        }
    }
}

/// One of the first `n` annotations starts with a handler role.
pub open spec fn role_among(attrs: Seq<AttributeModel>, n: nat) -> bool
    decreases n,
{
    if n == 0 || n > attrs.len() {
        false
    } else {
        role_among(attrs, (n - 1) as nat) || leading_role(attrs[n - 1]) is Some
    }
}

/// The item is a free function that registers a custom codec handler.
pub open spec fn registers_handler(item: ItemModel) -> bool {
    match item {
        ItemModel::Fn { func } => role_among(func.attrs, func.attrs.len()),
        _ => false,
    }
}

/// Reads the role that an annotation starts with.
fn role_of(attr: &Attribute) -> (r: Option<DataDriverRole>)
    ensures
        r == leading_role(attr@),
{
    if !same_text(attr.name.as_str(), "contract") {
        return None;
    }
    match &attr.args {
        AttrArgs::List { text, tokens } => {
            if tokens.len() < 1 {
                return None;
            }
            proof {
                assert(attr@.args->tokens[0] == tokens@[0]@);
            }
            match &tokens[0] {
                Token::Ident { name } => {
                    if same_text(name.as_str(), "encode_input") {
                        Some(DataDriverRole::EncodeInput)
                    } else if same_text(name.as_str(), "decode_input") {
                        Some(DataDriverRole::DecodeInput)
                    } else if same_text(name.as_str(), "decode_output") {
                        Some(DataDriverRole::DecodeOutput)
                    } else {
                        None
                    }
                },
                _ => None,
            }
        },
        _ => None,
    }
}

/// Reads the handler that one annotation registers.
fn handler_of(func: &FnItem, attr: &Attribute) -> (r: Option<CustomDataDriverHandler>)
    ensures
        match r {
            Some(h) => handler_by(func@, attr@) == Some(h@),
            None => handler_by(func@, attr@) is None,
        },
{
    let role = match role_of(attr) {
        Some(role) => role,
        None => {
            return None;
        },
    };
    match &attr.args {
        AttrArgs::List { text, tokens } => {
            if tokens.len() < 3 {
                return None;
            }
            proof {
                assert(attr@.args->tokens[1] == tokens@[1]@);
                assert(attr@.args->tokens[2] == tokens@[2]@);
            }
            match &tokens[1] {
                Token::Punct { ch } => {
                    if *ch != '=' {
                        return None;
                    }
                },
                _ => {
                    return None;
                },
            }
            match &tokens[2] {
                Token::Literal { text: literal } => Some(
                    CustomDataDriverHandler {
                        fn_name: strip_char(literal.as_str(), '"'),
                        role,
                        handler: func.name.clone(),
                        source: func.source.clone(),
                    },
                ),
                _ => None,
            }
        },
        _ => None,
    }
}

/// Collects the custom codec handlers of the module: free functions with an
/// annotation `encode_input = "f"`, `decode_input = "f"` or
/// `decode_output = "f"`.
pub fn custom_data_driver_handlers(items: &Vec<Item>) -> (r: Vec<CustomDataDriverHandler>)
    ensures
        handlers_view(r@) == module_handlers(items_view(items@), items@.len()),
{
    let ghost models = items_view(items@);
    let mut handlers: Vec<CustomDataDriverHandler> = Vec::new();
    let mut i: usize = 0;
    proof {
        assert(handlers_view(handlers@) =~= module_handlers(models, 0));
    }
    while i < items.len()
        invariant
            i <= items.len(),
            models == items_view(items@),
            handlers_view(handlers@) == module_handlers(models, i as nat),
        decreases items.len() - i,
    {
        proof {
            assert(models[i as int] == items@[i as int]@);
        }
        match &items[i] {
            Item::Fn { func } => {
                let ghost before = handlers_view(handlers@);
                let mut a: usize = 0;
                proof {
                    assert(before + function_handlers(func@, 0) =~= before);
                }
                while a < func.attrs.len()
                    invariant
                        a <= func.attrs.len(),
                        handlers_view(handlers@) == before + function_handlers(func@, a as nat),
                    decreases func.attrs.len() - a,
                {
                    proof {
                        assert(func@.attrs[a as int] == func.attrs@[a as int]@);
                    }
                    let ghost so_far = handlers_view(handlers@);
                    match handler_of(func, &func.attrs[a]) {
                        Some(h) => {
                            proof {
                                assert(handlers_view(handlers@.push(h)) =~= so_far.push(h@));
                                assert(so_far.push(h@) =~= before + function_handlers(
                                    func@,
                                    a as nat,
                                ).push(h@));
                            }
                            handlers.push(h);
                        },
                        None => {},
                    }
                    a = a + 1;
                }
            },
            _ => {},
        }
        i = i + 1;
    }
    handlers
}

/// Tells whether an item is a custom codec handler.
pub fn is_custom_handler(item: &Item) -> (r: bool)
    ensures
        r == registers_handler(item@),
{
    match item {
        Item::Fn { func } => {
            let mut found = false;
            let mut a: usize = 0;
            while a < func.attrs.len()
                invariant
                    a <= func.attrs.len(),
                    found == role_among(func@.attrs, a as nat),
                decreases func.attrs.len() - a,
            {
                proof {
                    assert(func@.attrs[a as int] == func.attrs@[a as int]@);
                }
                if role_of(&func.attrs[a]).is_some() {
                    found = true;
                }
                a = a + 1;
            }
            found
        },
        _ => false,
    }
}

// ---------------------------------------------------------------------------
// The validated module
// ---------------------------------------------------------------------------
/// The verdict on the operation groups at `positions` from `from` on: the
/// diagnostic of the first group with a method that breaks a rule, placed
/// at that group.
pub open spec fn blocks_check(items: Seq<ItemModel>, positions: Seq<usize>, from: int) -> Result<
    (),
    ErrorModel,
>
    decreases positions.len() - from,
{
    if from < 0 || from >= positions.len() {
        Ok(())
    } else {
        match methods_check(items[positions[from] as int]->block.methods, 0) {
            Err(e) => Err(ErrorModel { position: Some(positions[from]), ..e }),
            Ok(()) => blocks_check(items, positions, from + 1),
        }
    }
}

/// The name of the struct at `at`.
pub open spec fn struct_name(items: Seq<ItemModel>, at: usize) -> Seq<char> {
    items[at as int]->Struct_name
}

/// What a module yields: its imports, the state's name, the positions of
/// its operation groups, the exposed interface implementations and the
/// custom handlers; or the first diagnostic, in the order imports, state
/// struct, operation group, method signatures, constructor, initializer.
pub open spec fn contract_data_of(module: ModuleModel) -> Result<ContractDataModel, ErrorModel> {
    let items = module.items;
    match module_imports(items) {
        Err(e) => Err(e),
        Ok(imports) => match state_struct(items) {
            Err(e) => Err(e),
            Ok(at) => {
                let name = struct_name(items, at);
                let positions = inherent_blocks(items, name, items.len());
                let blocks = blocks_at(items, positions);
                if positions.len() == 0 {
                    Err(
                        ErrorModel {
                            rule: Rule::MissingImpl,
                            subject: name,
                            owner: None,
                            position: Some(at),
                        },
                    )
                } else if blocks_check(items, positions, 0) is Err {
                    Err(blocks_check(items, positions, 0)->Err_0)
                } else if constructor_check(name, blocks) is Err {
                    Err(constructor_check(name, blocks)->Err_0)
                } else if initializer_check(name, blocks) is Err {
                    Err(initializer_check(name, blocks)->Err_0)
                } else {
                    Ok(
                        ContractDataModel {
                            imports,
                            contract_name: name,
                            impl_blocks: positions,
                            trait_impls: exposed_impls(items, name, items.len()),
                            custom_handlers: module_handlers(items, items.len()),
                        },
                    )
                }
            },
        },
    }
}

/// The model of a module extraction result.
pub open spec fn data_result(r: Result<ContractData, ContractError>) -> Result<
    ContractDataModel,
    ErrorModel,
> {
    match r {
        Ok(data) => Ok(data@),
        Err(e) => Err(e@),
    }
}

/// The positions in the data point at operation groups of `module`.
pub open spec fn data_fits(data: ContractDataModel, module: ModuleModel) -> bool {
    &&& positions_hold_blocks(module.items, data.impl_blocks)
    &&& impls_hold_blocks(module.items, data.trait_impls)
}

/// Validates the methods of each operation group in turn.
fn check_blocks(
    Ghost(models): Ghost<Seq<ItemModel>>,
    positions: &Vec<usize>,
    blocks: &Vec<&ImplBlock>,
) -> (r: Result<(), ContractError>)
    requires
        positions_hold_blocks(models, positions@),
        blocks_view(blocks@) == blocks_at(models, positions@),
    ensures
        crate::validate::check_view(r) == blocks_check(models, positions@, 0),
{
    let mut b: usize = 0;
    proof {
        assert(blocks_view(blocks@).len() == blocks@.len());
        assert(blocks_at(models, positions@).len() == positions@.len());
    }
    while b < blocks.len()
        invariant
            b <= blocks.len(),
            blocks.len() == positions.len(),
            positions_hold_blocks(models, positions@),
            blocks_view(blocks@) == blocks_at(models, positions@),
            blocks_check(models, positions@, 0) == blocks_check(models, positions@, b as int),
        decreases blocks.len() - b,
    {
        proof {
            assert(blocks_view(blocks@)[b as int] == blocks@[b as int]@);
            assert(positions@[b as int] < models.len());
            assert(blocks_at(models, positions@)[b as int] == models[positions@[b as int] as int]->block);
        }
        match impl_block_methods(blocks[b]) {
            Err(e) => {
                return Err(e.located(positions[b]));
            },
            Ok(()) => {},
        }
        b = b + 1;
    }
    Ok(())
}

/// Extracts the contract data of a module and validates it: exactly one
/// public state struct, at least one operation group, callable signatures,
/// a valid constructor and, if present, a valid initializer.
pub fn contract_data(module: &ContractModule) -> (r: Result<ContractData, ContractError>)
    ensures
        data_result(r) == contract_data_of(module@),
        r matches Ok(data) ==> data_fits(data@, module@),
{
    let items = &module.items;
    let ghost models = items_view(items@);
    proof {
        assert(module@.items == models);
    }
    let imports = match imports(items) {
        Ok(found) => found,
        Err(e) => {
            return Err(e);
        },
    };
    let at = match contract_struct(items) {
        Ok(at) => at,
        Err(e) => {
            return Err(e);
        },
    };
    proof {
        assert(models[at as int] == items@[at as int]@);
    }
    let name = match &items[at] {
        Item::Struct { name, is_public } => name.clone(),
        _ => {
            proof {
                assert(false);
            }
            String::new()
        },
    };
    let positions = impl_blocks(items, name.as_str());
    if positions.len() == 0 {
        return Err(
            ContractError { rule: Rule::MissingImpl, subject: name, owner: None, position: Some(at) },
        );
    }
    let blocks = block_refs(items, &positions);
    match check_blocks(Ghost(models), &positions, &blocks) {
        Err(e) => {
            return Err(e);
        },
        Ok(()) => {},
    }
    match new_constructor(name.as_str(), &blocks) {
        Err(e) => {
            return Err(e);
        },
        Ok(()) => {},
    }
    match init_method(name.as_str(), &blocks) {
        Err(e) => {
            return Err(e);
        },
        Ok(()) => {},
    }
    let exposed = trait_impls(items, name.as_str());
    let custom_handlers = custom_data_driver_handlers(items);
    Ok(
        ContractData {
            imports,
            contract_name: name,
            impl_blocks: positions,
            trait_impls: exposed,
            custom_handlers,
        },
    )
}

} // verus!
