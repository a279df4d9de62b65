//! Import extraction: walking `use` trees into `(short name, full path)` pairs.

use crate::declaration::{UseTree, UseTreeModel};
use crate::descriptor::{ImportExtraction, ImportExtractionModel, ImportInfo, ImportModel, imports_view};
use crate::text::same_text;
use vstd::prelude::*;

verus! {

/// `ident` is one of the anchors of a relative path.
pub open spec fn relative_keyword(ident: Seq<char>) -> bool {
    ident == "self"@ || ident == "super"@ || ident == "crate"@
}

/// `prefix::ident`, or `ident` alone under an empty prefix.
pub open spec fn qualified(prefix: Seq<char>, ident: Seq<char>) -> Seq<char> {
    if prefix.len() == 0 {
        ident
    } else {
        prefix + "::"@ + ident
    }
}

/// The imports that `tree` declares under `prefix`, in source order.
pub open spec fn tree_imports(tree: UseTreeModel, prefix: Seq<char>) -> Seq<ImportModel>
    decreases tree,
{
    match tree {
        UseTreeModel::Path { ident, tree } => tree_imports(*tree, qualified(prefix, ident)),
        UseTreeModel::Name { ident } => seq![
            ImportModel { name: ident, path: qualified(prefix, ident) },
        ],
        UseTreeModel::Rename { ident, rename } => seq![
            ImportModel { name: rename, path: qualified(prefix, ident) },
        ],
        UseTreeModel::Glob => Seq::empty(),
        UseTreeModel::Group { items } => group_imports(items, prefix, items.len()),
    }
}

/// The imports of the first `n` trees of a group.
pub open spec fn group_imports(items: Seq<UseTreeModel>, prefix: Seq<char>, n: nat) -> Seq<
    ImportModel,
>
    decreases items, n,
{
    if n == 0 || n > items.len() {
        Seq::empty()
    } else {
        group_imports(items, prefix, (n - 1) as nat) + tree_imports(items[n - 1], prefix)
    }
}

/// `tree` holds a wildcard.
pub open spec fn tree_has_glob(tree: UseTreeModel) -> bool
    decreases tree,
{
    match tree {
        UseTreeModel::Path { ident, tree } => tree_has_glob(*tree),
        UseTreeModel::Glob => true,
        UseTreeModel::Group { items } => group_has_glob(items, items.len()),
        _ => false,
    }
}

/// One of the first `n` trees of a group holds a wildcard.
pub open spec fn group_has_glob(items: Seq<UseTreeModel>, n: nat) -> bool
    decreases items, n,
{
    if n == 0 || n > items.len() {
        false
    } else {
        group_has_glob(items, (n - 1) as nat) || tree_has_glob(items[n - 1])
    }
}

/// `tree`, read under `prefix`, has a path that starts at a relative anchor.
pub open spec fn tree_is_relative(tree: UseTreeModel, prefix: Seq<char>) -> bool
    decreases tree,
{
    match tree {
        UseTreeModel::Path { ident, tree } => (prefix.len() == 0 && relative_keyword(ident))
            || tree_is_relative(*tree, qualified(prefix, ident)),
        UseTreeModel::Group { items } => group_is_relative(items, prefix, items.len()),
        _ => false,
    }
}

/// One of the first `n` trees of a group is relative.
pub open spec fn group_is_relative(items: Seq<UseTreeModel>, prefix: Seq<char>, n: nat) -> bool
    decreases items, n,
{
    if n == 0 || n > items.len() {
        false
    } else {
        group_is_relative(items, prefix, (n - 1) as nat) || tree_is_relative(items[n - 1], prefix)
    }
}

/// What the walk of `tree` under `prefix` yields.
pub open spec fn tree_extraction(tree: UseTreeModel, prefix: Seq<char>) -> ImportExtractionModel {
    ImportExtractionModel {
        imports: tree_imports(tree, prefix),
        has_glob: tree_has_glob(tree),
        has_relative: tree_is_relative(tree, prefix),
    }
}

/// Tells whether `ident` anchors a relative path.
pub fn is_relative_path_keyword(ident: &str) -> (r: bool)
    ensures
        r == relative_keyword(ident@),
{
    same_text(ident, "self") || same_text(ident, "super") || same_text(ident, "crate")
}

/// Builds `prefix::ident`, or `ident` alone under an empty prefix.
pub fn qualify(prefix: &str, ident: &str) -> (r: String)
    ensures
        r@ == qualified(prefix@, ident@),
{
    if prefix.unicode_len() == 0 {
        String::from_str(ident)
    } else {
        let mut out = String::from_str(prefix);
        out.append("::");
        out.append(ident);
        out
    }
}

/// Extracts the imports of one `use` declaration.
pub fn imports_from_use(tree: &UseTree) -> (r: ImportExtraction)
    ensures
        r@ == tree_extraction(tree@, Seq::empty()),
{
    proof {
        reveal_strlit("");
        assert(""@ =~= Seq::<char>::empty());
    }
    extract_imports_from_tree(tree, "")
}

/// Walks a use tree, collecting its imports under `prefix` and noting
/// wildcards and relative anchors.
pub fn extract_imports_from_tree(tree: &UseTree, prefix: &str) -> (r: ImportExtraction)
    ensures
        r@ == tree_extraction(tree@, prefix@),
    decreases tree,
{
    match tree {
        UseTree::Path { ident, tree: sub } => {
            let is_relative = prefix.unicode_len() == 0 && is_relative_path_keyword(
                ident.as_str(),
            );
            let new_prefix = qualify(prefix, ident.as_str());
            let mut extraction = extract_imports_from_tree(sub, new_prefix.as_str());
            extraction.has_relative = extraction.has_relative || is_relative;
            extraction
        },
        UseTree::Name { ident } => {
            let mut imports: Vec<ImportInfo> = Vec::new();
            imports.push(
                ImportInfo { name: ident.clone(), path: qualify(prefix, ident.as_str()) },
            );
            let r = ImportExtraction { imports, has_glob: false, has_relative: false };
            proof {
                assert(r@.imports =~= tree_imports(tree@, prefix@));
            }
            r
        },
        UseTree::Rename { ident, rename } => {
            let mut imports: Vec<ImportInfo> = Vec::new();
            imports.push(
                ImportInfo { name: rename.clone(), path: qualify(prefix, ident.as_str()) },
            );
            let r = ImportExtraction { imports, has_glob: false, has_relative: false };
            proof {
                assert(r@.imports =~= tree_imports(tree@, prefix@));
            }
            r
        },
        UseTree::Glob => {
            let r = ImportExtraction { imports: Vec::new(), has_glob: true, has_relative: false };
            proof {
                assert(r@.imports =~= tree_imports(tree@, prefix@));
            }
            r
        },
        UseTree::Group { items } => {
            let mut imports: Vec<ImportInfo> = Vec::new();
            let mut has_glob = false;
            let mut has_relative = false;
            let ghost models = tree@->items;
            let mut i: usize = 0;
            proof {
                assert(imports_view(imports@) =~= group_imports(models, prefix@, 0));
            }
            while i < items.len()
                invariant
                    i <= items.len(),
                    tree is Group,
                    tree->items == *items,
                    models == tree@->items,
                    models.len() == items.len(),
                    imports_view(imports@) == group_imports(models, prefix@, i as nat),
                    has_glob == group_has_glob(models, i as nat),
                    has_relative == group_is_relative(models, prefix@, i as nat),
                decreases items.len() - i,
            {
                proof {
                    assert(decreases_to!(*tree => tree->items));
                    assert(decreases_to!(*items => items[i as int]));
                    assert(models[i as int] == items@[i as int]@);
                }
                let mut extraction = extract_imports_from_tree(&items[i], prefix);
                proof {
                    assert(imports_view(imports@ + extraction.imports@) =~= imports_view(
                        imports@,
                    ) + imports_view(extraction.imports@));
                }
                imports.append(&mut extraction.imports);
                has_glob = has_glob || extraction.has_glob;
                has_relative = has_relative || extraction.has_relative;
                i = i + 1;
            }
            ImportExtraction { imports, has_glob, has_relative }
        },
    }
}

} // verus!
