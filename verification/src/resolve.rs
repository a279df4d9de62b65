//! Type resolution: from the short names used in a declaration to fully
//! qualified paths, by way of the imports.

use crate::declaration::{ArgShape, Segment, SegmentModel, TypeExpr, TypeModel};
use crate::descriptor::{
    EventInfo, EventModel, FunctionInfo, FunctionModel, ImportInfo, ImportModel, events_view,
    functions_view, imports_view,
};
use crate::string_map::StringMap;
use crate::text::{append_range, find_from, first_occurrence, join, join_seq, to_chars};
use vstd::prelude::*;

verus! {

/// A map from the text of a type (or topic) to its fully qualified text.
pub type TypeMap = StringMap;

// ---------------------------------------------------------------------------
// Specification
// ---------------------------------------------------------------------------
/// The lookup table of the first `n` imports; a later import of a name
/// replaces an earlier one.
pub open spec fn imports_upto(imports: Seq<ImportModel>, n: nat) -> Map<Seq<char>, Seq<char>>
    decreases n,
{
    if n == 0 || n > imports.len() {
        Map::empty()
    } else {
        imports_upto(imports, (n - 1) as nat).insert(imports[n - 1].name, imports[n - 1].path)
    }
}

/// The lookup table from short name to full path.
pub open spec fn import_map(imports: Seq<ImportModel>) -> Map<Seq<char>, Seq<char>> {
    imports_upto(imports, imports.len())
}

/// The text of `t` with every path resolved through `imports`:
/// - a path resolves its first segment through the imports and keeps the
///   rest; without an import it is written as it stands;
/// - a tuple resolves each element and joins them in tuple notation;
/// - a reference resolves its pointee and keeps its marker;
/// - a generic type resolves each of its arguments;
/// - any other type is written as it stands.
pub open spec fn resolved_type(t: TypeModel, imports: Map<Seq<char>, Seq<char>>) -> Seq<char>
    decreases t, 0nat,
{
    match t {
        TypeModel::Path { segments } => resolved_path(segments, imports),
        TypeModel::Tuple { elems } => "("@ + join_seq(resolved_types(elems, imports), ", "@)
            + ")"@,
        TypeModel::Reference { mutable, elem } => (if mutable {
            "&mut "@
        } else {
            "&"@
        }) + resolved_type(*elem, imports),
        TypeModel::ImplTrait { text } => text,
        TypeModel::Verbatim { text } => text,
    }
}

/// The resolved texts of `types`, in order.
pub open spec fn resolved_types(types: Seq<TypeModel>, imports: Map<Seq<char>, Seq<char>>) -> Seq<
    Seq<char>,
>
    decreases types, 0nat,
{
    Seq::new(
        types.len(),
        |i: int|
            if 0 <= i < types.len() {
                resolved_type(types[i], imports)
            } else {
                Seq::empty()
            },
    )
}

/// The text of the argument list of a segment, with its types resolved.
pub open spec fn segment_args(seg: SegmentModel, imports: Map<Seq<char>, Seq<char>>) -> Seq<char>
    decreases seg, 0nat,
{
    match seg.shape {
        ArgShape::NoArgs => Seq::empty(),
        ArgShape::Angle => "<"@ + join_seq(resolved_types(seg.args, imports), ", "@) + ">"@,
        ArgShape::Paren => "("@ + join_seq(resolved_types(seg.args, imports), ", "@) + ")"@ + (
        match seg.output {
            Some(out) => " -> "@ + resolved_type(*out, imports),
            None => Seq::empty(),
        }),
    }
}

/// The text of a segment: its name and its resolved argument list.
pub open spec fn segment_text(seg: SegmentModel, imports: Map<Seq<char>, Seq<char>>) -> Seq<char>
    decreases seg, 1nat,
{
    seg.ident + segment_args(seg, imports)
}

/// The texts of the segments from position `from` on.
pub open spec fn segments_text(
    segments: Seq<SegmentModel>,
    from: int,
    imports: Map<Seq<char>, Seq<char>>,
) -> Seq<Seq<char>>
    decreases segments, 0nat,
{
    Seq::new(
        (segments.len() - from) as nat,
        |i: int|
            if 0 <= from && 0 <= i && from + i < segments.len() {
                segment_text(segments[from + i], imports)
            } else {
                Seq::empty()
            },
    )
}

/// The resolved text of a path. Where the first segment is an imported
/// name, the import's full path takes its place: followed by the segment's
/// own arguments for a path of one segment, by the remaining segments
/// otherwise.
pub open spec fn resolved_path(segments: Seq<SegmentModel>, imports: Map<Seq<char>, Seq<char>>)
    -> Seq<char>
    decreases segments, 1nat,
{
    if segments.len() == 0 {
        Seq::empty()
    } else if imports.contains_key(segments[0].ident) {
        let base = imports[segments[0].ident];
        if segments.len() == 1 {
            base + segment_args(segments[0], imports)
        } else {
            base + "::"@ + join_seq(segments_text(segments, 1, imports), "::"@)
        }
    } else {
        join_seq(segments_text(segments, 0, imports), "::"@)
    }
}

/// The text of a type as it stands, with nothing resolved.
pub open spec fn type_text(t: TypeModel) -> Seq<char> {
    resolved_type(t, Map::empty())
}

/// The resolved form of a path given as text, such as an event topic: where
/// its first `::`-separated segment is an imported name, the import's full
/// path takes its place; otherwise the text is left as it stands.
pub open spec fn resolved_topic(path: Seq<char>, imports: Map<Seq<char>, Seq<char>>) -> Seq<
    char,
> {
    let head_end = match first_occurrence(path, "::"@, 0) {
        Some(at) => at,
        None => path.len() as int,
    };
    let head = path.subrange(0, head_end);
    if imports.contains_key(head) {
        imports[head] + path.subrange(head_end, path.len() as int)
    } else {
        path
    }
}

/// The table `base` extended by the types of one operation.
pub open spec fn with_function(
    base: Map<Seq<char>, Seq<char>>,
    f: FunctionModel,
    imports: Map<Seq<char>, Seq<char>>,
) -> Map<Seq<char>, Seq<char>> {
    let typed = base.insert(
        type_text(f.input_type),
        resolved_type(f.input_type, imports),
    ).insert(type_text(f.output_type), resolved_type(f.output_type, imports));
    match f.feed_type {
        Some(t) => typed.insert(type_text(t), resolved_type(t, imports)),
        None => typed,
    }
}

/// The table `base` extended by the types of the first `n` operations.
pub open spec fn with_functions(
    base: Map<Seq<char>, Seq<char>>,
    functions: Seq<FunctionModel>,
    imports: Map<Seq<char>, Seq<char>>,
    n: nat,
) -> Map<Seq<char>, Seq<char>>
    decreases n,
{
    if n == 0 || n > functions.len() {
        base
    } else {
        with_function(
            with_functions(base, functions, imports, (n - 1) as nat),
            functions[n - 1],
            imports,
        )
    }
}

/// The table `base` extended by the data types and topics of the first `n`
/// events.
pub open spec fn with_events(
    base: Map<Seq<char>, Seq<char>>,
    events: Seq<EventModel>,
    imports: Map<Seq<char>, Seq<char>>,
    n: nat,
) -> Map<Seq<char>, Seq<char>>
    decreases n,
{
    if n == 0 || n > events.len() {
        base
    } else {
        let e = events[n - 1];
        with_events(base, events, imports, (n - 1) as nat).insert(
            type_text(e.data_type),
            resolved_type(e.data_type, imports),
        ).insert(e.topic, resolved_topic(e.topic, imports))
    }
}

/// The resolution table of a contract: the text of every input, output and
/// fed type of its operations and of every data type and topic of its
/// events, each mapped to its resolved text.
pub open spec fn type_map_of(
    imports: Seq<ImportModel>,
    functions: Seq<FunctionModel>,
    events: Seq<EventModel>,
) -> Map<Seq<char>, Seq<char>> {
    let table = import_map(imports);
    with_events(
        with_functions(Map::empty(), functions, table, functions.len()),
        events,
        table,
        events.len(),
    )
}

/// The models of a sequence of types.
pub open spec fn types_view(s: Seq<TypeExpr>) -> Seq<TypeModel> {
    s.map_values(|t: TypeExpr| t@)
}

/// The models of a sequence of segments.
pub open spec fn segments_view(s: Seq<Segment>) -> Seq<SegmentModel> {
    s.map_values(|x: Segment| x@)
}

// ---------------------------------------------------------------------------
// Laws
// ---------------------------------------------------------------------------
/// Some path inside `t` starts with a name that `imports` holds.
pub open spec fn uses_import(t: TypeModel, imports: Map<Seq<char>, Seq<char>>) -> bool
    decreases t, 0nat,
{
    match t {
        TypeModel::Path { segments } => (segments.len() > 0 && imports.contains_key(
            segments[0].ident,
        )) || segments_use_import(segments, imports, segments.len()),
        TypeModel::Tuple { elems } => types_use_import(elems, imports, elems.len()),
        TypeModel::Reference { mutable, elem } => uses_import(*elem, imports),
        _ => false,
    }
}

/// One of the first `n` types uses an import.
pub open spec fn types_use_import(
    types: Seq<TypeModel>,
    imports: Map<Seq<char>, Seq<char>>,
    n: nat,
) -> bool
    decreases types, n,
{
    if n == 0 || n > types.len() {
        false
    } else {
        types_use_import(types, imports, (n - 1) as nat) || uses_import(types[n - 1], imports)
    }
}

/// An argument of one of the first `n` segments uses an import.
pub open spec fn segments_use_import(
    segments: Seq<SegmentModel>,
    imports: Map<Seq<char>, Seq<char>>,
    n: nat,
) -> bool
    decreases segments, n,
{
    if n == 0 || n > segments.len() {
        false
    } else {
        segments_use_import(segments, imports, (n - 1) as nat) || segment_uses_import(
            segments[n - 1],
            imports,
        )
    }
}

/// An argument of the segment uses an import.
pub open spec fn segment_uses_import(seg: SegmentModel, imports: Map<Seq<char>, Seq<char>>) -> bool
    decreases seg, 0nat,
{
    match seg.shape {
        ArgShape::NoArgs => false,
        ArgShape::Angle => types_use_import(seg.args, imports, seg.args.len()),
        ArgShape::Paren => types_use_import(seg.args, imports, seg.args.len()) || (match seg.output {
            Some(out) => uses_import(*out, imports),
            None => false,
        }),
    }
}

/// A type that uses no import among the first `n` does not among fewer.
proof fn lemma_types_use_import(
    types: Seq<TypeModel>,
    imports: Map<Seq<char>, Seq<char>>,
    n: nat,
    i: int,
)
    requires
        0 <= i < n <= types.len(),
        !types_use_import(types, imports, n),
    ensures
        !uses_import(types[i], imports),
    decreases n,
{
    if i < n - 1 {
        lemma_types_use_import(types, imports, (n - 1) as nat, i);
    }
}

/// A segment list that uses no import among the first `n` does not among
/// fewer.
proof fn lemma_segments_use_import(
    segments: Seq<SegmentModel>,
    imports: Map<Seq<char>, Seq<char>>,
    n: nat,
    i: int,
)
    requires
        0 <= i < n <= segments.len(),
        !segments_use_import(segments, imports, n),
    ensures
        !segment_uses_import(segments[i], imports),
    decreases n,
{
    if i < n - 1 {
        lemma_segments_use_import(segments, imports, (n - 1) as nat, i);
    }
}

/// Resolving an already fully qualified type returns it unchanged: a type
/// in which no path starts with an imported name resolves to its own text.
pub proof fn lemma_qualified_type_is_unchanged(t: TypeModel, imports: Map<Seq<char>, Seq<char>>)
    requires
        !uses_import(t, imports),
    ensures
        resolved_type(t, imports) == type_text(t),
    decreases t, 0nat,
{
    let none = Map::<Seq<char>, Seq<char>>::empty();
    match t {
        TypeModel::Path { segments } => {
            lemma_qualified_segments(segments, imports);
        },
        TypeModel::Tuple { elems } => {
            lemma_qualified_types(elems, imports);
        },
        TypeModel::Reference { mutable, elem } => {
            lemma_qualified_type_is_unchanged(*elem, imports);
        },
        _ => {},
    }
}

/// Types that use no import resolve to their own texts.
proof fn lemma_qualified_types(types: Seq<TypeModel>, imports: Map<Seq<char>, Seq<char>>)
    requires
        !types_use_import(types, imports, types.len()),
    ensures
        resolved_types(types, imports) == resolved_types(types, Map::empty()),
    decreases types, 0nat,
{
    assert forall|i: int| 0 <= i < types.len() implies resolved_type(types[i], imports)
        == resolved_type(types[i], Map::empty()) by {
        lemma_types_use_import(types, imports, types.len(), i);
        lemma_qualified_type_is_unchanged(types[i], imports);
    }
    assert(resolved_types(types, imports) =~= resolved_types(types, Map::empty()));
}

/// The argument list of a segment that uses no import is unchanged.
proof fn lemma_qualified_segment(seg: SegmentModel, imports: Map<Seq<char>, Seq<char>>)
    requires
        !segment_uses_import(seg, imports),
    ensures
        segment_args(seg, imports) == segment_args(seg, Map::empty()),
        segment_text(seg, imports) == segment_text(seg, Map::empty()),
    decreases seg, 0nat,
{
    match seg.shape {
        ArgShape::NoArgs => {},
        ArgShape::Angle => {
            lemma_qualified_types(seg.args, imports);
        },
        ArgShape::Paren => {
            lemma_qualified_types(seg.args, imports);
            match seg.output {
                Some(out) => {
                    lemma_qualified_type_is_unchanged(*out, imports);
                },
                None => {},
            }
        },
    }
}

/// A path that uses no import is unchanged.
proof fn lemma_qualified_segments(
    segments: Seq<SegmentModel>,
    imports: Map<Seq<char>, Seq<char>>,
)
    requires
        segments.len() == 0 || !imports.contains_key(segments[0].ident),
        !segments_use_import(segments, imports, segments.len()),
    ensures
        resolved_path(segments, imports) == resolved_path(segments, Map::empty()),
    decreases segments, 1nat,
{
    assert forall|i: int| 0 <= i < segments.len() implies segment_text(segments[i], imports)
        == segment_text(segments[i], Map::empty()) by {
        lemma_segments_use_import(segments, imports, segments.len(), i);
        lemma_qualified_segment(segments[i], imports);
    }
    assert(segments_text(segments, 0, imports) =~= segments_text(segments, 0, Map::empty()));
}

/// A bare name resolves through direct lookup: an imported name to the
/// import's full path, any other name to itself.
pub proof fn lemma_bare_name_resolution(name: Seq<char>, imports: Map<Seq<char>, Seq<char>>)
    ensures
        resolved_type(crate::declaration::simple_path(name), imports) == if imports.contains_key(
            name,
        ) {
            imports[name]
        } else {
            name
        },
{
    let segments = crate::declaration::simple_path(name)->segments;
    assert(segments.len() == 1);
    assert(segments[0].ident == name);
    assert(segment_args(segments[0], imports) =~= Seq::<char>::empty());
    assert(resolved_type(crate::declaration::simple_path(name), imports) == resolved_path(
        segments,
        imports,
    ));
    if imports.contains_key(name) {
        assert(imports[name] + Seq::<char>::empty() =~= imports[name]);
        assert(resolved_path(segments, imports) == imports[name] + segment_args(
            segments[0],
            imports,
        ));
    } else {
        let texts = segments_text(segments, 0, imports);
        assert(texts.len() == 1);
        assert(segment_text(segments[0], imports) =~= name);
        assert(texts[0] == segment_text(segments[0], imports));
        assert(join_seq(texts, "::"@) == texts[0]);
        assert(resolved_path(segments, imports) == join_seq(texts, "::"@));
    }
}

/// Resolving the same type through the same imports yields the same text
/// each time.
pub proof fn lemma_resolution_repeats(
    t1: TypeModel,
    t2: TypeModel,
    imports1: Map<Seq<char>, Seq<char>>,
    imports2: Map<Seq<char>, Seq<char>>,
)
    requires
        t1 == t2,
        imports1 == imports2,
    ensures
        resolved_type(t1, imports1) == resolved_type(t2, imports2),
{
}

// ---------------------------------------------------------------------------
// Implementation
// ---------------------------------------------------------------------------
/// Builds the lookup table from short name (or alias) to full path.
pub fn build_import_map(imports: &Vec<ImportInfo>) -> (m: StringMap)
    ensures
        m@ == import_map(imports_view(imports@)),
{
    let ghost models = imports_view(imports@);
    let mut m = StringMap::new();
    let mut i: usize = 0;
    while i < imports.len()
        invariant
            i <= imports.len(),
            models == imports_view(imports@),
            m@ == imports_upto(models, i as nat),
        decreases imports.len() - i,
    {
        proof {
            assert(models[i as int] == imports@[i as int]@);
        }
        m.insert(imports[i].name.clone(), imports[i].path.clone());
        i = i + 1;
    }
    m
}

/// Resolves a type to its fully qualified text.
pub fn resolve_type(ty: &TypeExpr, import_map: &StringMap) -> (r: String)
    ensures
        r@ == resolved_type(ty@, import_map@),
{
    resolve_syn_type(ty, import_map)
}

/// Resolves a type structurally.
pub fn resolve_syn_type(ty: &TypeExpr, import_map: &StringMap) -> (r: String)
    ensures
        r@ == resolved_type(ty@, import_map@),
    decreases ty,
{
    match ty {
        TypeExpr::Path { segments } => {
            proof {
                assert(ty@->segments =~= segments_view(segments@));
            }
            resolve_type_path(segments, import_map)
        },
        TypeExpr::Tuple { elems } => {
            proof {
                assert(ty@->elems =~= types_view(elems@));
            }
            let resolved = resolve_all(elems, import_map);
            let mut out = String::from_str("(");
            out.append(join(&resolved, ", ").as_str());
            out.append(")");
            out
        },
        TypeExpr::Reference { mutable, elem } => {
            let resolved = resolve_syn_type(elem, import_map);
            let mut out = if *mutable {
                String::from_str("&mut ")
            } else {
                String::from_str("&")
            };
            out.append(resolved.as_str());
            out
        },
        TypeExpr::ImplTrait { text } => text.clone(),
        TypeExpr::Verbatim { text } => text.clone(),
    }
}

/// Resolves each type of a list.
fn resolve_all(types: &Vec<TypeExpr>, import_map: &StringMap) -> (r: Vec<String>)
    ensures
        r.deep_view() == resolved_types(types_view(types@), import_map@),
    decreases types,
{
    let mut out: Vec<String> = Vec::new();
    let mut i: usize = 0;
    while i < types.len()
        invariant
            i <= types.len(),
            out.len() == i,
            forall|j: int| 0 <= j < i ==> out@[j]@ == resolved_type(types@[j]@, import_map@),
        decreases types.len() - i,
    {
        proof {
            assert(decreases_to!(*types => types[i as int]));
        }
        out.push(resolve_syn_type(&types[i], import_map));
        i = i + 1;
    }
    proof {
        assert(out.deep_view() =~= resolved_types(types_view(types@), import_map@));
    }
    out
}

/// Writes the argument list of a segment, resolving its types.
pub fn format_generic_args(seg: &Segment, import_map: &StringMap) -> (r: String)
    ensures
        r@ == segment_args(seg@, import_map@),
    decreases seg, 0nat,
{
    proof {
        assert(seg@.args =~= types_view(seg.args@));
    }
    match seg.shape {
        ArgShape::NoArgs => String::new(),
        ArgShape::Angle => {
            proof {
                assert(decreases_to!(*seg => seg.args));
            }
            let resolved = resolve_all(&seg.args, import_map);
            let mut out = String::from_str("<");
            out.append(join(&resolved, ", ").as_str());
            out.append(">");
            out
        },
        ArgShape::Paren => {
            proof {
                assert(decreases_to!(*seg => seg.args));
            }
            let resolved = resolve_all(&seg.args, import_map);
            let mut out = String::from_str("(");
            out.append(join(&resolved, ", ").as_str());
            out.append(")");
            match &seg.output {
                Some(ty) => {
                    out.append(" -> ");
                    out.append(resolve_syn_type(ty, import_map).as_str());
                },
                None => {
                    proof {
                        assert(out@ + Seq::<char>::empty() =~= out@);
                    }
                },
            }
            out
        },
    }
}

/// Writes a segment: its name and its resolved argument list.
pub fn format_segment(seg: &Segment, import_map: &StringMap) -> (r: String)
    ensures
        r@ == segment_text(seg@, import_map@),
    decreases seg, 1nat,
{
    let mut out = seg.ident.clone();
    out.append(format_generic_args(seg, import_map).as_str());
    out
}

/// Writes the segments from position `from` on.
fn format_segments(segments: &Vec<Segment>, from: usize, import_map: &StringMap) -> (r: Vec<
    String,
>)
    requires
        from <= segments.len(),
    ensures
        r.deep_view() == segments_text(segments_view(segments@), from as int, import_map@),
    decreases segments, 0nat,
{
    let mut out: Vec<String> = Vec::new();
    let mut i: usize = from;
    while i < segments.len()
        invariant
            from <= i <= segments.len(),
            out.len() == i - from,
            forall|j: int|
                0 <= j < i - from ==> out@[j]@ == segment_text(
                    segments@[from + j]@,
                    import_map@,
                ),
        decreases segments.len() - i,
    {
        proof {
            assert(decreases_to!(*segments => segments[i as int]));
        }
        out.push(format_segment(&segments[i], import_map));
        i = i + 1;
    }
    proof {
        assert(out.deep_view() =~= segments_text(
            segments_view(segments@),
            from as int,
            import_map@,
        ));
    }
    out
}

/// Resolves a path: its first segment through the imports, the rest as it
/// stands.
pub fn resolve_type_path(segments: &Vec<Segment>, import_map: &StringMap) -> (r: String)
    ensures
        r@ == resolved_path(segments_view(segments@), import_map@),
    decreases segments, 1nat,
{
    if segments.len() == 0 {
        return String::new();
    }
    let first = &segments[0];
    proof {
        assert(segments_view(segments@)[0] == first@);
    }
    match import_map.get(first.ident.as_str()) {
        Some(resolved_base) => {
            let mut out = resolved_base.clone();
            if segments.len() == 1 {
                proof {
                    assert(decreases_to!(*segments => segments[0]));
                }
                out.append(format_generic_args(first, import_map).as_str());
            } else {
                let rest = format_segments(segments, 1, import_map);
                out.append("::");
                out.append(join(&rest, "::").as_str());
            }
            out
        },
        None => {
            let formatted = format_segments(segments, 0, import_map);
            join(&formatted, "::")
        },
    }
}

/// Resolves a path given as text, such as `events::PauseToggled::PAUSED`:
/// its first segment is looked up in the imports and replaced if found.
pub fn resolve_path_string(path: &str, import_map: &StringMap) -> (r: String)
    ensures
        r@ == resolved_topic(path@, import_map@),
{
    let chars = to_chars(path);
    let sep = to_chars("::");
    let head_end = match find_from(&chars, &sep, 0) {
        Some(at) => at,
        None => chars.len(),
    };
    proof {
        crate::text::lemma_first_occurrence(path@, "::"@, 0);
    }
    let mut head = String::new();
    append_range(&mut head, path, 0, head_end);
    proof {
        assert(head@ =~= path@.subrange(0, head_end as int));
    }
    match import_map.get(head.as_str()) {
        Some(resolved_base) => {
            let mut out = resolved_base.clone();
            append_range(&mut out, path, head_end, chars.len());
            out
        },
        None => String::from_str(path),
    }
}

/// Adds the types of one operation to the table.
fn add_function(type_map: &mut StringMap, func: &FunctionInfo, import_map: &StringMap)
    ensures
        final(type_map)@ == with_function(old(type_map)@, func@, import_map@),
{
    let none = StringMap::new();
    type_map.insert(resolve_type(&func.input_type, &none), resolve_type(&func.input_type, import_map));
    type_map.insert(
        resolve_type(&func.output_type, &none),
        resolve_type(&func.output_type, import_map),
    );
    match &func.feed_type {
        Some(t) => {
            type_map.insert(resolve_type(t, &none), resolve_type(t, import_map));
        },
        None => {},
    }
}

/// Builds the resolution table of a contract: every type that its
/// operations and events use, and every event topic, mapped to its fully
/// qualified text.
pub fn build_type_map(
    imports: &Vec<ImportInfo>,
    functions: &Vec<FunctionInfo>,
    events: &Vec<EventInfo>,
) -> (r: TypeMap)
    ensures
        r@ == type_map_of(imports_view(imports@), functions_view(functions@), events_view(events@)),
{
    let import_map = build_import_map(imports);
    let none = StringMap::new();
    let ghost fs = functions_view(functions@);
    let ghost es = events_view(events@);
    let mut type_map = StringMap::new();
    let mut i: usize = 0;
    while i < functions.len()
        invariant
            i <= functions.len(),
            fs == functions_view(functions@),
            type_map@ == with_functions(Map::empty(), fs, import_map@, i as nat),
        decreases functions.len() - i,
    {
        proof {
            assert(fs[i as int] == functions@[i as int]@);
        }
        add_function(&mut type_map, &functions[i], &import_map);
        i = i + 1;
    }
    let ghost base = type_map@;
    let mut k: usize = 0;
    while k < events.len()
        invariant
            k <= events.len(),
            es == events_view(events@),
            none@ == Map::<Seq<char>, Seq<char>>::empty(),
            type_map@ == with_events(base, es, import_map@, k as nat),
        decreases events.len() - k,
    {
        let event = &events[k];
        proof {
            assert(es[k as int] == event@);
        }
        type_map.insert(
            resolve_type(&event.data_type, &none),
            resolve_type(&event.data_type, &import_map),
        );
        type_map.insert(event.topic.clone(), resolve_path_string(event.topic.as_str(), &import_map));
        k = k + 1;
    }
    type_map
}

} // verus!
