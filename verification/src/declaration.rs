//! The structured contract declaration that the compiler consumes.
//!
//! A front end turns the source of a contract module into these values. Each
//! executable type has a mathematical model (its view) over `Seq`, and every
//! contract in the crate is stated over the models.

use vstd::prelude::*;

verus! {

/// How the argument list of a path segment is written.
#[derive(Clone, Copy, Debug, PartialEq, Eq, Structural)]
pub enum ArgShape {
    /// No arguments: `Name`.
    NoArgs,
    /// Angle brackets: `Name<A, B>`.
    Angle,
    /// Parentheses with an optional result: `Name(A, B) -> C`.
    Paren,
}

/// One segment of a type path.
#[derive(Debug)]
pub struct Segment {
    pub ident: String,
    pub shape: ArgShape,
    pub args: Vec<TypeExpr>,
    pub output: Option<Box<TypeExpr>>,
}

/// A type expression as written in a signature.
#[derive(Debug)]
pub enum TypeExpr {
    /// A (possibly generic, possibly multi-segment) named type.
    Path { segments: Vec<Segment> },
    /// A tuple; the empty tuple is the unit type.
    Tuple { elems: Vec<TypeExpr> },
    /// A shared or mutable reference to `elem`.
    Reference { mutable: bool, elem: Box<TypeExpr> },
    /// An existential type, kept as written.
    ImplTrait { text: String },
    /// Any other type or generic argument, kept as written.
    Verbatim { text: String },
}

/// Model of [`Segment`].
pub struct SegmentModel {
    pub ident: Seq<char>,
    pub shape: ArgShape,
    pub args: Seq<TypeModel>,
    pub output: Option<Box<TypeModel>>,
}

/// Model of [`TypeExpr`].
pub enum TypeModel {
    Path { segments: Seq<SegmentModel> },
    Tuple { elems: Seq<TypeModel> },
    Reference { mutable: bool, elem: Box<TypeModel> },
    ImplTrait { text: Seq<char> },
    Verbatim { text: Seq<char> },
}

/// The model of a type expression.
pub open spec fn type_model(t: TypeExpr) -> TypeModel
    decreases t,
{
    match t {
        TypeExpr::Path { segments } => TypeModel::Path {
            segments: Seq::new(
                segments@.len(),
                |i: int|
                    if 0 <= i < segments@.len() {
                        segment_model(segments@[i])
                    } else {
                        arbitrary()
                    },
            ),
        },
        TypeExpr::Tuple { elems } => TypeModel::Tuple {
            elems: Seq::new(
                elems@.len(),
                |i: int|
                    if 0 <= i < elems@.len() {
                        type_model(elems@[i])
                    } else {
                        arbitrary()
                    },
            ),
        },
        TypeExpr::Reference { mutable, elem } => TypeModel::Reference {
            mutable,
            elem: Box::new(type_model(*elem)),
        },
        TypeExpr::ImplTrait { text } => TypeModel::ImplTrait { text: text@ },
        TypeExpr::Verbatim { text } => TypeModel::Verbatim { text: text@ },
    }
}

/// The model of a path segment.
pub open spec fn segment_model(s: Segment) -> SegmentModel
    decreases s,
{
    SegmentModel {
        ident: s.ident@,
        shape: s.shape,
        args: Seq::new(
            s.args@.len(),
            |i: int|
                if 0 <= i < s.args@.len() {
                    type_model(s.args@[i])
                } else {
                    arbitrary()
                },
        ),
        output: match s.output {
            Some(out) => Some(Box::new(type_model(*out))),
            None => None,
        },
    }
}

impl View for TypeExpr {
    type V = TypeModel;

    open spec fn view(&self) -> TypeModel {
        type_model(*self)
    }
}

impl View for Segment {
    type V = SegmentModel;

    open spec fn view(&self) -> SegmentModel {
        segment_model(*self)
    }
}

/// The unit type `()`.
pub open spec fn unit_type() -> TypeModel {
    TypeModel::Tuple { elems: Seq::empty() }
}

/// A path of one segment without arguments.
pub open spec fn simple_path(ident: Seq<char>) -> TypeModel {
    TypeModel::Path {
        segments: seq![
            SegmentModel { ident, shape: ArgShape::NoArgs, args: Seq::empty(), output: None },
        ],
    }
}

/// A path of plain identifiers.
pub open spec fn ident_path(idents: Seq<Seq<char>>) -> TypeModel {
    TypeModel::Path {
        segments: Seq::new(
            idents.len(),
            |i: int|
                SegmentModel {
                    ident: idents[i],
                    shape: ArgShape::NoArgs,
                    args: Seq::empty(),
                    output: None,
                },
        ),
    }
}

impl TypeExpr {
    /// Builds the unit type.
    pub fn unit() -> (r: TypeExpr)
        ensures
            r@ == unit_type(),
    {
        let r = TypeExpr::Tuple { elems: Vec::new() };
        proof {
            assert(r@->elems =~= Seq::<TypeModel>::empty());
        }
        r
    }

    /// Builds a path of plain identifiers.
    pub fn from_idents(idents: &Vec<String>) -> (r: TypeExpr)
        ensures
            r@ == ident_path(idents.deep_view()),
    {
        let mut segments: Vec<Segment> = Vec::new();
        let mut i: usize = 0;
        while i < idents.len()
            invariant
                i <= idents.len(),
                segments.len() == i,
                forall|j: int|
                    0 <= j < i ==> segments@[j]@ == (SegmentModel {
                        ident: idents@[j]@,
                        shape: ArgShape::NoArgs,
                        args: Seq::empty(),
                        output: None,
                    }),
            decreases idents.len() - i,
        {
            let seg = Segment {
                ident: idents[i].clone(),
                shape: ArgShape::NoArgs,
                args: Vec::new(),
                output: None,
            };
            proof {
                assert(seg@.args =~= Seq::<TypeModel>::empty());
            }
            segments.push(seg);
            i = i + 1;
        }
        let r = TypeExpr::Path { segments };
        proof {
            assert(r@->segments =~= ident_path(idents.deep_view())->segments);
        }
        r
    }

    /// Builds a path of one plain identifier.
    pub fn named(ident: &str) -> (r: TypeExpr)
        ensures
            r@ == simple_path(ident@),
    {
        let seg = Segment {
            ident: String::from_str(ident),
            shape: ArgShape::NoArgs,
            args: Vec::new(),
            output: None,
        };
        proof {
            assert(seg@.args =~= Seq::<TypeModel>::empty());
        }
        let mut segments: Vec<Segment> = Vec::new();
        segments.push(seg);
        let r = TypeExpr::Path { segments };
        proof {
            assert(r@->segments =~= simple_path(ident@)->segments);
        }
        r
    }

    /// Makes a deep copy.
    pub fn duplicate(&self) -> (r: TypeExpr)
        ensures
            r@ == self@,
        decreases self,
    {
        match self {
            TypeExpr::Verbatim { text } => TypeExpr::Verbatim { text: text.clone() },
            TypeExpr::ImplTrait { text } => TypeExpr::ImplTrait { text: text.clone() },
            TypeExpr::Reference { mutable, elem } => TypeExpr::Reference {
                mutable: *mutable,
                elem: Box::new(elem.duplicate()),
            },
            TypeExpr::Tuple { elems } => {
                let mut out: Vec<TypeExpr> = Vec::new();
                let mut i: usize = 0;
                while i < elems.len()
                    invariant
                        i <= elems.len(),
                        out.len() == i,
                        forall|j: int| 0 <= j < i ==> out@[j]@ == elems@[j]@,
                        self is Tuple,
                        self->elems == *elems,
                    decreases elems.len() - i,
                {
                    proof {
                        assert(decreases_to!(*self => self->elems));
                        assert(decreases_to!(*elems => elems[i as int]));
                    }
                    out.push(elems[i].duplicate());
                    i = i + 1;
                }
                let r = TypeExpr::Tuple { elems: out };
                proof {
                    assert(r@->elems =~= self@->elems);
                }
                r
            },
            TypeExpr::Path { segments } => {
                let mut out: Vec<Segment> = Vec::new();
                let mut i: usize = 0;
                while i < segments.len()
                    invariant
                        i <= segments.len(),
                        out.len() == i,
                        forall|j: int| 0 <= j < i ==> out@[j]@ == segments@[j]@,
                        self is Path,
                        self->segments == *segments,
                    decreases segments.len() - i,
                {
                    proof {
                        assert(decreases_to!(*self => self->segments));
                        assert(decreases_to!(*segments => segments[i as int]));
                    }
                    out.push(segments[i].duplicate());
                    i = i + 1;
                }
                let r = TypeExpr::Path { segments: out };
                proof {
                    assert(r@->segments =~= self@->segments);
                }
                r
            },
        }
    }
}

impl Segment {
    /// Makes a deep copy.
    pub fn duplicate(&self) -> (r: Segment)
        ensures
            r@ == self@,
        decreases self,
    {
        let mut out: Vec<TypeExpr> = Vec::new();
        let mut i: usize = 0;
        while i < self.args.len()
            invariant
                i <= self.args.len(),
                out.len() == i,
                forall|j: int| 0 <= j < i ==> out@[j]@ == self.args@[j]@,
            decreases self.args.len() - i,
        {
            proof {
                assert(decreases_to!(self.args => self.args[i as int]));
            }
            out.push(self.args[i].duplicate());
            i = i + 1;
        }
        let output = match &self.output {
            Some(o) => Some(Box::new(o.duplicate())),
            None => None,
        };
        let r = Segment { ident: self.ident.clone(), shape: self.shape, args: out, output };
        proof {
            assert(r@.args =~= self@.args);
        }
        r
    }
}

/// A tree of imports as written in one `use` declaration.
#[derive(Debug)]
pub enum UseTree {
    /// `ident::tree`
    Path { ident: String, tree: Box<UseTree> },
    /// `ident`
    Name { ident: String },
    /// `ident as rename`
    Rename { ident: String, rename: String },
    /// `*`
    Glob,
    /// `{a, b, c}`
    Group { items: Vec<UseTree> },
}

/// Model of [`UseTree`].
pub enum UseTreeModel {
    Path { ident: Seq<char>, tree: Box<UseTreeModel> },
    Name { ident: Seq<char> },
    Rename { ident: Seq<char>, rename: Seq<char> },
    Glob,
    Group { items: Seq<UseTreeModel> },
}

/// The model of a use tree.
pub open spec fn use_tree_model(t: UseTree) -> UseTreeModel
    decreases t,
{
    match t {
        UseTree::Path { ident, tree } => UseTreeModel::Path {
            ident: ident@,
            tree: Box::new(use_tree_model(*tree)),
        },
        UseTree::Name { ident } => UseTreeModel::Name { ident: ident@ },
        UseTree::Rename { ident, rename } => UseTreeModel::Rename {
            ident: ident@,
            rename: rename@,
        },
        UseTree::Glob => UseTreeModel::Glob,
        UseTree::Group { items } => UseTreeModel::Group {
            items: Seq::new(
                items@.len(),
                |i: int|
                    if 0 <= i < items@.len() {
                        use_tree_model(items@[i])
                    } else {
                        arbitrary()
                    },
            ),
        },
    }
}

impl View for UseTree {
    type V = UseTreeModel;

    open spec fn view(&self) -> UseTreeModel {
        use_tree_model(*self)
    }
}

/// The bracket kind of a token group.
#[derive(Clone, Copy, Debug, PartialEq, Eq, Structural)]
pub enum Delimiter {
    Parenthesis,
    Brace,
    Bracket,
    Invisible,
}

/// One token of an attribute's argument list.
#[derive(Debug)]
pub enum Token {
    /// An identifier.
    Ident { name: String },
    /// One punctuation character.
    Punct { ch: char },
    /// A literal, as written (a string literal keeps its quotes).
    Literal { text: String },
    /// A bracketed group; `idents` are the identifiers directly inside it.
    Group { delimiter: Delimiter, idents: Vec<String> },
}

/// Model of [`Token`].
pub enum TokenModel {
    Ident { name: Seq<char> },
    Punct { ch: char },
    Literal { text: Seq<char> },
    Group { delimiter: Delimiter, idents: Seq<Seq<char>> },
}

impl View for Token {
    type V = TokenModel;

    open spec fn view(&self) -> TokenModel {
        match self {
            Token::Ident { name } => TokenModel::Ident { name: name@ },
            Token::Punct { ch } => TokenModel::Punct { ch: *ch },
            Token::Literal { text } => TokenModel::Literal { text: text@ },
            Token::Group { delimiter, idents } => TokenModel::Group {
                delimiter: *delimiter,
                idents: idents.deep_view(),
            },
        }
    }
}

/// What follows an attribute's name.
#[derive(Debug)]
pub enum AttrArgs {
    /// Nothing: `#[name]`.
    Word,
    /// A string value: `#[name = "value"]`.
    Str { value: String },
    /// A value that is not a string literal.
    OtherValue,
    /// A delimited list: `#[name(tokens)]`; `text` is the list as written.
    List { text: String, tokens: Vec<Token> },
}

/// Model of [`AttrArgs`].
pub enum AttrArgsModel {
    Word,
    Str { value: Seq<char> },
    OtherValue,
    List { text: Seq<char>, tokens: Seq<TokenModel> },
}

/// An attribute. `name` is the attribute's path where that is a single
/// identifier, and empty otherwise.
#[derive(Debug)]
pub struct Attribute {
    pub name: String,
    pub args: AttrArgs,
}

/// Model of [`Attribute`].
pub struct AttributeModel {
    pub name: Seq<char>,
    pub args: AttrArgsModel,
}

impl View for AttrArgs {
    type V = AttrArgsModel;

    open spec fn view(&self) -> AttrArgsModel {
        match self {
            AttrArgs::Word => AttrArgsModel::Word,
            AttrArgs::Str { value } => AttrArgsModel::Str { value: value@ },
            AttrArgs::OtherValue => AttrArgsModel::OtherValue,
            AttrArgs::List { text, tokens } => AttrArgsModel::List {
                text: text@,
                tokens: tokens@.map_values(|t: Token| t@),
            },
        }
    }
}

impl View for Attribute {
    type V = AttributeModel;

    open spec fn view(&self) -> AttributeModel {
        AttributeModel { name: self.name@, args: self.args@ }
    }
}

/// An argument of a call, as far as event extraction reads it.
#[derive(Debug)]
pub enum ArgExpr {
    /// A string literal with its value.
    StrLit { value: String },
    /// A path expression with its identifiers.
    Path { idents: Vec<String> },
    /// A struct literal; `path` is the struct's path.
    Struct { path: TypeExpr },
    /// A call whose callee is the path `path`.
    CallPath { path: TypeExpr },
    /// Any other expression.
    Other,
}

/// Model of [`ArgExpr`].
pub enum ArgExprModel {
    StrLit { value: Seq<char> },
    Path { idents: Seq<Seq<char>> },
    Struct { path: TypeModel },
    CallPath { path: TypeModel },
    Other,
}

impl View for ArgExpr {
    type V = ArgExprModel;

    open spec fn view(&self) -> ArgExprModel {
        match self {
            ArgExpr::StrLit { value } => ArgExprModel::StrLit { value: value@ },
            ArgExpr::Path { idents } => ArgExprModel::Path { idents: idents.deep_view() },
            ArgExpr::Struct { path } => ArgExprModel::Struct { path: path@ },
            ArgExpr::CallPath { path } => ArgExprModel::CallPath { path: path@ },
            ArgExpr::Other => ArgExprModel::Other,
        }
    }
}

/// One call expression found in a method body. Calls are listed in the order
/// in which a walk of the body meets them, outer calls before the calls in
/// their arguments. `callee` holds the identifiers of the called path and is
/// empty where the callee is not a path.
#[derive(Debug)]
pub struct CallSite {
    pub callee: Vec<String>,
    pub args: Vec<ArgExpr>,
}

/// Model of [`CallSite`].
pub struct CallSiteModel {
    pub callee: Seq<Seq<char>>,
    pub args: Seq<ArgExprModel>,
}

impl View for CallSite {
    type V = CallSiteModel;

    open spec fn view(&self) -> CallSiteModel {
        CallSiteModel {
            callee: self.callee.deep_view(),
            args: self.args@.map_values(|a: ArgExpr| a@),
        }
    }
}

/// The `self` parameter of a method, if any.
#[derive(Clone, Copy, Debug, PartialEq, Eq, Structural)]
pub enum SelfParam {
    /// No `self`: an associated function.
    Absent,
    /// `self`, consumed by value.
    Value,
    /// `&self`.
    Ref,
    /// `&mut self`.
    RefMut,
}

/// A parameter other than `self`. `name` is empty where the parameter is a
/// pattern rather than a single name.
#[derive(Debug)]
pub struct ParamDecl {
    pub name: String,
    pub ty: TypeExpr,
}

/// Model of [`ParamDecl`].
pub struct ParamDeclModel {
    pub name: Seq<char>,
    pub ty: TypeModel,
}

impl View for ParamDecl {
    type V = ParamDeclModel;

    open spec fn view(&self) -> ParamDeclModel {
        ParamDeclModel { name: self.name@, ty: self.ty@ }
    }
}

/// A method of an operation group.
#[derive(Debug)]
pub struct MethodDecl {
    pub name: String,
    pub is_public: bool,
    pub is_const: bool,
    pub is_async: bool,
    pub has_generics: bool,
    pub self_param: SelfParam,
    pub params: Vec<ParamDecl>,
    /// The declared return type; `None` where none is written.
    pub output: Option<TypeExpr>,
    pub attrs: Vec<Attribute>,
    /// The type named by a "feeds" annotation, if any.
    pub feeds: Option<TypeExpr>,
    pub body_is_empty: bool,
    pub calls: Vec<CallSite>,
}

/// Model of [`MethodDecl`].
pub struct MethodModel {
    pub name: Seq<char>,
    pub is_public: bool,
    pub is_const: bool,
    pub is_async: bool,
    pub has_generics: bool,
    pub self_param: SelfParam,
    pub params: Seq<ParamDeclModel>,
    pub output: Option<TypeModel>,
    pub attrs: Seq<AttributeModel>,
    pub feeds: Option<TypeModel>,
    pub body_is_empty: bool,
    pub calls: Seq<CallSiteModel>,
}

/// The model of an optional type.
pub open spec fn optional_type(t: Option<TypeExpr>) -> Option<TypeModel> {
    match t {
        Some(t) => Some(t@),
        None => None,
    }
}

impl View for MethodDecl {
    type V = MethodModel;

    open spec fn view(&self) -> MethodModel {
        MethodModel {
            name: self.name@,
            is_public: self.is_public,
            is_const: self.is_const,
            is_async: self.is_async,
            has_generics: self.has_generics,
            self_param: self.self_param,
            params: self.params@.map_values(|p: ParamDecl| p@),
            output: optional_type(self.output),
            attrs: self.attrs@.map_values(|a: Attribute| a@),
            feeds: optional_type(self.feeds),
            body_is_empty: self.body_is_empty,
            calls: self.calls@.map_values(|c: CallSite| c@),
        }
    }
}

/// An operation group: `impl Type { .. }` or `impl Interface for Type { .. }`.
/// `self_ty` is the implementing type where that is a single identifier, and
/// empty otherwise. `trait_path` holds the identifiers of the interface's
/// path and is empty for an inherent group.
#[derive(Debug)]
pub struct ImplBlock {
    pub attrs: Vec<Attribute>,
    pub trait_path: Vec<String>,
    pub self_ty: String,
    pub methods: Vec<MethodDecl>,
}

/// Model of [`ImplBlock`].
pub struct ImplModel {
    pub attrs: Seq<AttributeModel>,
    pub trait_path: Seq<Seq<char>>,
    pub self_ty: Seq<char>,
    pub methods: Seq<MethodModel>,
}

impl View for ImplBlock {
    type V = ImplModel;

    open spec fn view(&self) -> ImplModel {
        ImplModel {
            attrs: self.attrs@.map_values(|a: Attribute| a@),
            trait_path: self.trait_path.deep_view(),
            self_ty: self.self_ty@,
            methods: self.methods@.map_values(|m: MethodDecl| m@),
        }
    }
}

/// A free function of the module. `source` is its text without contract
/// annotations.
#[derive(Debug)]
pub struct FnItem {
    pub name: String,
    pub attrs: Vec<Attribute>,
    pub source: String,
}

/// Model of [`FnItem`].
pub struct FnItemModel {
    pub name: Seq<char>,
    pub attrs: Seq<AttributeModel>,
    pub source: Seq<char>,
}

impl View for FnItem {
    type V = FnItemModel;

    open spec fn view(&self) -> FnItemModel {
        FnItemModel {
            name: self.name@,
            attrs: self.attrs@.map_values(|a: Attribute| a@),
            source: self.source@,
        }
    }
}

/// One item of the contract module.
#[derive(Debug)]
pub enum Item {
    Use { tree: UseTree },
    Struct { name: String, is_public: bool },
    Impl { block: ImplBlock },
    Fn { func: FnItem },
    Other,
}

/// Model of [`Item`].
pub enum ItemModel {
    Use { tree: UseTreeModel },
    Struct { name: Seq<char>, is_public: bool },
    Impl { block: ImplModel },
    Fn { func: FnItemModel },
    Other,
}

impl View for Item {
    type V = ItemModel;

    open spec fn view(&self) -> ItemModel {
        match self {
            Item::Use { tree } => ItemModel::Use { tree: tree@ },
            Item::Struct { name, is_public } => ItemModel::Struct {
                name: name@,
                is_public: *is_public,
            },
            Item::Impl { block } => ItemModel::Impl { block: block@ },
            Item::Fn { func } => ItemModel::Fn { func: func@ },
            Item::Other => ItemModel::Other,
        }
    }
}

/// The contract module. `has_content` is false for a bare `mod name;`.
#[derive(Debug)]
pub struct ContractModule {
    pub has_content: bool,
    pub items: Vec<Item>,
}

/// Model of [`ContractModule`].
pub struct ModuleModel {
    pub has_content: bool,
    pub items: Seq<ItemModel>,
}

impl View for ContractModule {
    type V = ModuleModel;

    open spec fn view(&self) -> ModuleModel {
        ModuleModel {
            has_content: self.has_content,
            items: self.items@.map_values(|i: Item| i@),
        }
    }
}

} // verus!
