//! The typed graph of an interface definition: named and anonymous type
//! definitions that refer to each other by index, the resources that handles
//! name, and the functions. Every executable type has a mathematical view in
//! which strings are sequences of characters and vectors are sequences.

use vstd::prelude::*;

verus! {

/// A reference to a type: a primitive, a handle to a resource, or the index
/// of a definition in the type table of the graph.
#[derive(Clone, Copy, Debug, PartialEq, Eq)]
pub enum Type {
    Unit,
    Bool,
    U8,
    U16,
    U32,
    U64,
    S8,
    S16,
    S32,
    S64,
    Float32,
    Float64,
    Char,
    /// A raw byte, as a C `char`.
    CChar,
    /// An integer as wide as a pointer.
    Usize,
    String,
    /// Index into the resource table.
    Handle(usize),
    /// Index into the type table.
    Id(usize),
}

/// Documentation attached to an item, if there is any.
#[derive(Clone, Debug, PartialEq, Eq)]
pub struct Docs {
    pub contents: Option<String>,
}

/// A named field of a record.
#[derive(Clone, Debug, PartialEq, Eq)]
pub struct Field {
    pub docs: Docs,
    pub name: String,
    pub ty: Type,
}

/// One flag of a flag set.
#[derive(Clone, Debug, PartialEq, Eq)]
pub struct Flag {
    pub docs: Docs,
    pub name: String,
}

/// A case of a variant; it may carry a payload.
#[derive(Clone, Debug, PartialEq, Eq)]
pub struct Case {
    pub docs: Docs,
    pub name: String,
    pub ty: Option<Type>,
}

/// A case of an enumeration.
#[derive(Clone, Debug, PartialEq, Eq)]
pub struct EnumCase {
    pub docs: Docs,
    pub name: String,
}

/// A case of an untagged union: a type without a name.
#[derive(Clone, Debug, PartialEq, Eq)]
pub struct UnionCase {
    pub docs: Docs,
    pub ty: Type,
}

/// The two sides of an error-or-value type; either may carry nothing.
#[derive(Clone, Debug, PartialEq, Eq)]
pub struct Expected {
    pub ok: Option<Type>,
    pub err: Option<Type>,
}

/// An asynchronous sequence: the type of its elements and of the value that
/// ends it.
#[derive(Clone, Debug, PartialEq, Eq)]
pub struct Stream {
    pub element: Type,
    pub end: Type,
}

/// The shape of a type definition.
#[derive(Clone, Debug, PartialEq, Eq)]
pub enum TypeDefKind {
    Record(Vec<Field>),
    Tuple(Vec<Type>),
    Flags(Vec<Flag>),
    Variant(Vec<Case>),
    Enum(Vec<EnumCase>),
    Union(Vec<UnionCase>),
    Optional(Type),
    Expected(Expected),
    List(Type),
    Future(Type),
    Stream(Stream),
    /// Another name for a type.
    Alias(Type),
    Pointer(Type),
    ConstPointer(Type),
    /// A buffer that the caller fills.
    PushBuffer(Type),
    /// A buffer that the callee reads.
    PullBuffer(Type),
}

/// A type definition. One with a name gets a section of its own in the
/// document and is linked to where it is used; one without is written out
/// wherever it is used.
#[derive(Clone, Debug, PartialEq, Eq)]
pub struct TypeDef {
    pub docs: Docs,
    pub kind: TypeDefKind,
    pub name: Option<String>,
}

/// A resource that handles refer to.
#[derive(Clone, Debug, PartialEq, Eq)]
pub struct Resource {
    pub name: String,
}

/// A named parameter or result of a function.
#[derive(Clone, Debug, PartialEq, Eq)]
pub struct Param {
    pub name: String,
    pub ty: Type,
}

/// What a function returns: one anonymous value, or a list of named ones.
#[derive(Clone, Debug, PartialEq, Eq)]
pub enum Results {
    Named(Vec<Param>),
    Anon(Type),
}

#[derive(Clone, Debug, PartialEq, Eq)]
pub struct Function {
    pub docs: Docs,
    pub name: String,
    pub params: Vec<Param>,
    pub results: Results,
}

/// The whole graph, in declaration order.
#[derive(Clone, Debug, PartialEq, Eq)]
pub struct Interface {
    pub types: Vec<TypeDef>,
    pub resources: Vec<Resource>,
    pub functions: Vec<Function>,
}

pub struct FieldView {
    pub docs: Option<Seq<char>>,
    pub name: Seq<char>,
    pub ty: Type,
}

pub struct FlagView {
    pub docs: Option<Seq<char>>,
    pub name: Seq<char>,
}

pub struct CaseView {
    pub docs: Option<Seq<char>>,
    pub name: Seq<char>,
    pub ty: Option<Type>,
}

pub struct EnumCaseView {
    pub docs: Option<Seq<char>>,
    pub name: Seq<char>,
}

pub struct UnionCaseView {
    pub docs: Option<Seq<char>>,
    pub ty: Type,
}

pub enum KindView {
    Record(Seq<FieldView>),
    Tuple(Seq<Type>),
    Flags(Seq<FlagView>),
    Variant(Seq<CaseView>),
    Enum(Seq<EnumCaseView>),
    Union(Seq<UnionCaseView>),
    Optional(Type),
    Expected(Expected),
    List(Type),
    Future(Type),
    Stream(Stream),
    Alias(Type),
    Pointer(Type),
    ConstPointer(Type),
    PushBuffer(Type),
    PullBuffer(Type),
}

pub struct TypeDefView {
    pub docs: Option<Seq<char>>,
    pub kind: KindView,
    pub name: Option<Seq<char>>,
}

pub struct ParamView {
    pub name: Seq<char>,
    pub ty: Type,
}

pub enum ResultsView {
    Named(Seq<ParamView>),
    Anon(Type),
}

pub struct FunctionView {
    pub docs: Option<Seq<char>>,
    pub name: Seq<char>,
    pub params: Seq<ParamView>,
    pub results: ResultsView,
}

pub struct InterfaceView {
    pub types: Seq<TypeDefView>,
    pub resources: Seq<Seq<char>>,
    pub functions: Seq<FunctionView>,
}

/// The characters of an optional string.
pub open spec fn text_of(s: Option<String>) -> Option<Seq<char>> {
    match s {
        Some(s) => Some(s@),
        None => None,
    }
}

impl View for Docs {
    type V = Option<Seq<char>>;

    open spec fn view(&self) -> Option<Seq<char>> {
        text_of(self.contents)
    }
}

impl View for Field {
    type V = FieldView;

    open spec fn view(&self) -> FieldView {
        FieldView { docs: self.docs@, name: self.name@, ty: self.ty }
    }
}

impl View for Flag {
    type V = FlagView;

    open spec fn view(&self) -> FlagView {
        FlagView { docs: self.docs@, name: self.name@ }
    }
}

impl View for Case {
    type V = CaseView;

    open spec fn view(&self) -> CaseView {
        CaseView { docs: self.docs@, name: self.name@, ty: self.ty }
    }
}

impl View for EnumCase {
    type V = EnumCaseView;

    open spec fn view(&self) -> EnumCaseView {
        EnumCaseView { docs: self.docs@, name: self.name@ }
    }
}

impl View for UnionCase {
    type V = UnionCaseView;

    open spec fn view(&self) -> UnionCaseView {
        UnionCaseView { docs: self.docs@, ty: self.ty }
    }
}

impl View for TypeDefKind {
    type V = KindView;

    open spec fn view(&self) -> KindView {
        match *self {
            TypeDefKind::Record(fields) => KindView::Record(fields@.map_values(|f: Field| f@)),
            TypeDefKind::Tuple(types) => KindView::Tuple(types@),
            TypeDefKind::Flags(flags) => KindView::Flags(flags@.map_values(|f: Flag| f@)),
            TypeDefKind::Variant(cases) => KindView::Variant(cases@.map_values(|c: Case| c@)),
            TypeDefKind::Enum(cases) => KindView::Enum(cases@.map_values(|c: EnumCase| c@)),
            TypeDefKind::Union(cases) => KindView::Union(cases@.map_values(|c: UnionCase| c@)),
            TypeDefKind::Optional(ty) => KindView::Optional(ty),
            TypeDefKind::Expected(e) => KindView::Expected(e),
            TypeDefKind::List(ty) => KindView::List(ty),
            TypeDefKind::Future(ty) => KindView::Future(ty),
            TypeDefKind::Stream(s) => KindView::Stream(s),
            TypeDefKind::Alias(ty) => KindView::Alias(ty),
            TypeDefKind::Pointer(ty) => KindView::Pointer(ty),
            TypeDefKind::ConstPointer(ty) => KindView::ConstPointer(ty),
            TypeDefKind::PushBuffer(ty) => KindView::PushBuffer(ty),
            TypeDefKind::PullBuffer(ty) => KindView::PullBuffer(ty),
        }
    }
}

impl View for TypeDef {
    type V = TypeDefView;

    open spec fn view(&self) -> TypeDefView {
        TypeDefView { docs: self.docs@, kind: self.kind@, name: text_of(self.name) }
    }
}

impl View for Resource {
    type V = Seq<char>;

    open spec fn view(&self) -> Seq<char> {
        self.name@
    }
}

impl View for Param {
    type V = ParamView;

    open spec fn view(&self) -> ParamView {
        ParamView { name: self.name@, ty: self.ty }
    }
}

impl View for Results {
    type V = ResultsView;

    open spec fn view(&self) -> ResultsView {
        match *self {
            Results::Named(results) => ResultsView::Named(results@.map_values(|p: Param| p@)),
            Results::Anon(ty) => ResultsView::Anon(ty),
        }
    }
}

impl View for Function {
    type V = FunctionView;

    open spec fn view(&self) -> FunctionView {
        FunctionView {
            docs: self.docs@,
            name: self.name@,
            params: self.params@.map_values(|p: Param| p@),
            results: self.results@,
        }
    }
}

impl View for Interface {
    type V = InterfaceView;

    open spec fn view(&self) -> InterfaceView {
        InterfaceView {
            types: self.types@.map_values(|d: TypeDef| d@),
            resources: self.resources@.map_values(|r: Resource| r@),
            functions: self.functions@.map_values(|f: Function| f@),
        }
    }
}

} // verus!
