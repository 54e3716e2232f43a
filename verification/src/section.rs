//! What the document says of a named type and of a function: the text of
//! each section and block, and the registry entries that it makes.

use vstd::prelude::*;
use crate::anchor::{anchor_tag, item_entry, kebab_form, member_anchor, member_entry, member_head};
use crate::docs::docs_text;
use crate::model::{
    CaseView, EnumCaseView, FieldView, FlagView, FunctionView, InterfaceView, KindView,
    ParamView, ResultsView, Type, TypeDefView, UnionCaseView,
};
use crate::printer::{payload_text, type_text};
use crate::text::{concat, decimal_text};

verus! {

/// The banner that stands before the first section of a named type.
pub open spec fn types_banner() -> Seq<char> {
    "# Types\n\n"@
}

/// The banner that stands before the block of the first function.
pub open spec fn functions_banner() -> Seq<char> {
    "# Functions\n\n"@
}

/// The heading of the section of a named type: its anchor, then its name.
pub open spec fn header_text(name: Seq<char>) -> Seq<char> {
    "## "@ + anchor_tag(kebab_form(name)) + " `"@ + name + "`: "@
}

/// The line that gives the size and the alignment of a type.
pub open spec fn layout_line(size: nat, align: nat) -> Seq<char> {
    "Size: "@ + decimal_text(size) + ", "@ + "Alignment: "@ + decimal_text(align) + "\n"@
}

/// The documentation of a type, an empty line, and its size and alignment.
pub open spec fn info_text(docs: Option<Seq<char>>, layout: (usize, usize)) -> Seq<char> {
    docs_text(docs) + "\n"@ + layout_line(layout.0 as nat, layout.1 as nat)
}

/// The line that gives the position of a flag, counted from 0.
pub open spec fn bit_line(k: nat) -> Seq<char> {
    "Bit: "@ + decimal_text(k) + "\n"@
}

/// A record that is a flag set in disguise: it has fields, and all of them
/// are booleans.
pub open spec fn is_flag_like(fields: Seq<FieldView>) -> bool {
    fields.len() > 0 && forall|k: int| 0 <= k < fields.len() ==> (#[trigger] fields[k]).ty == Type::Bool
}

/// The list entry of field `k` of a record; it gives the position of the
/// field where the record is a flag set in disguise.
pub open spec fn record_entry(g: InterfaceView, owner: Seq<char>, fields: Seq<FieldView>, k: int) -> Seq<
    char,
> {
    member_head(owner, fields[k].name) + ": "@ + type_text(
        g,
        fields[k].ty,
        false,
        g.types.len(),
    ) + "\n\n"@ + docs_text(fields[k].docs) + (if is_flag_like(fields) {
        bit_line(k as nat)
    } else {
        Seq::empty()
    }) + "\n"@
}

/// The list entry of a type of a tuple.
pub open spec fn tuple_entry(g: InterfaceView, ty: Type) -> Seq<char> {
    "- "@ + type_text(g, ty, false, g.types.len()) + "\n"@
}

/// The list entry of flag `k` of a flag set.
pub open spec fn flag_entry(owner: Seq<char>, flag: FlagView, k: nat) -> Seq<char> {
    member_head(owner, flag.name) + "\n\n"@ + docs_text(flag.docs) + bit_line(k) + "\n"@
}

/// The payload of a case as its list entry shows it: nothing where there is
/// none.
pub open spec fn case_payload_text(g: InterfaceView, ty: Option<Type>) -> Seq<char> {
    match ty {
        Some(ty) => ": "@ + type_text(g, ty, false, g.types.len()),
        None => Seq::empty(),
    }
}

/// The list entry of a case of a variant.
pub open spec fn case_entry(g: InterfaceView, owner: Seq<char>, case: CaseView) -> Seq<char> {
    member_head(owner, case.name) + case_payload_text(g, case.ty) + "\n\n"@ + docs_text(case.docs)
        + "\n"@
}

/// The list entry of a case of an enumeration.
pub open spec fn enum_entry(owner: Seq<char>, case: EnumCaseView) -> Seq<char> {
    member_head(owner, case.name) + "\n\n"@ + docs_text(case.docs) + "\n"@
}

/// The list entry of a case of a union.
pub open spec fn union_entry(g: InterfaceView, case: UnionCaseView) -> Seq<char> {
    "- "@ + type_text(g, case.ty, false, g.types.len()) + "\n\n"@ + docs_text(case.docs) + "\n"@
}

/// The one list entry of an optional value or of an asynchronous value.
pub open spec fn single_entry(g: InterfaceView, ty: Type) -> Seq<char> {
    "- "@ + type_text(g, ty, false, g.types.len()) + "\n\n"@
}

/// The first of two labelled entries.
pub open spec fn ok_entry(text: Seq<char>) -> Seq<char> {
    "- ok: "@ + text + "\n"@
}

/// The second of two labelled entries.
pub open spec fn err_entry(text: Seq<char>) -> Seq<char> {
    "- err: "@ + text + "\n\n"@
}

/// The list entries of the body of a section, in declaration order: one for
/// each field, type, flag or case; one for an optional or an asynchronous
/// value; two for a value or an error and for an asynchronous sequence; none
/// for an alias, a list, a pointer or a buffer.
pub open spec fn body_entries(g: InterfaceView, owner: Seq<char>, kind: KindView) -> Seq<Seq<char>> {
    let depth = g.types.len();
    match kind {
        KindView::Record(fields) => Seq::new(
            fields.len(),
            |k: int| record_entry(g, owner, fields, k),
        ),
        KindView::Tuple(types) => Seq::new(types.len(), |k: int| tuple_entry(g, types[k])),
        KindView::Flags(flags) => Seq::new(flags.len(), |k: int| flag_entry(owner, flags[k], k as nat)),
        KindView::Variant(cases) => Seq::new(cases.len(), |k: int| case_entry(g, owner, cases[k])),
        KindView::Enum(cases) => Seq::new(cases.len(), |k: int| enum_entry(owner, cases[k])),
        KindView::Union(cases) => Seq::new(cases.len(), |k: int| union_entry(g, cases[k])),
        KindView::Optional(ty) => seq![single_entry(g, ty)],
        KindView::Expected(e) => seq![
            ok_entry(payload_text(g, e.ok, depth)),
            err_entry(payload_text(g, e.err, depth)),
        ],
        KindView::Future(ty) => seq![single_entry(g, ty)],
        KindView::Stream(s) => seq![
            ok_entry(type_text(g, s.element, false, depth)),
            err_entry(type_text(g, s.end, false, depth)),
        ],
        _ => Seq::empty(),
    }
}

/// The word that names the kind of a section, and the empty line after it.
/// An alias, a list, a pointer and a buffer have none: their section shows
/// the type itself.
pub open spec fn kind_label(kind: KindView) -> Seq<char> {
    match kind {
        KindView::Record(_) => "record\n\n"@,
        KindView::Tuple(_) => "tuple\n\n"@,
        KindView::Flags(_) => "flags\n\n"@,
        KindView::Variant(_) => "variant\n\n"@,
        KindView::Enum(_) => "enum\n\n"@,
        KindView::Union(_) => "union\n\n"@,
        KindView::Optional(_) => "option\n\n"@,
        KindView::Expected(_) => "expected\n\n"@,
        KindView::Future(_) => "future\n\n"@,
        KindView::Stream(_) => "stream\n\n"@,
        _ => Seq::empty(),
    }
}

/// The heading of the body of a section.
pub open spec fn body_heading(kind: KindView) -> Seq<char> {
    match kind {
        KindView::Record(_) => "\n### Record Fields\n\n"@,
        KindView::Tuple(_) => "\n### Tuple Types\n\n"@,
        KindView::Flags(_) => "\n### Flags Fields\n\n"@,
        KindView::Variant(_) => "\n### Variant Cases\n\n"@,
        KindView::Enum(_) => "\n### Enum Cases\n\n"@,
        KindView::Union(_) => "\n### Union Cases\n\n"@,
        KindView::Optional(_) => "\n### Option\n\n"@,
        KindView::Expected(_) => "\n### Expected\n\n"@,
        KindView::Future(_) => "\n### Future\n\n"@,
        KindView::Stream(_) => "\n### Stream\n\n"@,
        _ => Seq::empty(),
    }
}

/// Whether the section of a definition of this kind shows the type itself in
/// place of a label and a body.
pub open spec fn is_alias_like(kind: KindView) -> bool {
    kind is Alias || kind is List || kind is Pointer || kind is ConstPointer || kind is PushBuffer
        || kind is PullBuffer
}

/// What the section of an alias, a list, a pointer or a buffer shows in place
/// of a label: the target of the alias, or the definition itself, written
/// out whatever its name.
pub open spec fn alias_text(g: InterfaceView, i: int) -> Seq<char> {
    match g.types[i].kind {
        KindView::Alias(ty) => type_text(g, ty, true, g.types.len()),
        _ => type_text(g, Type::Id(i as usize), true, g.types.len()),
    }
}

/// The section of the named definition `i`, after its heading: for an alias,
/// a list, a pointer or a buffer the type, then the documentation and the
/// layout; for any other kind its label, the documentation and the layout,
/// then the heading of the body and its entries.
pub open spec fn section_body(g: InterfaceView, layout: (usize, usize), i: int) -> Seq<char> {
    let def = g.types[i];
    if is_alias_like(def.kind) {
        alias_text(g, i) + "\n\n"@ + info_text(def.docs, layout) + "\n"@
    } else {
        kind_label(def.kind) + info_text(def.docs, layout) + body_heading(def.kind) + concat(
            body_entries(g, def.name->0, def.kind),
        )
    }
}

/// The whole section of the named definition `i`.
pub open spec fn section_text(g: InterfaceView, layout: (usize, usize), i: int) -> Seq<char> {
    header_text(g.types[i].name->0) + section_body(g, layout, i)
}

/// The names of the members that a section records: the fields of a record,
/// the flags of a flag set, the cases of a variant or of an enumeration.
pub open spec fn member_names(kind: KindView) -> Seq<Seq<char>> {
    match kind {
        KindView::Record(fields) => Seq::new(fields.len(), |k: int| fields[k].name),
        KindView::Flags(flags) => Seq::new(flags.len(), |k: int| flags[k].name),
        KindView::Variant(cases) => Seq::new(cases.len(), |k: int| cases[k].name),
        KindView::Enum(cases) => Seq::new(cases.len(), |k: int| cases[k].name),
        _ => Seq::empty(),
    }
}

/// The registry entries of the members of a named type.
pub open spec fn member_entries(owner: Seq<char>, names: Seq<Seq<char>>) -> Seq<
    (Seq<char>, Seq<char>),
> {
    Seq::new(names.len(), |k: int| member_entry(owner, names[k]))
}

/// The registry entries that the section of a named type makes: the type
/// itself, then its members in declaration order.
pub open spec fn section_anchors(def: TypeDefView) -> Seq<(Seq<char>, Seq<char>)> {
    seq![item_entry(def.name->0)] + member_entries(def.name->0, member_names(def.kind))
}

/// The list entry of a parameter or of a named result of a function.
pub open spec fn param_entry(g: InterfaceView, owner: Seq<char>, p: ParamView) -> Seq<char> {
    "- "@ + anchor_tag(member_anchor(owner, p.name)) + " `"@ + p.name + "`: "@ + type_text(
        g,
        p.ty,
        false,
        g.types.len(),
    ) + "\n"@
}

/// The list entries of the parameters or of the named results of a function.
pub open spec fn param_entries(g: InterfaceView, owner: Seq<char>, params: Seq<ParamView>) -> Seq<
    Seq<char>,
> {
    Seq::new(params.len(), |k: int| param_entry(g, owner, params[k]))
}

/// The parameters of a function: nothing where it has none.
pub open spec fn params_text(g: InterfaceView, owner: Seq<char>, params: Seq<ParamView>) -> Seq<
    char,
> {
    if params.len() > 0 {
        "##### Params\n\n"@ + concat(param_entries(g, owner, params))
    } else {
        Seq::empty()
    }
}

/// What a function returns: one entry without a name, or an entry for each
/// named result.
pub open spec fn results_text(g: InterfaceView, owner: Seq<char>, results: ResultsView) -> Seq<
    char,
> {
    match results {
        ResultsView::Anon(ty) => "##### Result\n\n"@ + tuple_entry(g, ty),
        ResultsView::Named(results) => "##### Results\n\n"@ + concat(
            param_entries(g, owner, results),
        ),
    }
}

/// The heading of the block of a function: a rule, then its anchor and its
/// name.
pub open spec fn function_header(name: Seq<char>) -> Seq<char> {
    "----\n\n"@ + "#### "@ + anchor_tag(kebab_form(name)) + " `"@ + name + "` "@ + "\n\n"@
}

/// The block of a function: heading, documentation, parameters, results and
/// an empty line.
pub open spec fn function_text(g: InterfaceView, f: FunctionView) -> Seq<char> {
    function_header(f.name) + docs_text(f.docs) + params_text(g, f.name, f.params) + results_text(
        g,
        f.name,
        f.results,
    ) + "\n"@
}

/// How many of the first `n` definitions have a name.
pub open spec fn named_count(g: InterfaceView, n: nat) -> nat
    decreases n,
{
    if n == 0 {
        0
    } else {
        named_count(g, (n - 1) as nat) + if g.types[n - 1].name is Some {
            1nat
        } else {
            0nat
        }
    }
}

/// The sections of the named types among the first `n` definitions, in
/// declaration order. Where nothing was written before (`fresh`), the banner
/// stands before the first of them.
pub open spec fn sections_text(g: InterfaceView, table: Seq<(usize, usize)>, n: nat, fresh: bool) -> Seq<
    char,
>
    decreases n,
{
    if n == 0 {
        Seq::empty()
    } else {
        let i = n - 1;
        sections_text(g, table, i as nat, fresh) + if g.types[i].name is Some {
            (if fresh && named_count(g, i as nat) == 0 {
                types_banner()
            } else {
                Seq::empty()
            }) + section_text(g, table[i], i)
        } else {
            Seq::empty()
        }
    }
}

/// The blocks of the first `n` functions, in declaration order. Where no
/// function was written before (`fresh`), the banner stands before the first
/// of them.
pub open spec fn functions_text(g: InterfaceView, n: nat, fresh: bool) -> Seq<char>
    decreases n,
{
    if n == 0 {
        Seq::empty()
    } else {
        let i = n - 1;
        functions_text(g, i as nat, fresh) + (if fresh && i == 0 {
            functions_banner()
        } else {
            Seq::empty()
        }) + function_text(g, g.functions[i])
    }
}

/// The registry entries of the named types among the first `n` definitions.
pub open spec fn sections_anchors(g: InterfaceView, n: nat) -> Seq<(Seq<char>, Seq<char>)>
    decreases n,
{
    if n == 0 {
        Seq::empty()
    } else {
        let i = n - 1;
        sections_anchors(g, i as nat) + if g.types[i].name is Some {
            section_anchors(g.types[i])
        } else {
            Seq::empty()
        }
    }
}

/// The registry entries of the first `n` functions: one for each.
pub open spec fn functions_anchors(g: InterfaceView, n: nat) -> Seq<(Seq<char>, Seq<char>)> {
    Seq::new(n, |k: int| item_entry(g.functions[k].name))
}

/// The document: the sections of all named types, then the blocks of all
/// functions. `table` gives the size and the alignment of each definition.
pub open spec fn document_text(g: InterfaceView, table: Seq<(usize, usize)>) -> Seq<char> {
    sections_text(g, table, g.types.len(), true) + functions_text(g, g.functions.len(), true)
}

/// The registry of the document: the entries of all named types, then those
/// of all functions.
pub open spec fn document_anchors(g: InterfaceView) -> Seq<(Seq<char>, Seq<char>)> {
    sections_anchors(g, g.types.len()) + functions_anchors(g, g.functions.len())
}

} // verus!
