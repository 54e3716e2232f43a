//! What holds of every document, stated over the functions that define it.

use vstd::prelude::*;
use wit_parser::SizeAlign;
use crate::anchor::{item_entry, kebab_form, member_entry};
use crate::docs::docs_text;
use crate::layout::layout_table;
use crate::model::{CaseView, Interface, InterfaceView, KindView, Type, TypeDefView};
use crate::printer::{
    is_bool_shape, is_expected_shape, kind_ok, kind_text, option_payload, payload_ok, payload_text,
    record_parts, tuple_parts, type_ok, type_text, union_parts,
};
use crate::section::{
    alias_text, body_entries, body_heading, case_entry, document_anchors, document_text,
    enum_entry, flag_entry, function_text, functions_banner, functions_text, header_text,
    is_alias_like, kind_label, layout_line, member_names, named_count, record_entry,
    section_anchors, section_text, sections_anchors, sections_text, tuple_entry, types_banner,
    union_entry,
};
use crate::text::concat;

verus! {

/// The document is a function of the graph and of the layouts alone: two
/// graphs with the same view, rendered with calculators that hold the same
/// table, give the same text and the same registry.
pub proof fn law_deterministic(a: Interface, b: Interface, sizes_a: SizeAlign, sizes_b: SizeAlign)
    requires
        a@ == b@,
        layout_table(sizes_a) == layout_table(sizes_b),
    ensures
        document_text(a@, layout_table(sizes_a)) == document_text(b@, layout_table(sizes_b)),
        document_anchors(a@) == document_anchors(b@),
{
}

/// The registry entries of the first `n` definitions hold the entry of every
/// named type among them.
proof fn lemma_sections_anchors_hold(g: InterfaceView, n: nat, i: int)
    requires
        0 <= i < n,
        g.types[i].name is Some,
    ensures
        sections_anchors(g, n).contains(item_entry(g.types[i].name->0)),
    decreases n,
{
    let last = n - 1;
    let before = sections_anchors(g, last as nat);
    if i == last {
        let own = section_anchors(g.types[i]);
        assert(own[0] == item_entry(g.types[i].name->0));
        assert(sections_anchors(g, n)[before.len() as int] == own[0]);
    } else {
        lemma_sections_anchors_hold(g, last as nat, i);
        let at = choose|at: int|
            0 <= at < before.len() && before[at] == item_entry(g.types[i].name->0);
        assert(sections_anchors(g, n)[at] == before[at]);
    }
}

/// Every named type is in the registry, under its name, with `#` and the
/// kebab case of its name as the target.
pub proof fn law_anchor_registered(g: InterfaceView, i: int)
    requires
        0 <= i < g.types.len(),
        g.types[i].name is Some,
    ensures
        document_anchors(g).contains((g.types[i].name->0, "#"@ + kebab_form(g.types[i].name->0))),
{
    lemma_sections_anchors_hold(g, g.types.len(), i);
    let entry = item_entry(g.types[i].name->0);
    let sections = sections_anchors(g, g.types.len());
    let at = choose|at: int| 0 <= at < sections.len() && sections[at] == entry;
    assert(document_anchors(g)[at] == entry);
}

/// Wherever a named type is referred to, the text is a link with the name
/// as its visible text and the registered target of the type as its target.
pub proof fn law_link_target(g: InterfaceView, i: usize, depth: nat)
    requires
        i < g.types.len(),
        g.types[i as int].name is Some,
    ensures
        type_text(g, Type::Id(i), false, depth) == "[`"@ + g.types[i as int].name->0 + "`]("@
            + item_entry(g.types[i as int].name->0).1 + ")"@,
{
}

/// The body of a section has one entry for each declared field, type, flag
/// or case, in declaration order, and the section records one member for
/// each field, flag or case that has a name.
pub proof fn law_entries_complete(g: InterfaceView, owner: Seq<char>, kind: KindView)
    ensures
        kind matches KindView::Record(fields) ==> {
            &&& body_entries(g, owner, kind).len() == fields.len()
            &&& member_names(kind).len() == fields.len()
            &&& forall|k: int|
                0 <= k < fields.len() ==> #[trigger] body_entries(g, owner, kind)[k]
                    == record_entry(g, owner, fields, k)
        },
        kind matches KindView::Tuple(types) ==> {
            &&& body_entries(g, owner, kind).len() == types.len()
            &&& forall|k: int|
                0 <= k < types.len() ==> #[trigger] body_entries(g, owner, kind)[k] == tuple_entry(
                    g,
                    types[k],
                )
        },
        kind matches KindView::Flags(flags) ==> {
            &&& body_entries(g, owner, kind).len() == flags.len()
            &&& member_names(kind).len() == flags.len()
            &&& forall|k: int|
                0 <= k < flags.len() ==> #[trigger] body_entries(g, owner, kind)[k] == flag_entry(
                    owner,
                    flags[k],
                    k as nat,
                )
        },
        kind matches KindView::Variant(cases) ==> {
            &&& body_entries(g, owner, kind).len() == cases.len()
            &&& member_names(kind).len() == cases.len()
            &&& forall|k: int|
                0 <= k < cases.len() ==> #[trigger] body_entries(g, owner, kind)[k] == case_entry(
                    g,
                    owner,
                    cases[k],
                )
        },
        kind matches KindView::Enum(cases) ==> {
            &&& body_entries(g, owner, kind).len() == cases.len()
            &&& member_names(kind).len() == cases.len()
            &&& forall|k: int|
                0 <= k < cases.len() ==> #[trigger] body_entries(g, owner, kind)[k] == enum_entry(
                    owner,
                    cases[k],
                )
        },
        kind matches KindView::Union(cases) ==> {
            &&& body_entries(g, owner, kind).len() == cases.len()
            &&& forall|k: int|
                0 <= k < cases.len() ==> #[trigger] body_entries(g, owner, kind)[k] == union_entry(
                    g,
                    cases[k],
                )
        },
{
}

/// A section records the type itself and then each of its named members, in
/// declaration order, and nothing else.
pub proof fn law_section_records_members(def: TypeDefView)
    ensures
        section_anchors(def).len() == 1 + member_names(def.kind).len(),
        section_anchors(def)[0] == item_entry(def.name->0),
        forall|k: int|
            0 <= k < member_names(def.kind).len() ==> #[trigger] section_anchors(def)[k + 1]
                == member_entry(def.name->0, member_names(def.kind)[k]),
{
}

/// Without a named type among the first `n` definitions, no section and no
/// banner is written for them.
proof fn lemma_no_sections(g: InterfaceView, table: Seq<(usize, usize)>, n: nat, fresh: bool)
    requires
        named_count(g, n) == 0,
    ensures
        sections_text(g, table, n, fresh) == Seq::<char>::empty(),
    decreases n,
{
    if n > 0 {
        lemma_no_sections(g, table, (n - 1) as nat, fresh);
    }
}

/// A graph without a named type has no types banner: its document is the
/// blocks of its functions alone.
pub proof fn law_no_types_banner(g: InterfaceView, table: Seq<(usize, usize)>)
    requires
        named_count(g, g.types.len()) == 0,
    ensures
        sections_text(g, table, g.types.len(), true) == Seq::<char>::empty(),
        document_text(g, table) == functions_text(g, g.functions.len(), true),
{
    lemma_no_sections(g, table, g.types.len(), true);
    assert(document_text(g, table) =~= functions_text(g, g.functions.len(), true));
}

/// A graph without a function has no functions banner: its document is the
/// sections of its named types alone.
pub proof fn law_no_functions_banner(g: InterfaceView, table: Seq<(usize, usize)>)
    requires
        g.functions.len() == 0,
    ensures
        functions_text(g, g.functions.len(), true) == Seq::<char>::empty(),
        document_text(g, table) == sections_text(g, table, g.types.len(), true),
{
    assert(document_text(g, table) =~= sections_text(g, table, g.types.len(), true));
}

/// With a named type among the first `n` definitions, what is written for
/// them begins with the types banner.
proof fn lemma_sections_begin(g: InterfaceView, table: Seq<(usize, usize)>, n: nat)
    requires
        named_count(g, n) > 0,
    ensures
        types_banner().is_prefix_of(sections_text(g, table, n, true)),
    decreases n,
{
    let i = (n - 1) as nat;
    let before = sections_text(g, table, i, true);
    if named_count(g, i) > 0 {
        lemma_sections_begin(g, table, i);
        assert(types_banner() =~= before.subrange(0, types_banner().len() as int));
        assert(types_banner() =~= sections_text(g, table, n, true).subrange(
            0,
            types_banner().len() as int,
        ));
    } else {
        lemma_no_sections(g, table, i, true);
        assert(sections_text(g, table, n, true) =~= types_banner() + section_text(
            g,
            table[i as int],
            i as int,
        ));
        assert(types_banner() =~= sections_text(g, table, n, true).subrange(
            0,
            types_banner().len() as int,
        ));
    }
}

/// What is written for the first `n` functions, if there are any, begins
/// with the functions banner.
proof fn lemma_functions_begin(g: InterfaceView, n: nat)
    requires
        n > 0,
    ensures
        functions_banner().is_prefix_of(functions_text(g, n, true)),
    decreases n,
{
    let i = (n - 1) as nat;
    if i > 0 {
        lemma_functions_begin(g, i);
        assert(functions_banner() =~= functions_text(g, i, true).subrange(
            0,
            functions_banner().len() as int,
        ));
        assert(functions_banner() =~= functions_text(g, n, true).subrange(
            0,
            functions_banner().len() as int,
        ));
    } else {
        assert(functions_text(g, 0, true) =~= Seq::<char>::empty());
        assert(functions_text(g, n, true) =~= functions_banner() + function_text(
            g,
            g.functions[0],
        ));
        assert(functions_banner() =~= functions_text(g, n, true).subrange(
            0,
            functions_banner().len() as int,
        ));
    }
}

/// A graph with a named type begins its document with the types banner; a
/// graph with a function begins the blocks of its functions with the
/// functions banner.
pub proof fn law_banners_lead(g: InterfaceView, table: Seq<(usize, usize)>)
    ensures
        named_count(g, g.types.len()) > 0 ==> types_banner().is_prefix_of(document_text(g, table)),
        g.functions.len() > 0 ==> functions_banner().is_prefix_of(
            functions_text(g, g.functions.len(), true),
        ),
{
    if named_count(g, g.types.len()) > 0 {
        lemma_sections_begin(g, table, g.types.len());
        let sections = sections_text(g, table, g.types.len(), true);
        assert(types_banner() =~= sections.subrange(0, types_banner().len() as int));
        assert(types_banner() =~= document_text(g, table).subrange(
            0,
            types_banner().len() as int,
        ));
    }
    if g.functions.len() > 0 {
        lemma_functions_begin(g, g.functions.len());
    }
}

/// A list of characters is written as `string` wherever it is written out.
pub proof fn law_char_list_is_string(g: InterfaceView, i: usize, skip_name: bool, depth: nat)
    requires
        i < g.types.len(),
        g.types[i as int].kind == KindView::List(Type::Char),
        skip_name || g.types[i as int].name is None,
        depth > 0,
    ensures
        type_text(g, Type::Id(i), skip_name, depth) == "`string`"@,
{
}

/// A variant of two cases without payloads is written as `bool`, unless its
/// cases are named `ok` and `err`.
pub proof fn law_bool_variant(g: InterfaceView, cases: Seq<CaseView>, depth: nat)
    requires
        cases.len() == 2,
        cases[0].ty is None,
        cases[1].ty is None,
        !is_expected_shape(cases),
    ensures
        kind_text(g, KindView::Variant(cases), depth) == "`bool`"@,
{
}

/// A variant of two cases of which exactly one has a payload is written as
/// an option of that payload, unless its cases are named `ok` and `err`.
pub proof fn law_option_variant(g: InterfaceView, cases: Seq<CaseView>, payload: Type, depth: nat)
    requires
        cases.len() == 2,
        (cases[0].ty == Some(payload) && cases[1].ty is None) || (cases[0].ty is None
            && cases[1].ty == Some(payload)),
        !is_expected_shape(cases),
    ensures
        kind_text(g, KindView::Variant(cases), depth) == "option<"@ + type_text(
            g,
            payload,
            false,
            depth,
        ) + ">"@,
{
}

/// A variant of two cases named `ok` and `err` is written as a value or an
/// error, with `_` for a case without a payload.
pub proof fn law_expected_variant(g: InterfaceView, cases: Seq<CaseView>, depth: nat)
    requires
        cases.len() == 2,
        cases[0].name == "ok"@,
        cases[1].name == "err"@,
    ensures
        kind_text(g, KindView::Variant(cases), depth) == "expected<"@ + payload_text(
            g,
            cases[0].ty,
            depth,
        ) + ", "@ + payload_text(g, cases[1].ty, depth) + ">"@,
{
}

/// A variant that is written out where a type is referred to is written as
/// what it stands for.
pub proof fn law_variant_inline(g: InterfaceView, i: usize, skip_name: bool, depth: nat)
    requires
        i < g.types.len(),
        g.types[i as int].kind is Variant,
        skip_name || g.types[i as int].name is None,
        depth > 0,
    ensures
        type_text(g, Type::Id(i), skip_name, depth) == kind_text(
            g,
            g.types[i as int].kind,
            (depth - 1) as nat,
        ),
{
}

/// What the section of the named definition `i` says before the line of its
/// layout.
pub open spec fn before_layout(g: InterfaceView, i: int) -> Seq<char> {
    let def = g.types[i];
    header_text(def.name->0) + (if is_alias_like(def.kind) {
        alias_text(g, i) + "\n\n"@
    } else {
        kind_label(def.kind)
    }) + docs_text(def.docs) + "\n"@
}

/// What the section of the named definition `i` says after the line of its
/// layout.
pub open spec fn after_layout(g: InterfaceView, i: int) -> Seq<char> {
    let def = g.types[i];
    if is_alias_like(def.kind) {
        "\n"@
    } else {
        body_heading(def.kind) + concat(body_entries(g, def.name->0, def.kind))
    }
}

/// The section of a named type shows the size and the alignment that it is
/// given, in decimal, in one line after the documentation; nothing else in
/// the section depends on them.
pub proof fn law_layout_shown(g: InterfaceView, layout: (usize, usize), i: int)
    ensures
        section_text(g, layout, i) == before_layout(g, i) + layout_line(
            layout.0 as nat,
            layout.1 as nat,
        ) + after_layout(g, i),
{
    assert(section_text(g, layout, i) =~= before_layout(g, i) + layout_line(
        layout.0 as nat,
        layout.1 as nat,
    ) + after_layout(g, i));
}

/// The number of levels is only a bound: where the text of a reference to a
/// type is defined within `depth` levels, it is defined within any larger
/// number of levels, and it is the same text.
pub proof fn law_depth_is_a_bound(
    g: InterfaceView,
    ty: Type,
    skip_name: bool,
    depth: nat,
    more: nat,
)
    requires
        type_ok(g, ty, skip_name, depth),
        depth <= more,
    ensures
        type_ok(g, ty, skip_name, more),
        type_text(g, ty, skip_name, more) == type_text(g, ty, skip_name, depth),
    decreases depth, 0nat,
{
    match ty {
        Type::Id(i) => {
            let def = g.types[i as int];
            if !skip_name && def.name is Some {
            } else {
                lemma_kind_depth(g, def.kind, (depth - 1) as nat, (more - 1) as nat);
            }
        },
        _ => {},
    }
}

/// `law_depth_is_a_bound` for a payload that may be absent.
proof fn lemma_payload_depth(g: InterfaceView, ty: Option<Type>, depth: nat, more: nat)
    requires
        payload_ok(g, ty, depth),
        depth <= more,
    ensures
        payload_ok(g, ty, more),
        payload_text(g, ty, more) == payload_text(g, ty, depth),
    decreases depth, 1nat,
{
    match ty {
        Some(ty) => law_depth_is_a_bound(g, ty, false, depth, more),
        None => {},
    }
}

/// `law_depth_is_a_bound` for a definition written out in full.
proof fn lemma_kind_depth(g: InterfaceView, kind: KindView, depth: nat, more: nat)
    requires
        kind_ok(g, kind, depth),
        depth <= more,
    ensures
        kind_ok(g, kind, more),
        kind_text(g, kind, more) == kind_text(g, kind, depth),
    decreases depth, 2nat,
{
    match kind {
        KindView::Record(fields) => {
            assert forall|k: int| 0 <= k < fields.len() implies type_ok(
                g,
                (#[trigger] fields[k]).ty,
                false,
                more,
            ) && type_text(g, fields[k].ty, false, more) == type_text(
                g,
                fields[k].ty,
                false,
                depth,
            ) by {
                law_depth_is_a_bound(g, fields[k].ty, false, depth, more);
            }
            assert(record_parts(g, fields, more) =~= record_parts(g, fields, depth));
        },
        KindView::Tuple(types) => {
            assert forall|k: int| 0 <= k < types.len() implies type_ok(
                g,
                #[trigger] types[k],
                false,
                more,
            ) && type_text(g, types[k], false, more) == type_text(g, types[k], false, depth) by {
                law_depth_is_a_bound(g, types[k], false, depth, more);
            }
            assert(tuple_parts(g, types, more) =~= tuple_parts(g, types, depth));
        },
        KindView::Flags(_) => {},
        KindView::Variant(cases) => {
            if is_expected_shape(cases) {
                lemma_payload_depth(g, cases[0].ty, depth, more);
                lemma_payload_depth(g, cases[1].ty, depth, more);
            } else if is_bool_shape(cases) {
            } else {
                law_depth_is_a_bound(g, option_payload(cases), false, depth, more);
            }
        },
        KindView::Enum(_) => {},
        KindView::Union(cases) => {
            assert forall|k: int| 0 <= k < cases.len() implies type_ok(
                g,
                (#[trigger] cases[k]).ty,
                false,
                more,
            ) && type_text(g, cases[k].ty, false, more) == type_text(
                g,
                cases[k].ty,
                false,
                depth,
            ) by {
                law_depth_is_a_bound(g, cases[k].ty, false, depth, more);
            }
            assert(union_parts(g, cases, more) =~= union_parts(g, cases, depth));
        },
        KindView::Optional(ty) => law_depth_is_a_bound(g, ty, false, depth, more),
        KindView::Expected(e) => {
            lemma_payload_depth(g, e.ok, depth, more);
            lemma_payload_depth(g, e.err, depth, more);
        },
        KindView::List(ty) => law_depth_is_a_bound(g, ty, false, depth, more),
        KindView::Future(ty) => law_depth_is_a_bound(g, ty, false, depth, more),
        KindView::Stream(s) => {
            law_depth_is_a_bound(g, s.element, false, depth, more);
            law_depth_is_a_bound(g, s.end, false, depth, more);
        },
        KindView::Alias(ty) => law_depth_is_a_bound(g, ty, false, depth, more),
        KindView::Pointer(ty) => law_depth_is_a_bound(g, ty, false, depth, more),
        KindView::ConstPointer(ty) => law_depth_is_a_bound(g, ty, false, depth, more),
        KindView::PushBuffer(ty) => law_depth_is_a_bound(g, ty, false, depth, more),
        KindView::PullBuffer(ty) => law_depth_is_a_bound(g, ty, false, depth, more),
    }
}

} // verus!
