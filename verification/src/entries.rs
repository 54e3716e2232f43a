//! The list entries of a section's body and of a function's block, written
//! one after another, each member recorded as its entry is written.

use vstd::prelude::*;
use vstd::string::*;
use crate::anchor::{
    entries_view, kebab_case, make_member_anchor, push_anchor_tag, push_member_head, Anchor,
};
use crate::docs::push_docs;
use crate::model::{
    Case, EnumCase, Field, Flag, Interface, KindView, Param, Results, Type, UnionCase,
};
use crate::printer::{kind_ok, payload_ok, payload_text, print_ty, type_ok};
use crate::section::{
    bit_line, body_entries, case_entry, enum_entry, err_entry, flag_entry, function_header,
    is_flag_like, member_entries, member_names, ok_entry, param_entries, param_entry,
    params_text, record_entry, results_text, single_entry, tuple_entry, union_entry,
};
use crate::text::{concat, lemma_concat_next, lemma_concat_one, lemma_concat_two, push_decimal};
use crate::validate::{cases_ok, params_ok};

verus! {

/// Appends the line that gives the position of a flag.
fn push_bit_line(out: &mut String, k: usize)
    ensures
        final(out)@ == old(out)@ + bit_line(k as nat),
{
    out.append("Bit: ");
    push_decimal(out, k);
    out.append("\n");
    assert(out@ =~= old(out)@ + bit_line(k as nat));
}

/// Whether the record has fields and all of them are booleans.
fn has_flag_shape(fields: &Vec<Field>) -> (b: bool)
    ensures
        b == is_flag_like(fields@.map_values(|f: Field| f@)),
{
    let ghost view = fields@.map_values(|f: Field| f@);
    if fields.len() == 0 {
        return false;
    }
    let mut i: usize = 0;
    while i < fields.len()
        invariant
            i <= fields.len(),
            view == fields@.map_values(|f: Field| f@),
            forall|k: int| 0 <= k < i ==> (#[trigger] view[k]).ty == Type::Bool,
        decreases fields.len() - i,
    {
        assert(view[i as int] == fields[i as int]@);
        match fields[i].ty {
            Type::Bool => {},
            _ => {
                return false;
            },
        }
        i = i + 1;
    }
    true
}

/// Appends the entries of the fields of a record and records the fields.
pub(crate) fn push_record_entries(
    out: &mut String,
    hrefs: &mut Vec<Anchor>,
    iface: &Interface,
    name: &str,
    fields: &Vec<Field>,
)
    requires
        kind_ok(
            iface@,
            KindView::Record(fields@.map_values(|f: Field| f@)),
            iface@.types.len(),
        ),
    ensures
        final(out)@ == old(out)@ + concat(
            body_entries(iface@, name@, KindView::Record(fields@.map_values(|f: Field| f@))),
        ),
        entries_view(final(hrefs)@) == entries_view(old(hrefs)@) + member_entries(
            name@,
            member_names(KindView::Record(fields@.map_values(|f: Field| f@))),
        ),
{
    let ghost view = fields@.map_values(|f: Field| f@);
    let ghost kind = KindView::Record(view);
    let ghost entries = body_entries(iface@, name@, kind);
    let ghost members = member_entries(name@, member_names(kind));
    let flag_like = has_flag_shape(fields);
    assert(kind->Record_0 == view);
    assert(out@ =~= old(out)@ + concat(entries.take(0)));
    assert(entries_view(hrefs@) =~= entries_view(old(hrefs)@) + members.take(0));
    let mut i: usize = 0;
    while i < fields.len()
        invariant
            i <= fields.len(),
            view == fields@.map_values(|f: Field| f@),
            kind == KindView::Record(view),
            entries == body_entries(iface@, name@, kind),
            members == member_entries(name@, member_names(kind)),
            flag_like == is_flag_like(view),
            kind_ok(iface@, kind, iface@.types.len()),
            out@ == old(out)@ + concat(entries.take(i as int)),
            entries_view(hrefs@) == entries_view(old(hrefs)@) + members.take(i as int),
        decreases fields.len() - i,
    {
        let ghost before = out@;
        assert(view[i as int] == fields[i as int]@);
        assert(kind->Record_0 == view);
        push_member_head(out, hrefs, name, fields[i].name.as_str());
        out.append(": ");
        print_ty(out, iface, &fields[i].ty, false);
        out.append("\n\n");
        push_docs(out, &fields[i].docs);
        if flag_like {
            push_bit_line(out, i);
        }
        out.append("\n");
        proof {
            assert(out@ =~= before + record_entry(iface@, name@, view, i as int));
            lemma_concat_next(entries, i as int);
            assert(out@ =~= old(out)@ + concat(entries.take(i as int + 1)));
            assert(members.take(i as int + 1) =~= members.take(i as int).push(members[i as int]));
            assert(entries_view(hrefs@) =~= entries_view(old(hrefs)@) + members.take(i as int + 1));
        }
        i = i + 1;
    }
    assert(entries.take(fields.len() as int) =~= entries);
    assert(members.take(fields.len() as int) =~= members);
}

/// Appends the entries of the types of a tuple.
pub(crate) fn push_tuple_entries(out: &mut String, iface: &Interface, types: &Vec<Type>)
    requires
        kind_ok(iface@, KindView::Tuple(types@), iface@.types.len()),
    ensures
        final(out)@ == old(out)@ + concat(
            body_entries(iface@, Seq::empty(), KindView::Tuple(types@)),
        ),
{
    let ghost kind = KindView::Tuple(types@);
    let ghost entries = body_entries(iface@, Seq::empty(), kind);
    assert(kind->Tuple_0 == types@);
    assert(out@ =~= old(out)@ + concat(entries.take(0)));
    let mut i: usize = 0;
    while i < types.len()
        invariant
            i <= types.len(),
            kind == KindView::Tuple(types@),
            entries == body_entries(iface@, Seq::empty(), kind),
            kind_ok(iface@, kind, iface@.types.len()),
            out@ == old(out)@ + concat(entries.take(i as int)),
        decreases types.len() - i,
    {
        let ghost before = out@;
        assert(kind->Tuple_0 == types@);
        out.append("- ");
        print_ty(out, iface, &types[i], false);
        out.append("\n");
        proof {
            assert(out@ =~= before + tuple_entry(iface@, types@[i as int]));
            lemma_concat_next(entries, i as int);
            assert(out@ =~= old(out)@ + concat(entries.take(i as int + 1)));
        }
        i = i + 1;
    }
    assert(entries.take(types.len() as int) =~= entries);
}

/// Appends the entries of the flags of a flag set and records the flags.
pub(crate) fn push_flag_entries(
    out: &mut String,
    hrefs: &mut Vec<Anchor>,
    iface: &Interface,
    name: &str,
    flags: &Vec<Flag>,
)
    ensures
        final(out)@ == old(out)@ + concat(
            body_entries(iface@, name@, KindView::Flags(flags@.map_values(|f: Flag| f@))),
        ),
        entries_view(final(hrefs)@) == entries_view(old(hrefs)@) + member_entries(
            name@,
            member_names(KindView::Flags(flags@.map_values(|f: Flag| f@))),
        ),
{
    let ghost view = flags@.map_values(|f: Flag| f@);
    let ghost kind = KindView::Flags(view);
    let ghost entries = body_entries(iface@, name@, kind);
    let ghost members = member_entries(name@, member_names(kind));
    assert(kind->Flags_0 == view);
    assert(out@ =~= old(out)@ + concat(entries.take(0)));
    assert(entries_view(hrefs@) =~= entries_view(old(hrefs)@) + members.take(0));
    let mut i: usize = 0;
    while i < flags.len()
        invariant
            i <= flags.len(),
            view == flags@.map_values(|f: Flag| f@),
            kind == KindView::Flags(view),
            entries == body_entries(iface@, name@, kind),
            members == member_entries(name@, member_names(kind)),
            out@ == old(out)@ + concat(entries.take(i as int)),
            entries_view(hrefs@) == entries_view(old(hrefs)@) + members.take(i as int),
        decreases flags.len() - i,
    {
        let ghost before = out@;
        assert(view[i as int] == flags[i as int]@);
        assert(kind->Flags_0 == view);
        push_member_head(out, hrefs, name, flags[i].name.as_str());
        out.append("\n\n");
        push_docs(out, &flags[i].docs);
        push_bit_line(out, i);
        out.append("\n");
        proof {
            assert(out@ =~= before + flag_entry(name@, view[i as int], i as nat));
            lemma_concat_next(entries, i as int);
            assert(out@ =~= old(out)@ + concat(entries.take(i as int + 1)));
            assert(members.take(i as int + 1) =~= members.take(i as int).push(members[i as int]));
            assert(entries_view(hrefs@) =~= entries_view(old(hrefs)@) + members.take(i as int + 1));
        }
        i = i + 1;
    }
    assert(entries.take(flags.len() as int) =~= entries);
    assert(members.take(flags.len() as int) =~= members);
}

/// Appends the entries of the cases of a variant and records the cases.
pub(crate) fn push_case_entries(
    out: &mut String,
    hrefs: &mut Vec<Anchor>,
    iface: &Interface,
    name: &str,
    cases: &Vec<Case>,
)
    requires
        cases_ok(iface@, cases@.map_values(|c: Case| c@)),
    ensures
        final(out)@ == old(out)@ + concat(
            body_entries(iface@, name@, KindView::Variant(cases@.map_values(|c: Case| c@))),
        ),
        entries_view(final(hrefs)@) == entries_view(old(hrefs)@) + member_entries(
            name@,
            member_names(KindView::Variant(cases@.map_values(|c: Case| c@))),
        ),
{
    let ghost view = cases@.map_values(|c: Case| c@);
    let ghost kind = KindView::Variant(view);
    let ghost entries = body_entries(iface@, name@, kind);
    let ghost members = member_entries(name@, member_names(kind));
    assert(kind->Variant_0 == view);
    assert(out@ =~= old(out)@ + concat(entries.take(0)));
    assert(entries_view(hrefs@) =~= entries_view(old(hrefs)@) + members.take(0));
    let mut i: usize = 0;
    while i < cases.len()
        invariant
            i <= cases.len(),
            view == cases@.map_values(|c: Case| c@),
            kind == KindView::Variant(view),
            entries == body_entries(iface@, name@, kind),
            members == member_entries(name@, member_names(kind)),
            cases_ok(iface@, view),
            out@ == old(out)@ + concat(entries.take(i as int)),
            entries_view(hrefs@) == entries_view(old(hrefs)@) + members.take(i as int),
        decreases cases.len() - i,
    {
        let ghost before = out@;
        assert(view[i as int] == cases[i as int]@);
        assert(kind->Variant_0 == view);
        push_member_head(out, hrefs, name, cases[i].name.as_str());
        match &cases[i].ty {
            Some(ty) => {
                out.append(": ");
                print_ty(out, iface, ty, false);
            },
            None => {},
        }
        out.append("\n\n");
        push_docs(out, &cases[i].docs);
        out.append("\n");
        proof {
            assert(out@ =~= before + case_entry(iface@, name@, view[i as int]));
            lemma_concat_next(entries, i as int);
            assert(out@ =~= old(out)@ + concat(entries.take(i as int + 1)));
            assert(members.take(i as int + 1) =~= members.take(i as int).push(members[i as int]));
            assert(entries_view(hrefs@) =~= entries_view(old(hrefs)@) + members.take(i as int + 1));
        }
        i = i + 1;
    }
    assert(entries.take(cases.len() as int) =~= entries);
    assert(members.take(cases.len() as int) =~= members);
}

/// Appends the entries of the cases of an enumeration and records the cases.
pub(crate) fn push_enum_entries(
    out: &mut String,
    hrefs: &mut Vec<Anchor>,
    iface: &Interface,
    name: &str,
    cases: &Vec<EnumCase>,
)
    ensures
        final(out)@ == old(out)@ + concat(
            body_entries(iface@, name@, KindView::Enum(cases@.map_values(|c: EnumCase| c@))),
        ),
        entries_view(final(hrefs)@) == entries_view(old(hrefs)@) + member_entries(
            name@,
            member_names(KindView::Enum(cases@.map_values(|c: EnumCase| c@))),
        ),
{
    let ghost view = cases@.map_values(|c: EnumCase| c@);
    let ghost kind = KindView::Enum(view);
    let ghost entries = body_entries(iface@, name@, kind);
    let ghost members = member_entries(name@, member_names(kind));
    assert(kind->Enum_0 == view);
    assert(out@ =~= old(out)@ + concat(entries.take(0)));
    assert(entries_view(hrefs@) =~= entries_view(old(hrefs)@) + members.take(0));
    let mut i: usize = 0;
    while i < cases.len()
        invariant
            i <= cases.len(),
            view == cases@.map_values(|c: EnumCase| c@),
            kind == KindView::Enum(view),
            entries == body_entries(iface@, name@, kind),
            members == member_entries(name@, member_names(kind)),
            out@ == old(out)@ + concat(entries.take(i as int)),
            entries_view(hrefs@) == entries_view(old(hrefs)@) + members.take(i as int),
        decreases cases.len() - i,
    {
        let ghost before = out@;
        assert(view[i as int] == cases[i as int]@);
        assert(kind->Enum_0 == view);
        push_member_head(out, hrefs, name, cases[i].name.as_str());
        out.append("\n\n");
        push_docs(out, &cases[i].docs);
        out.append("\n");
        proof {
            assert(out@ =~= before + enum_entry(name@, view[i as int]));
            lemma_concat_next(entries, i as int);
            assert(out@ =~= old(out)@ + concat(entries.take(i as int + 1)));
            assert(members.take(i as int + 1) =~= members.take(i as int).push(members[i as int]));
            assert(entries_view(hrefs@) =~= entries_view(old(hrefs)@) + members.take(i as int + 1));
        }
        i = i + 1;
    }
    assert(entries.take(cases.len() as int) =~= entries);
    assert(members.take(cases.len() as int) =~= members);
}

/// Appends the entries of the cases of a union.
pub(crate) fn push_union_entries(out: &mut String, iface: &Interface, cases: &Vec<UnionCase>)
    requires
        kind_ok(
            iface@,
            KindView::Union(cases@.map_values(|c: UnionCase| c@)),
            iface@.types.len(),
        ),
    ensures
        final(out)@ == old(out)@ + concat(
            body_entries(
                iface@,
                Seq::empty(),
                KindView::Union(cases@.map_values(|c: UnionCase| c@)),
            ),
        ),
{
    let ghost view = cases@.map_values(|c: UnionCase| c@);
    let ghost kind = KindView::Union(view);
    let ghost entries = body_entries(iface@, Seq::empty(), kind);
    assert(kind->Union_0 == view);
    assert(out@ =~= old(out)@ + concat(entries.take(0)));
    let mut i: usize = 0;
    while i < cases.len()
        invariant
            i <= cases.len(),
            view == cases@.map_values(|c: UnionCase| c@),
            kind == KindView::Union(view),
            entries == body_entries(iface@, Seq::empty(), kind),
            kind_ok(iface@, kind, iface@.types.len()),
            out@ == old(out)@ + concat(entries.take(i as int)),
        decreases cases.len() - i,
    {
        let ghost before = out@;
        assert(view[i as int] == cases[i as int]@);
        assert(kind->Union_0 == view);
        out.append("- ");
        print_ty(out, iface, &cases[i].ty, false);
        out.append("\n\n");
        push_docs(out, &cases[i].docs);
        out.append("\n");
        proof {
            assert(out@ =~= before + union_entry(iface@, view[i as int]));
            lemma_concat_next(entries, i as int);
            assert(out@ =~= old(out)@ + concat(entries.take(i as int + 1)));
        }
        i = i + 1;
    }
    assert(entries.take(cases.len() as int) =~= entries);
}

/// Appends the entries of the parameters or of the named results of the
/// function `owner`.
pub(crate) fn push_param_entries(
    out: &mut String,
    iface: &Interface,
    owner: &str,
    params: &Vec<Param>,
)
    requires
        params_ok(iface@, params@.map_values(|p: Param| p@)),
    ensures
        final(out)@ == old(out)@ + concat(
            param_entries(iface@, owner@, params@.map_values(|p: Param| p@)),
        ),
{
    let ghost view = params@.map_values(|p: Param| p@);
    let ghost entries = param_entries(iface@, owner@, view);
    assert(out@ =~= old(out)@ + concat(entries.take(0)));
    let mut i: usize = 0;
    while i < params.len()
        invariant
            i <= params.len(),
            view == params@.map_values(|p: Param| p@),
            entries == param_entries(iface@, owner@, view),
            params_ok(iface@, view),
            out@ == old(out)@ + concat(entries.take(i as int)),
        decreases params.len() - i,
    {
        let ghost before = out@;
        assert(view[i as int] == params[i as int]@);
        let anchor = make_member_anchor(owner, params[i].name.as_str());
        out.append("- ");
        push_anchor_tag(out, anchor.as_str());
        out.append(" `");
        out.append(params[i].name.as_str());
        out.append("`: ");
        print_ty(out, iface, &params[i].ty, false);
        out.append("\n");
        proof {
            assert(out@ =~= before + param_entry(iface@, owner@, view[i as int]));
            lemma_concat_next(entries, i as int);
            assert(out@ =~= old(out)@ + concat(entries.take(i as int + 1)));
        }
        i = i + 1;
    }
    assert(entries.take(params.len() as int) =~= entries);
}

/// Appends the one entry of an optional or an asynchronous value.
pub(crate) fn push_single_entry(out: &mut String, iface: &Interface, ty: &Type)
    requires
        type_ok(iface@, *ty, false, iface@.types.len()),
    ensures
        final(out)@ == old(out)@ + single_entry(iface@, *ty),
        single_entry(iface@, *ty) == concat(seq![single_entry(iface@, *ty)]),
{
    out.append("- ");
    print_ty(out, iface, ty, false);
    out.append("\n\n");
    proof {
        lemma_concat_one(single_entry(iface@, *ty));
        assert(out@ =~= old(out)@ + single_entry(iface@, *ty));
    }
}

/// Appends a payload, `_` where there is none.
fn push_payload(out: &mut String, iface: &Interface, ty: &Option<Type>)
    requires
        payload_ok(iface@, *ty, iface@.types.len()),
    ensures
        final(out)@ == old(out)@ + payload_text(iface@, *ty, iface@.types.len()),
{
    match ty {
        Some(ty) => print_ty(out, iface, ty, false),
        None => out.append("_"),
    }
}

/// Appends the two labelled entries of a value or an error, or of an
/// asynchronous sequence.
pub(crate) fn push_pair_entries(
    out: &mut String,
    iface: &Interface,
    ok: &Option<Type>,
    err: &Option<Type>,
)
    requires
        payload_ok(iface@, *ok, iface@.types.len()),
        payload_ok(iface@, *err, iface@.types.len()),
    ensures
        final(out)@ == old(out)@ + concat(
            seq![
                ok_entry(payload_text(iface@, *ok, iface@.types.len())),
                err_entry(payload_text(iface@, *err, iface@.types.len())),
            ],
        ),
{
    out.append("- ok: ");
    push_payload(out, iface, ok);
    out.append("\n");
    let ghost middle = out@;
    assert(middle =~= old(out)@ + ok_entry(payload_text(iface@, *ok, iface@.types.len())));
    out.append("- err: ");
    push_payload(out, iface, err);
    out.append("\n\n");
    proof {
        assert(out@ =~= middle + err_entry(payload_text(iface@, *err, iface@.types.len())));
        lemma_concat_two(
            ok_entry(payload_text(iface@, *ok, iface@.types.len())),
            err_entry(payload_text(iface@, *err, iface@.types.len())),
        );
        assert(out@ =~= old(out)@ + (ok_entry(payload_text(iface@, *ok, iface@.types.len()))
            + err_entry(payload_text(iface@, *err, iface@.types.len()))));
    }
}

/// Appends the heading of the block of a function.
pub(crate) fn push_function_header(out: &mut String, name: &str)
    ensures
        final(out)@ == old(out)@ + function_header(name@),
{
    out.append("----\n\n");
    out.append("#### ");
    let anchor = kebab_case(name);
    push_anchor_tag(out, anchor.as_str());
    out.append(" `");
    out.append(name);
    out.append("` ");
    out.append("\n\n");
    assert(out@ =~= old(out)@ + function_header(name@));
}

/// Appends the parameters of the function `owner`, if it has any.
pub(crate) fn push_params(out: &mut String, iface: &Interface, owner: &str, params: &Vec<Param>)
    requires
        params_ok(iface@, params@.map_values(|p: Param| p@)),
    ensures
        final(out)@ == old(out)@ + params_text(
            iface@,
            owner@,
            params@.map_values(|p: Param| p@),
        ),
{
    if params.len() > 0 {
        out.append("##### Params\n\n");
        push_param_entries(out, iface, owner, params);
    }
    assert(out@ =~= old(out)@ + params_text(iface@, owner@, params@.map_values(|p: Param| p@)));
}

/// Appends what the function `owner` returns.
pub(crate) fn push_results(out: &mut String, iface: &Interface, owner: &str, results: &Results)
    requires
        match results@ {
            crate::model::ResultsView::Named(results) => params_ok(iface@, results),
            crate::model::ResultsView::Anon(ty) => type_ok(iface@, ty, false, iface@.types.len()),
        },
    ensures
        final(out)@ == old(out)@ + results_text(iface@, owner@, results@),
{
    match results {
        Results::Anon(ty) => {
            out.append("##### Result\n\n");
            out.append("- ");
            print_ty(out, iface, ty, false);
            out.append("\n");
        },
        Results::Named(results) => {
            out.append("##### Results\n\n");
            push_param_entries(out, iface, owner, results);
        },
    }
    assert(out@ =~= old(out)@ + results_text(iface@, owner@, results@));
}

} // verus!
