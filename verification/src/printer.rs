//! The type printer: the inline text of a reference to a type. A named type
//! is written as a link to its section; a type without a name is written out
//! in full, and so are the types without a name inside it.

use vstd::prelude::*;
use vstd::string::*;
use crate::anchor::{link_text, push_link};
use crate::model::{
    Case, CaseView, EnumCase, EnumCaseView, Field, FieldView, Flag, FlagView, Interface,
    InterfaceView, KindView, Type, TypeDefKind, UnionCase, UnionCaseView,
};
use crate::text::{join, lemma_join_next};

verus! {

/// The fixed token of a primitive type. Handles and references to the type
/// table are no primitives and have none.
pub open spec fn primitive_text(ty: Type) -> Seq<char> {
    match ty {
        Type::Unit => "`unit`"@,
        Type::Bool => "`bool`"@,
        Type::U8 => "`u8`"@,
        Type::U16 => "`u16`"@,
        Type::U32 => "`u32`"@,
        Type::U64 => "`u64`"@,
        Type::S8 => "`s8`"@,
        Type::S16 => "`s16`"@,
        Type::S32 => "`s32`"@,
        Type::S64 => "`s64`"@,
        Type::Float32 => "`float32`"@,
        Type::Float64 => "`float64`"@,
        Type::Char => "`char`"@,
        Type::CChar => "`c_char`"@,
        Type::Usize => "`usize`"@,
        Type::String => "`string`"@,
        Type::Handle(_) => Seq::empty(),
        Type::Id(_) => Seq::empty(),
    }
}

/// A variant that stands for a value or an error: two cases, named `ok` and
/// `err` in this order.
pub open spec fn is_expected_shape(cases: Seq<CaseView>) -> bool {
    cases.len() == 2 && cases[0].name == "ok"@ && cases[1].name == "err"@
}

/// A variant that stands for a boolean: two cases without a payload, and it
/// does not stand for a value or an error.
pub open spec fn is_bool_shape(cases: Seq<CaseView>) -> bool {
    cases.len() == 2 && cases[0].ty is None && cases[1].ty is None && !is_expected_shape(cases)
}

/// A variant that stands for an optional value: two cases of which exactly
/// one has a payload, and it does not stand for a value or an error.
pub open spec fn is_option_shape(cases: Seq<CaseView>) -> bool {
    cases.len() == 2 && (cases[0].ty is Some) != (cases[1].ty is Some) && !is_expected_shape(cases)
}

/// The payload of the one case that has one.
pub open spec fn option_payload(cases: Seq<CaseView>) -> Type
    recommends
        is_option_shape(cases),
{
    if cases[0].ty is Some {
        cases[0].ty->0
    } else {
        cases[1].ty->0
    }
}

/// Whether the text of `ty` is defined when at most `depth` definitions are
/// written out inside one another: every index on the way is in range, and
/// every variant that is written out stands for a boolean, an optional value
/// or a value or an error. With `skip_name` the definition that `ty` refers to
/// is written out even if it has a name.
pub open spec fn type_ok(g: InterfaceView, ty: Type, skip_name: bool, depth: nat) -> bool
    decreases depth, 0nat,
{
    match ty {
        Type::Handle(r) => r < g.resources.len(),
        Type::Id(i) => i < g.types.len() && (if !skip_name && g.types[i as int].name is Some {
            true
        } else {
            depth > 0 && kind_ok(g, g.types[i as int].kind, (depth - 1) as nat)
        }),
        _ => true,
    }
}

/// `type_ok` of a payload that may be absent.
pub open spec fn payload_ok(g: InterfaceView, ty: Option<Type>, depth: nat) -> bool
    decreases depth, 1nat,
{
    match ty {
        Some(ty) => type_ok(g, ty, false, depth),
        None => true,
    }
}

/// Whether the text of a definition of this shape is defined, each type
/// inside it within `depth` levels.
pub open spec fn kind_ok(g: InterfaceView, kind: KindView, depth: nat) -> bool
    decreases depth, 2nat,
{
    match kind {
        KindView::Record(fields) => forall|k: int|
            0 <= k < fields.len() ==> type_ok(g, (#[trigger] fields[k]).ty, false, depth),
        KindView::Tuple(types) => forall|k: int|
            0 <= k < types.len() ==> type_ok(g, #[trigger] types[k], false, depth),
        KindView::Flags(_) => true,
        KindView::Variant(cases) => if is_expected_shape(cases) {
            payload_ok(g, cases[0].ty, depth) && payload_ok(g, cases[1].ty, depth)
        } else if is_bool_shape(cases) {
            true
        } else {
            is_option_shape(cases) && type_ok(g, option_payload(cases), false, depth)
        },
        KindView::Enum(_) => true,
        KindView::Union(cases) => forall|k: int|
            0 <= k < cases.len() ==> type_ok(g, (#[trigger] cases[k]).ty, false, depth),
        KindView::Optional(ty) => type_ok(g, ty, false, depth),
        KindView::Expected(e) => payload_ok(g, e.ok, depth) && payload_ok(g, e.err, depth),
        KindView::List(ty) => type_ok(g, ty, false, depth),
        KindView::Future(ty) => type_ok(g, ty, false, depth),
        KindView::Stream(s) => type_ok(g, s.element, false, depth) && type_ok(
            g,
            s.end,
            false,
            depth,
        ),
        KindView::Alias(ty) => type_ok(g, ty, false, depth),
        KindView::Pointer(ty) => type_ok(g, ty, false, depth),
        KindView::ConstPointer(ty) => type_ok(g, ty, false, depth),
        KindView::PushBuffer(ty) => type_ok(g, ty, false, depth),
        KindView::PullBuffer(ty) => type_ok(g, ty, false, depth),
    }
}

/// The inline text of a reference to a type. A primitive is its token; a
/// handle names its resource; a reference to a definition with a name is a
/// link to it, unless `skip_name` asks for the definition itself; any other
/// reference is the definition written out, with `depth` bounding how many
/// definitions are written out inside one another.
pub open spec fn type_text(g: InterfaceView, ty: Type, skip_name: bool, depth: nat) -> Seq<char>
    decreases depth, 0nat,
{
    match ty {
        Type::Handle(r) => "handle<"@ + g.resources[r as int] + ">"@,
        Type::Id(i) => {
            let def = g.types[i as int];
            if !skip_name && def.name is Some {
                link_text(def.name->0)
            } else if depth == 0 {
                Seq::empty()
            } else {
                kind_text(g, def.kind, (depth - 1) as nat)
            }
        },
        _ => primitive_text(ty),
    }
}

/// The text of a payload: `_` where there is none.
pub open spec fn payload_text(g: InterfaceView, ty: Option<Type>, depth: nat) -> Seq<char>
    decreases depth, 1nat,
{
    match ty {
        Some(ty) => type_text(g, ty, false, depth),
        None => "_"@,
    }
}

/// The texts of the types of a tuple.
pub open spec fn tuple_parts(g: InterfaceView, types: Seq<Type>, depth: nat) -> Seq<Seq<char>>
    decreases depth, 1nat,
{
    Seq::new(types.len(), |k: int| type_text(g, types[k], false, depth))
}

/// The fields of a record, each as its name and the text of its type.
pub open spec fn record_parts(g: InterfaceView, fields: Seq<FieldView>, depth: nat) -> Seq<
    Seq<char>,
>
    decreases depth, 1nat,
{
    Seq::new(fields.len(), |k: int| fields[k].name + ": "@ + type_text(g, fields[k].ty, false, depth))
}

/// The texts of the types of the cases of a union.
pub open spec fn union_parts(g: InterfaceView, cases: Seq<UnionCaseView>, depth: nat) -> Seq<
    Seq<char>,
>
    decreases depth, 1nat,
{
    Seq::new(cases.len(), |k: int| type_text(g, cases[k].ty, false, depth))
}

/// The names of the flags of a flag set.
pub open spec fn flag_names(flags: Seq<FlagView>) -> Seq<Seq<char>> {
    Seq::new(flags.len(), |k: int| flags[k].name)
}

/// The names of the cases of an enumeration.
pub open spec fn enum_names(cases: Seq<EnumCaseView>) -> Seq<Seq<char>> {
    Seq::new(cases.len(), |k: int| cases[k].name)
}

/// A definition written out in full. A list of characters is a string. A
/// variant is written as what it stands for: a value or an error, a boolean,
/// or an optional value.
pub open spec fn kind_text(g: InterfaceView, kind: KindView, depth: nat) -> Seq<char>
    decreases depth, 2nat,
{
    match kind {
        KindView::Record(fields) => "record<"@ + join(record_parts(g, fields, depth), ", "@) + ">"@,
        KindView::Tuple(types) => "("@ + join(tuple_parts(g, types, depth), ", "@) + ")"@,
        KindView::Flags(flags) => "flags<"@ + join(flag_names(flags), ", "@) + ">"@,
        KindView::Variant(cases) => if is_expected_shape(cases) {
            "expected<"@ + payload_text(g, cases[0].ty, depth) + ", "@ + payload_text(
                g,
                cases[1].ty,
                depth,
            ) + ">"@
        } else if is_bool_shape(cases) {
            "`bool`"@
        } else if is_option_shape(cases) {
            "option<"@ + type_text(g, option_payload(cases), false, depth) + ">"@
        } else {
            Seq::empty()
        },
        KindView::Enum(cases) => "enum<"@ + join(enum_names(cases), ", "@) + ">"@,
        KindView::Union(cases) => "union<"@ + join(union_parts(g, cases, depth), ", "@) + ">"@,
        KindView::Optional(ty) => "option<"@ + type_text(g, ty, false, depth) + ">"@,
        KindView::Expected(e) => "expected<"@ + payload_text(g, e.ok, depth) + ", "@
            + payload_text(g, e.err, depth) + ">"@,
        KindView::List(ty) => if ty == Type::Char {
            "`string`"@
        } else {
            "list<"@ + type_text(g, ty, false, depth) + ">"@
        },
        KindView::Future(ty) => "future<"@ + type_text(g, ty, false, depth) + ">"@,
        KindView::Stream(s) => "stream<"@ + type_text(g, s.element, false, depth) + ", "@
            + type_text(g, s.end, false, depth) + ">"@,
        KindView::Alias(ty) => type_text(g, ty, false, depth),
        KindView::Pointer(ty) => "pointer<"@ + type_text(g, ty, false, depth) + ">"@,
        KindView::ConstPointer(ty) => "const-pointer<"@ + type_text(g, ty, false, depth) + ">"@,
        KindView::PushBuffer(ty) => "push-buffer<"@ + type_text(g, ty, false, depth) + ">"@,
        KindView::PullBuffer(ty) => "pull-buffer<"@ + type_text(g, ty, false, depth) + ">"@,
    }
}

/// Appends the token of a primitive type.
fn print_primitive(out: &mut String, ty: Type)
    requires
        !(ty is Handle),
        !(ty is Id),
    ensures
        final(out)@ == old(out)@ + primitive_text(ty),
{
    match ty {
        Type::Unit => out.append("`unit`"),
        Type::Bool => out.append("`bool`"),
        Type::U8 => out.append("`u8`"),
        Type::U16 => out.append("`u16`"),
        Type::U32 => out.append("`u32`"),
        Type::U64 => out.append("`u64`"),
        Type::S8 => out.append("`s8`"),
        Type::S16 => out.append("`s16`"),
        Type::S32 => out.append("`s32`"),
        Type::S64 => out.append("`s64`"),
        Type::Float32 => out.append("`float32`"),
        Type::Float64 => out.append("`float64`"),
        Type::Char => out.append("`char`"),
        Type::CChar => out.append("`c_char`"),
        Type::Usize => out.append("`usize`"),
        Type::String => out.append("`string`"),
        Type::Handle(_) => {},
        Type::Id(_) => {},
    }
}

/// Appends the inline text of a reference to a type, with definitions
/// written out inside one another `depth` levels deep at most.
fn print_within(out: &mut String, iface: &Interface, ty: &Type, skip_name: bool, depth: usize)
    requires
        type_ok(iface@, *ty, skip_name, depth as nat),
    ensures
        final(out)@ == old(out)@ + type_text(iface@, *ty, skip_name, depth as nat),
    decreases depth, 0nat,
{
    match *ty {
        Type::Handle(r) => {
            out.append("handle<");
            out.append(iface.resources[r].name.as_str());
            out.append(">");
            assert(out@ =~= old(out)@ + type_text(iface@, *ty, skip_name, depth as nat));
        },
        Type::Id(i) => {
            let def = &iface.types[i];
            assert(def@ == iface@.types[i as int]);
            if !skip_name {
                if let Some(name) = &def.name {
                    push_link(out, name.as_str());
                    return ;
                }
            }
            print_kind(out, iface, &def.kind, depth - 1);
        },
        _ => print_primitive(out, *ty),
    }
}

/// Appends the text of a payload, `_` where there is none.
fn print_payload(out: &mut String, iface: &Interface, ty: &Option<Type>, depth: usize)
    requires
        payload_ok(iface@, *ty, depth as nat),
    ensures
        final(out)@ == old(out)@ + payload_text(iface@, *ty, depth as nat),
    decreases depth, 1nat,
{
    match ty {
        Some(ty) => print_within(out, iface, ty, false, depth),
        None => out.append("_"),
    }
}

/// Whether the cases are two, named `ok` and `err`.
pub(crate) fn has_expected_shape(cases: &Vec<Case>) -> (b: bool)
    ensures
        b == is_expected_shape(cases@.map_values(|c: Case| c@)),
{
    let ok = String::from_str("ok");
    let err = String::from_str("err");
    cases.len() == 2 && cases[0].name == ok && cases[1].name == err
}

/// Appends a variant as what it stands for.
fn print_variant(out: &mut String, iface: &Interface, cases: &Vec<Case>, depth: usize)
    requires
        kind_ok(iface@, KindView::Variant(cases@.map_values(|c: Case| c@)), depth as nat),
    ensures
        final(out)@ == old(out)@ + kind_text(
            iface@,
            KindView::Variant(cases@.map_values(|c: Case| c@)),
            depth as nat,
        ),
    decreases depth, 2nat,
{
    let ghost view = cases@.map_values(|c: Case| c@);
    if has_expected_shape(cases) {
        assert(view[0].ty == cases[0].ty && view[1].ty == cases[1].ty);
        out.append("expected<");
        print_payload(out, iface, &cases[0].ty, depth);
        out.append(", ");
        print_payload(out, iface, &cases[1].ty, depth);
        out.append(">");
        assert(out@ =~= old(out)@ + kind_text(iface@, KindView::Variant(view), depth as nat));
    } else {
        assert(view.len() == 2);
        assert(view[0].ty == cases[0].ty && view[1].ty == cases[1].ty);
        match (&cases[0].ty, &cases[1].ty) {
            (None, None) => {
                out.append("`bool`");
            },
            (Some(ty), None) => {
                out.append("option<");
                print_within(out, iface, ty, false, depth);
                out.append(">");
                assert(out@ =~= old(out)@ + kind_text(
                    iface@,
                    KindView::Variant(view),
                    depth as nat,
                ));
            },
            (None, Some(ty)) => {
                out.append("option<");
                print_within(out, iface, ty, false, depth);
                out.append(">");
                assert(out@ =~= old(out)@ + kind_text(
                    iface@,
                    KindView::Variant(view),
                    depth as nat,
                ));
            },
            (Some(_), Some(_)) => {},
        }
    }
}

/// Appends the types of a tuple, separated by commas.
fn print_tuple_parts(out: &mut String, iface: &Interface, types: &Vec<Type>, depth: usize)
    requires
        kind_ok(iface@, KindView::Tuple(types@), depth as nat),
    ensures
        final(out)@ == old(out)@ + join(tuple_parts(iface@, types@, depth as nat), ", "@),
    decreases depth, 2nat,
{
    let ghost parts = tuple_parts(iface@, types@, depth as nat);
    let mut i: usize = 0;
    assert(out@ =~= old(out)@ + join(parts.take(0), ", "@));
    assert(KindView::Tuple(types@)->Tuple_0 == types@);
    while i < types.len()
        invariant
            i <= types.len(),
            parts == tuple_parts(iface@, types@, depth as nat),
            forall|k: int|
                0 <= k < types@.len() ==> type_ok(iface@, #[trigger] types@[k], false, depth as nat),
            out@ == old(out)@ + join(parts.take(i as int), ", "@),
        decreases types.len() - i,
    {
        if i > 0 {
            out.append(", ");
        }
        print_within(out, iface, &types[i], false, depth);
        proof {
            lemma_join_next(parts, ", "@, i as int);
            assert(out@ =~= old(out)@ + join(parts.take(i as int + 1), ", "@));
        }
        i = i + 1;
    }
    assert(parts.take(types.len() as int) =~= parts);
}

/// Appends the fields of a record, separated by commas.
fn print_record_parts(out: &mut String, iface: &Interface, fields: &Vec<Field>, depth: usize)
    requires
        kind_ok(iface@, KindView::Record(fields@.map_values(|f: Field| f@)), depth as nat),
    ensures
        final(out)@ == old(out)@ + join(
            record_parts(iface@, fields@.map_values(|f: Field| f@), depth as nat),
            ", "@,
        ),
    decreases depth, 2nat,
{
    let ghost view = fields@.map_values(|f: Field| f@);
    let ghost parts = record_parts(iface@, view, depth as nat);
    let mut i: usize = 0;
    assert(out@ =~= old(out)@ + join(parts.take(0), ", "@));
    while i < fields.len()
        invariant
            i <= fields.len(),
            view == fields@.map_values(|f: Field| f@),
            parts == record_parts(iface@, view, depth as nat),
            kind_ok(iface@, KindView::Record(view), depth as nat),
            out@ == old(out)@ + join(parts.take(i as int), ", "@),
        decreases fields.len() - i,
    {
        if i > 0 {
            out.append(", ");
        }
        assert(view[i as int] == fields[i as int]@);
        out.append(fields[i].name.as_str());
        out.append(": ");
        print_within(out, iface, &fields[i].ty, false, depth);
        proof {
            lemma_join_next(parts, ", "@, i as int);
            assert(out@ =~= old(out)@ + join(parts.take(i as int + 1), ", "@));
        }
        i = i + 1;
    }
    assert(parts.take(fields.len() as int) =~= parts);
}

/// Appends the types of the cases of a union, separated by commas.
fn print_union_parts(out: &mut String, iface: &Interface, cases: &Vec<UnionCase>, depth: usize)
    requires
        kind_ok(iface@, KindView::Union(cases@.map_values(|c: UnionCase| c@)), depth as nat),
    ensures
        final(out)@ == old(out)@ + join(
            union_parts(iface@, cases@.map_values(|c: UnionCase| c@), depth as nat),
            ", "@,
        ),
    decreases depth, 2nat,
{
    let ghost view = cases@.map_values(|c: UnionCase| c@);
    let ghost parts = union_parts(iface@, view, depth as nat);
    let mut i: usize = 0;
    assert(out@ =~= old(out)@ + join(parts.take(0), ", "@));
    while i < cases.len()
        invariant
            i <= cases.len(),
            view == cases@.map_values(|c: UnionCase| c@),
            parts == union_parts(iface@, view, depth as nat),
            kind_ok(iface@, KindView::Union(view), depth as nat),
            out@ == old(out)@ + join(parts.take(i as int), ", "@),
        decreases cases.len() - i,
    {
        if i > 0 {
            out.append(", ");
        }
        assert(view[i as int] == cases[i as int]@);
        print_within(out, iface, &cases[i].ty, false, depth);
        proof {
            lemma_join_next(parts, ", "@, i as int);
            assert(out@ =~= old(out)@ + join(parts.take(i as int + 1), ", "@));
        }
        i = i + 1;
    }
    assert(parts.take(cases.len() as int) =~= parts);
}

/// Appends the names of the flags, separated by commas.
fn print_flag_names(out: &mut String, flags: &Vec<Flag>)
    ensures
        final(out)@ == old(out)@ + join(flag_names(flags@.map_values(|f: Flag| f@)), ", "@),
{
    let ghost parts = flag_names(flags@.map_values(|f: Flag| f@));
    let mut i: usize = 0;
    assert(out@ =~= old(out)@ + join(parts.take(0), ", "@));
    while i < flags.len()
        invariant
            i <= flags.len(),
            parts == flag_names(flags@.map_values(|f: Flag| f@)),
            out@ == old(out)@ + join(parts.take(i as int), ", "@),
        decreases flags.len() - i,
    {
        if i > 0 {
            out.append(", ");
        }
        out.append(flags[i].name.as_str());
        proof {
            lemma_join_next(parts, ", "@, i as int);
            assert(out@ =~= old(out)@ + join(parts.take(i as int + 1), ", "@));
        }
        i = i + 1;
    }
    assert(parts.take(flags.len() as int) =~= parts);
}

/// Appends the names of the cases, separated by commas.
fn print_enum_names(out: &mut String, cases: &Vec<EnumCase>)
    ensures
        final(out)@ == old(out)@ + join(enum_names(cases@.map_values(|c: EnumCase| c@)), ", "@),
{
    let ghost parts = enum_names(cases@.map_values(|c: EnumCase| c@));
    let mut i: usize = 0;
    assert(out@ =~= old(out)@ + join(parts.take(0), ", "@));
    while i < cases.len()
        invariant
            i <= cases.len(),
            parts == enum_names(cases@.map_values(|c: EnumCase| c@)),
            out@ == old(out)@ + join(parts.take(i as int), ", "@),
        decreases cases.len() - i,
    {
        if i > 0 {
            out.append(", ");
        }
        out.append(cases[i].name.as_str());
        proof {
            lemma_join_next(parts, ", "@, i as int);
            assert(out@ =~= old(out)@ + join(parts.take(i as int + 1), ", "@));
        }
        i = i + 1;
    }
    assert(parts.take(cases.len() as int) =~= parts);
}

/// Appends `open`, the text of `ty` and `>`.
fn print_wrapped(out: &mut String, iface: &Interface, open: &str, ty: &Type, depth: usize)
    requires
        type_ok(iface@, *ty, false, depth as nat),
    ensures
        final(out)@ == old(out)@ + (open@ + type_text(iface@, *ty, false, depth as nat) + ">"@),
    decreases depth, 1nat,
{
    out.append(open);
    print_within(out, iface, ty, false, depth);
    out.append(">");
    assert(out@ =~= old(out)@ + (open@ + type_text(iface@, *ty, false, depth as nat) + ">"@));
}

/// Appends a definition written out in full.
fn print_kind(out: &mut String, iface: &Interface, kind: &TypeDefKind, depth: usize)
    requires
        kind_ok(iface@, kind@, depth as nat),
    ensures
        final(out)@ == old(out)@ + kind_text(iface@, kind@, depth as nat),
    decreases depth, 3nat,
{
    match kind {
        TypeDefKind::Record(fields) => {
            out.append("record<");
            print_record_parts(out, iface, fields, depth);
            out.append(">");
            assert(out@ =~= old(out)@ + kind_text(iface@, kind@, depth as nat));
        },
        TypeDefKind::Tuple(types) => {
            out.append("(");
            print_tuple_parts(out, iface, types, depth);
            out.append(")");
            assert(out@ =~= old(out)@ + kind_text(iface@, kind@, depth as nat));
        },
        TypeDefKind::Flags(flags) => {
            out.append("flags<");
            print_flag_names(out, flags);
            out.append(">");
            assert(out@ =~= old(out)@ + kind_text(iface@, kind@, depth as nat));
        },
        TypeDefKind::Variant(cases) => print_variant(out, iface, cases, depth),
        TypeDefKind::Enum(cases) => {
            out.append("enum<");
            print_enum_names(out, cases);
            out.append(">");
            assert(out@ =~= old(out)@ + kind_text(iface@, kind@, depth as nat));
        },
        TypeDefKind::Union(cases) => {
            out.append("union<");
            print_union_parts(out, iface, cases, depth);
            out.append(">");
            assert(out@ =~= old(out)@ + kind_text(iface@, kind@, depth as nat));
        },
        TypeDefKind::Optional(ty) => print_wrapped(out, iface, "option<", ty, depth),
        TypeDefKind::Expected(e) => {
            out.append("expected<");
            print_payload(out, iface, &e.ok, depth);
            out.append(", ");
            print_payload(out, iface, &e.err, depth);
            out.append(">");
            assert(out@ =~= old(out)@ + kind_text(iface@, kind@, depth as nat));
        },
        TypeDefKind::List(ty) => {
            match ty {
                Type::Char => out.append("`string`"),
                _ => print_wrapped(out, iface, "list<", ty, depth),
            }
        },
        TypeDefKind::Future(ty) => print_wrapped(out, iface, "future<", ty, depth),
        TypeDefKind::Stream(s) => {
            out.append("stream<");
            print_within(out, iface, &s.element, false, depth);
            out.append(", ");
            print_within(out, iface, &s.end, false, depth);
            out.append(">");
            assert(out@ =~= old(out)@ + kind_text(iface@, kind@, depth as nat));
        },
        TypeDefKind::Alias(ty) => print_within(out, iface, ty, false, depth),
        TypeDefKind::Pointer(ty) => print_wrapped(out, iface, "pointer<", ty, depth),
        TypeDefKind::ConstPointer(ty) => print_wrapped(out, iface, "const-pointer<", ty, depth),
        TypeDefKind::PushBuffer(ty) => print_wrapped(out, iface, "push-buffer<", ty, depth),
        TypeDefKind::PullBuffer(ty) => print_wrapped(out, iface, "pull-buffer<", ty, depth),
    }
}

/// Appends the inline text of a reference to a type: the token of a
/// primitive, the resource of a handle, a link to a named type, or a type
/// without a name written out in full. With `skip_name` the definition that
/// `ty` refers to is written out even if it has a name.
pub fn print_ty(out: &mut String, iface: &Interface, ty: &Type, skip_name: bool)
    requires
        type_ok(iface@, *ty, skip_name, iface@.types.len()),
    ensures
        final(out)@ == old(out)@ + type_text(iface@, *ty, skip_name, iface@.types.len()),
{
    print_within(out, iface, ty, skip_name, iface.types.len())
}

} // verus!
