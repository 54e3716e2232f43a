//! Which graphs can be rendered: every reference that the document writes
//! resolves, no type without a name holds itself, and every variant that is
//! written inline stands for a boolean, an optional value or a value or an
//! error. `Interface::is_well_formed` decides it.

use vstd::prelude::*;
use crate::model::{
    Case, Field, Function, FunctionView, Interface, InterfaceView, KindView, Param, ParamView,
    Results, ResultsView, Type, TypeDefKind, UnionCase,
};
use crate::printer::{has_expected_shape, kind_ok, payload_ok, type_ok};

verus! {

/// Whether every type of a list of parameters or results can be written.
pub open spec fn params_ok(g: InterfaceView, params: Seq<ParamView>) -> bool {
    forall|k: int|
        0 <= k < params.len() ==> type_ok(g, (#[trigger] params[k]).ty, false, g.types.len())
}

/// Whether the block of a function can be written.
pub open spec fn function_ok(g: InterfaceView, f: FunctionView) -> bool {
    params_ok(g, f.params) && match f.results {
        ResultsView::Named(results) => params_ok(g, results),
        ResultsView::Anon(ty) => type_ok(g, ty, false, g.types.len()),
    }
}

/// Whether every payload of the cases of a variant can be written.
pub open spec fn cases_ok(g: InterfaceView, cases: Seq<crate::model::CaseView>) -> bool {
    forall|k: int|
        0 <= k < cases.len() ==> payload_ok(g, (#[trigger] cases[k]).ty, g.types.len())
}

/// Whether the section of definition `i` can be written. The section of an
/// alias writes its target out, whatever its name; that of a list, a pointer
/// or a buffer writes the definition itself out; that of a variant lists its
/// cases, whatever it stands for.
pub open spec fn section_ok(g: InterfaceView, i: int) -> bool {
    let depth = g.types.len();
    match g.types[i].kind {
        KindView::Variant(cases) => cases_ok(g, cases),
        KindView::Alias(ty) => type_ok(g, ty, true, depth),
        KindView::List(_) => type_ok(g, Type::Id(i as usize), true, depth),
        KindView::Pointer(_) => type_ok(g, Type::Id(i as usize), true, depth),
        KindView::ConstPointer(_) => type_ok(g, Type::Id(i as usize), true, depth),
        KindView::PushBuffer(_) => type_ok(g, Type::Id(i as usize), true, depth),
        KindView::PullBuffer(_) => type_ok(g, Type::Id(i as usize), true, depth),
        kind => kind_ok(g, kind, depth),
    }
}

impl InterfaceView {
    /// The graph can be rendered: the section of every named type and the
    /// block of every function can be written. A type without a name that
    /// holds itself cannot: writing it out would need more levels than there
    /// are definitions.
    pub open spec fn well_formed(self) -> bool {
        &&& forall|i: int|
            0 <= i < self.types.len() && (#[trigger] self.types[i]).name is Some ==> section_ok(
                self,
                i,
            )
        &&& forall|k: int|
            0 <= k < self.functions.len() ==> function_ok(self, #[trigger] self.functions[k])
    }
}

/// Decides `type_ok`.
fn check_within(iface: &Interface, ty: &Type, skip_name: bool, depth: usize) -> (ok: bool)
    ensures
        ok == type_ok(iface@, *ty, skip_name, depth as nat),
    decreases depth, 0nat,
{
    match *ty {
        Type::Handle(r) => r < iface.resources.len(),
        Type::Id(i) => {
            if i >= iface.types.len() {
                return false;
            }
            let def = &iface.types[i];
            assert(def@ == iface@.types[i as int]);
            if !skip_name && def.name.is_some() {
                return true;
            }
            if depth == 0 {
                return false;
            }
            check_kind(iface, &def.kind, depth - 1)
        },
        _ => true,
    }
}

fn check_payload(iface: &Interface, ty: &Option<Type>, depth: usize) -> (ok: bool)
    ensures
        ok == payload_ok(iface@, *ty, depth as nat),
    decreases depth, 1nat,
{
    match ty {
        Some(ty) => check_within(iface, ty, false, depth),
        None => true,
    }
}

fn check_types(iface: &Interface, types: &Vec<Type>, depth: usize) -> (ok: bool)
    ensures
        ok == kind_ok(iface@, KindView::Tuple(types@), depth as nat),
    decreases depth, 2nat,
{
    assert(KindView::Tuple(types@)->Tuple_0 == types@);
    let mut i: usize = 0;
    while i < types.len()
        invariant
            i <= types.len(),
            forall|k: int| 0 <= k < i ==> type_ok(iface@, #[trigger] types@[k], false, depth as nat),
        decreases types.len() - i,
    {
        if !check_within(iface, &types[i], false, depth) {
            assert(KindView::Tuple(types@)->Tuple_0 == types@);
            assert(!type_ok(iface@, types@[i as int], false, depth as nat));
            return false;
        }
        i = i + 1;
    }
    true
}

fn check_fields(iface: &Interface, fields: &Vec<Field>, depth: usize) -> (ok: bool)
    ensures
        ok == kind_ok(iface@, KindView::Record(fields@.map_values(|f: Field| f@)), depth as nat),
    decreases depth, 2nat,
{
    let ghost view = fields@.map_values(|f: Field| f@);
    assert(KindView::Record(view)->Record_0 == view);
    let mut i: usize = 0;
    while i < fields.len()
        invariant
            i <= fields.len(),
            view == fields@.map_values(|f: Field| f@),
            forall|k: int|
                0 <= k < i ==> type_ok(iface@, (#[trigger] view[k]).ty, false, depth as nat),
        decreases fields.len() - i,
    {
        assert(view[i as int] == fields[i as int]@);
        if !check_within(iface, &fields[i].ty, false, depth) {
            assert(!type_ok(iface@, view[i as int].ty, false, depth as nat));
            return false;
        }
        i = i + 1;
    }
    true
}

fn check_union(iface: &Interface, cases: &Vec<UnionCase>, depth: usize) -> (ok: bool)
    ensures
        ok == kind_ok(iface@, KindView::Union(cases@.map_values(|c: UnionCase| c@)), depth as nat),
    decreases depth, 2nat,
{
    let ghost view = cases@.map_values(|c: UnionCase| c@);
    assert(KindView::Union(view)->Union_0 == view);
    let mut i: usize = 0;
    while i < cases.len()
        invariant
            i <= cases.len(),
            view == cases@.map_values(|c: UnionCase| c@),
            forall|k: int|
                0 <= k < i ==> type_ok(iface@, (#[trigger] view[k]).ty, false, depth as nat),
        decreases cases.len() - i,
    {
        assert(view[i as int] == cases[i as int]@);
        if !check_within(iface, &cases[i].ty, false, depth) {
            assert(!type_ok(iface@, view[i as int].ty, false, depth as nat));
            return false;
        }
        i = i + 1;
    }
    true
}

fn check_variant(iface: &Interface, cases: &Vec<Case>, depth: usize) -> (ok: bool)
    ensures
        ok == kind_ok(iface@, KindView::Variant(cases@.map_values(|c: Case| c@)), depth as nat),
    decreases depth, 2nat,
{
    let ghost view = cases@.map_values(|c: Case| c@);
    assert(KindView::Variant(view)->Variant_0 == view);
    if cases.len() != 2 {
        return false;
    }
    assert(view[0] == cases[0]@ && view[1] == cases[1]@);
    if has_expected_shape(cases) {
        check_payload(iface, &cases[0].ty, depth) && check_payload(iface, &cases[1].ty, depth)
    } else {
        match (&cases[0].ty, &cases[1].ty) {
            (None, None) => true,
            (Some(ty), None) => check_within(iface, ty, false, depth),
            (None, Some(ty)) => check_within(iface, ty, false, depth),
            (Some(_), Some(_)) => false,
        }
    }
}

fn check_kind(iface: &Interface, kind: &TypeDefKind, depth: usize) -> (ok: bool)
    ensures
        ok == kind_ok(iface@, kind@, depth as nat),
    decreases depth, 3nat,
{
    match kind {
        TypeDefKind::Record(fields) => check_fields(iface, fields, depth),
        TypeDefKind::Tuple(types) => check_types(iface, types, depth),
        TypeDefKind::Flags(_) => true,
        TypeDefKind::Variant(cases) => check_variant(iface, cases, depth),
        TypeDefKind::Enum(_) => true,
        TypeDefKind::Union(cases) => check_union(iface, cases, depth),
        TypeDefKind::Optional(ty) => check_within(iface, ty, false, depth),
        TypeDefKind::Expected(e) => check_payload(iface, &e.ok, depth) && check_payload(
            iface,
            &e.err,
            depth,
        ),
        TypeDefKind::List(ty) => check_within(iface, ty, false, depth),
        TypeDefKind::Future(ty) => check_within(iface, ty, false, depth),
        TypeDefKind::Stream(s) => check_within(iface, &s.element, false, depth) && check_within(
            iface,
            &s.end,
            false,
            depth,
        ),
        TypeDefKind::Alias(ty) => check_within(iface, ty, false, depth),
        TypeDefKind::Pointer(ty) => check_within(iface, ty, false, depth),
        TypeDefKind::ConstPointer(ty) => check_within(iface, ty, false, depth),
        TypeDefKind::PushBuffer(ty) => check_within(iface, ty, false, depth),
        TypeDefKind::PullBuffer(ty) => check_within(iface, ty, false, depth),
    }
}

fn check_cases(iface: &Interface, cases: &Vec<Case>) -> (ok: bool)
    ensures
        ok == cases_ok(iface@, cases@.map_values(|c: Case| c@)),
{
    let ghost view = cases@.map_values(|c: Case| c@);
    let depth = iface.types.len();
    let mut i: usize = 0;
    while i < cases.len()
        invariant
            i <= cases.len(),
            depth == iface.types.len(),
            view == cases@.map_values(|c: Case| c@),
            forall|k: int| 0 <= k < i ==> payload_ok(iface@, (#[trigger] view[k]).ty, depth as nat),
        decreases cases.len() - i,
    {
        assert(view[i as int] == cases[i as int]@);
        if !check_payload(iface, &cases[i].ty, depth) {
            assert(!payload_ok(iface@, view[i as int].ty, depth as nat));
            return false;
        }
        i = i + 1;
    }
    true
}

fn check_params(iface: &Interface, params: &Vec<Param>) -> (ok: bool)
    ensures
        ok == params_ok(iface@, params@.map_values(|p: Param| p@)),
{
    let ghost view = params@.map_values(|p: Param| p@);
    let depth = iface.types.len();
    let mut i: usize = 0;
    while i < params.len()
        invariant
            i <= params.len(),
            depth == iface.types.len(),
            view == params@.map_values(|p: Param| p@),
            forall|k: int| 0 <= k < i ==> type_ok(iface@, (#[trigger] view[k]).ty, false, depth as nat),
        decreases params.len() - i,
    {
        assert(view[i as int] == params[i as int]@);
        if !check_within(iface, &params[i].ty, false, depth) {
            assert(!type_ok(iface@, view[i as int].ty, false, depth as nat));
            return false;
        }
        i = i + 1;
    }
    true
}

fn check_function(iface: &Interface, f: &Function) -> (ok: bool)
    ensures
        ok == function_ok(iface@, f@),
{
    if !check_params(iface, &f.params) {
        return false;
    }
    match &f.results {
        Results::Named(results) => check_params(iface, results),
        Results::Anon(ty) => check_within(iface, ty, false, iface.types.len()),
    }
}

fn check_section(iface: &Interface, i: usize) -> (ok: bool)
    requires
        i < iface.types.len(),
    ensures
        ok == section_ok(iface@, i as int),
{
    let depth = iface.types.len();
    let def = &iface.types[i];
    assert(def@ == iface@.types[i as int]);
    match &def.kind {
        TypeDefKind::Variant(cases) => check_cases(iface, cases),
        TypeDefKind::Alias(ty) => check_within(iface, ty, true, depth),
        TypeDefKind::List(_) => check_within(iface, &Type::Id(i), true, depth),
        TypeDefKind::Pointer(_) => check_within(iface, &Type::Id(i), true, depth),
        TypeDefKind::ConstPointer(_) => check_within(iface, &Type::Id(i), true, depth),
        TypeDefKind::PushBuffer(_) => check_within(iface, &Type::Id(i), true, depth),
        TypeDefKind::PullBuffer(_) => check_within(iface, &Type::Id(i), true, depth),
        kind => check_kind(iface, kind, depth),
    }
}

impl Interface {
    /// Decides whether the inline text of a reference to a type is defined
    /// in this graph.
    pub fn can_print(&self, ty: &Type, skip_name: bool) -> (ok: bool)
        ensures
            ok == type_ok(self@, *ty, skip_name, self@.types.len()),
    {
        check_within(self, ty, skip_name, self.types.len())
    }

    /// Decides whether the graph can be rendered.
    pub fn is_well_formed(&self) -> (ok: bool)
        ensures
            ok == self@.well_formed(),
    {
        let mut i: usize = 0;
        while i < self.types.len()
            invariant
                i <= self.types.len(),
                forall|k: int|
                    0 <= k < i && (#[trigger] self@.types[k]).name is Some ==> section_ok(self@, k),
            decreases self.types.len() - i,
        {
            assert(self.types[i as int]@ == self@.types[i as int]);
            if self.types[i].name.is_some() {
                if !check_section(self, i) {
                    return false;
                }
            }
            i = i + 1;
        }
        let mut k: usize = 0;
        while k < self.functions.len()
            invariant
                k <= self.functions.len(),
                forall|j: int|
                    0 <= j < self.types.len() && (#[trigger] self@.types[j]).name is Some
                        ==> section_ok(self@, j),
                forall|j: int| 0 <= j < k ==> function_ok(self@, #[trigger] self@.functions[j]),
            decreases self.functions.len() - k,
        {
            assert(self.functions[k as int]@ == self@.functions[k as int]);
            if !check_function(self, &self.functions[k]) {
                return false;
            }
            k = k + 1;
        }
        true
    }
}

} // verus!
