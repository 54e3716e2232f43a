//! The document assembler: the text buffer and the registry of one rendering
//! pass, the section of each kind of named type, the block of a function,
//! and the pass over a whole graph.

use vstd::prelude::*;
use vstd::string::*;
use wit_parser::SizeAlign;
use crate::anchor::{entries_view, item_entry, kebab_case, push_anchor_tag, record_item, Anchor};
use crate::docs::push_docs;
use crate::entries::{
    push_case_entries, push_enum_entries, push_flag_entries, push_function_header,
    push_pair_entries, push_params, push_record_entries, push_results, push_single_entry,
    push_tuple_entries, push_union_entries,
};
use crate::layout::{align_of_type, layout_table, size_of_type};
use crate::model::{
    Case, Docs, EnumCase, Expected, Field, Flag, Function, Interface, InterfaceView, KindView,
    Stream, Type, TypeDefKind, UnionCase,
};
use crate::printer::{kind_ok, payload_ok, print_ty, type_ok, type_text};
use crate::section::{
    body_entries, body_heading, document_anchors, document_text, function_text, functions_anchors,
    functions_banner, functions_text, header_text, info_text, kind_label, member_entries,
    member_names, named_count, section_anchors, section_body, section_text, sections_anchors,
    sections_text, types_banner,
};
use crate::text::{concat, push_decimal};
use crate::validate::{cases_ok, function_ok, section_ok};

verus! {

/// One rendering pass: the text written so far, the layout calculator, the
/// registry of the anchors made so far, and how many functions and named
/// types have been written.
pub struct Markdown {
    src: String,
    sizes: SizeAlign,
    hrefs: Vec<Anchor>,
    funcs: usize,
    types: usize,
}

/// The section of a named type that is no alias, after its heading: label,
/// documentation and layout, heading of the body, entries.
pub open spec fn plain_section(
    g: InterfaceView,
    owner: Seq<char>,
    docs: Option<Seq<char>>,
    layout: (usize, usize),
    kind: KindView,
) -> Seq<char> {
    kind_label(kind) + info_text(docs, layout) + body_heading(kind) + concat(
        body_entries(g, owner, kind),
    )
}

/// The banner, where this is the first section, and the heading of the
/// section.
pub open spec fn section_lead(first: bool, name: Seq<char>) -> Seq<char> {
    (if first {
        types_banner()
    } else {
        Seq::empty()
    }) + header_text(name)
}

impl Markdown {
    /// The text written so far.
    pub closed spec fn text(&self) -> Seq<char> {
        self.src@
    }

    /// The registry: the entries made so far, oldest first.
    pub closed spec fn anchors(&self) -> Seq<(Seq<char>, Seq<char>)> {
        entries_view(self.hrefs@)
    }

    /// The size and the alignment that the calculator holds for each
    /// definition.
    pub closed spec fn table(&self) -> Seq<(usize, usize)> {
        layout_table(self.sizes)
    }

    /// How many sections of named types have been written.
    pub closed spec fn types_written(&self) -> nat {
        self.types as nat
    }

    /// How many blocks of functions have been written.
    pub closed spec fn funcs_written(&self) -> nat {
        self.funcs as nat
    }

    /// This pass is `before` with `text` appended, `anchors` added to the
    /// registry, `types` more sections and `funcs` more blocks counted, and
    /// the same calculator.
    pub open spec fn wrote(
        &self,
        before: Markdown,
        text: Seq<char>,
        anchors: Seq<(Seq<char>, Seq<char>)>,
        types: nat,
        funcs: nat,
    ) -> bool {
        &&& self.text() == before.text() + text
        &&& self.anchors() == before.anchors() + anchors
        &&& self.table() == before.table()
        &&& self.types_written() == before.types_written() + types
        &&& self.funcs_written() == before.funcs_written() + funcs
    }

    /// A pass that has written nothing, with a calculator that has been
    /// filled.
    pub fn new(sizes: SizeAlign) -> (md: Markdown)
        ensures
            md.text() == Seq::<char>::empty(),
            md.anchors() == Seq::<(Seq<char>, Seq<char>)>::empty(),
            md.table() == layout_table(sizes),
            md.types_written() == 0,
            md.funcs_written() == 0,
    {
        let md = Markdown { src: String::new(), sizes, hrefs: Vec::new(), funcs: 0, types: 0 };
        assert(entries_view(md.hrefs@) =~= Seq::empty());
        md
    }

    /// The text written so far.
    pub fn src(&self) -> (text: &String)
        ensures
            text@ == self.text(),
    {
        &self.src
    }

    /// The registry: the entries made so far, oldest first.
    pub fn hrefs(&self) -> (entries: &Vec<Anchor>)
        ensures
            entries_view(entries@) == self.anchors(),
    {
        &self.hrefs
    }

    /// Ends the pass: the text and the registry.
    pub fn finish(self) -> (out: (String, Vec<Anchor>))
        ensures
            out.0@ == self.text(),
            entries_view(out.1@) == self.anchors(),
    {
        (self.src, self.hrefs)
    }

    /// Writes the heading of the section of a named type, after the banner
    /// where it is the first, and records the type.
    fn print_type_header(&mut self, name: &str)
        requires
            old(self).types < usize::MAX,
        ensures
            final(self).wrote(
                *old(self),
                section_lead(old(self).types == 0, name@),
                seq![item_entry(name@)],
                1,
                0,
            ),
    {
        if self.types == 0 {
            self.src.append("# Types\n\n");
        }
        self.types = self.types + 1;
        self.src.append("## ");
        let anchor = kebab_case(name);
        push_anchor_tag(&mut self.src, anchor.as_str());
        self.src.append(" `");
        self.src.append(name);
        self.src.append("`: ");
        record_item(&mut self.hrefs, name);
        assert(self.src@ =~= old(self).src@ + section_lead(old(self).types == 0, name@));
        assert(entries_view(self.hrefs@) =~= entries_view(old(self).hrefs@) + seq![
            item_entry(name@),
        ]);
    }

    /// Writes the documentation of a type and, after an empty line, the size
    /// and the alignment that the calculator holds for it.
    fn print_type_info(&mut self, ty: usize, docs: &Docs)
        requires
            ty < old(self).table().len(),
        ensures
            final(self).wrote(
                *old(self),
                info_text(docs@, old(self).table()[ty as int]),
                Seq::empty(),
                0,
                0,
            ),
    {
        push_docs(&mut self.src, docs);
        self.src.append("\n");
        self.src.append("Size: ");
        let size = size_of_type(&self.sizes, ty);
        push_decimal(&mut self.src, size);
        self.src.append(", ");
        self.src.append("Alignment: ");
        let align = align_of_type(&self.sizes, ty);
        push_decimal(&mut self.src, align);
        self.src.append("\n");
        assert(self.src@ =~= old(self).src@ + info_text(docs@, old(self).table()[ty as int]));
        assert(entries_view(self.hrefs@) =~= entries_view(old(self).hrefs@) + Seq::empty());
    }

    /// Writes the section of a record.
    fn type_record(
        &mut self,
        iface: &Interface,
        id: usize,
        name: &str,
        fields: &Vec<Field>,
        docs: &Docs,
    )
        requires
            id < old(self).table().len(),
            old(self).types < usize::MAX,
            kind_ok(
                iface@,
                KindView::Record(fields@.map_values(|f: Field| f@)),
                iface@.types.len(),
            ),
        ensures
            final(self).wrote(
                *old(self),
                section_lead(old(self).types == 0, name@) + plain_section(
                    iface@,
                    name@,
                    docs@,
                    old(self).table()[id as int],
                    KindView::Record(fields@.map_values(|f: Field| f@)),
                ),
                seq![item_entry(name@)] + member_entries(
                    name@,
                    member_names(KindView::Record(fields@.map_values(|f: Field| f@))),
                ),
                1,
                0,
            ),
    {
        let ghost kind = KindView::Record(fields@.map_values(|f: Field| f@));
        self.print_type_header(name);
        self.src.append("record\n\n");
        self.print_type_info(id, docs);
        self.src.append("\n### Record Fields\n\n");
        push_record_entries(&mut self.src, &mut self.hrefs, iface, name, fields);
        assert(self.src@ =~= old(self).src@ + (section_lead(old(self).types == 0, name@)
            + plain_section(iface@, name@, docs@, old(self).table()[id as int], kind)));
        assert(entries_view(self.hrefs@) =~= entries_view(old(self).hrefs@) + (seq![
            item_entry(name@),
        ] + member_entries(name@, member_names(kind))));
    }

    /// Writes the section of a tuple.
    fn type_tuple(
        &mut self,
        iface: &Interface,
        id: usize,
        name: &str,
        types: &Vec<Type>,
        docs: &Docs,
    )
        requires
            id < old(self).table().len(),
            old(self).types < usize::MAX,
            kind_ok(iface@, KindView::Tuple(types@), iface@.types.len()),
        ensures
            final(self).wrote(
                *old(self),
                section_lead(old(self).types == 0, name@) + plain_section(
                    iface@,
                    name@,
                    docs@,
                    old(self).table()[id as int],
                    KindView::Tuple(types@),
                ),
                seq![item_entry(name@)] + member_entries(
                    name@,
                    member_names(KindView::Tuple(types@)),
                ),
                1,
                0,
            ),
    {
        let ghost kind = KindView::Tuple(types@);
        self.print_type_header(name);
        self.src.append("tuple\n\n");
        self.print_type_info(id, docs);
        self.src.append("\n### Tuple Types\n\n");
        push_tuple_entries(&mut self.src, iface, types);
        assert(body_entries(iface@, Seq::empty(), kind) =~= body_entries(iface@, name@, kind));
        assert(self.src@ =~= old(self).src@ + (section_lead(old(self).types == 0, name@)
            + plain_section(iface@, name@, docs@, old(self).table()[id as int], kind)));
        assert(entries_view(self.hrefs@) =~= entries_view(old(self).hrefs@) + (seq![
            item_entry(name@),
        ] + member_entries(name@, member_names(kind))));
    }

    /// Writes the section of a flag set.
    fn type_flags(
        &mut self,
        iface: &Interface,
        id: usize,
        name: &str,
        flags: &Vec<Flag>,
        docs: &Docs,
    )
        requires
            id < old(self).table().len(),
            old(self).types < usize::MAX,
        ensures
            final(self).wrote(
                *old(self),
                section_lead(old(self).types == 0, name@) + plain_section(
                    iface@,
                    name@,
                    docs@,
                    old(self).table()[id as int],
                    KindView::Flags(flags@.map_values(|f: Flag| f@)),
                ),
                seq![item_entry(name@)] + member_entries(
                    name@,
                    member_names(KindView::Flags(flags@.map_values(|f: Flag| f@))),
                ),
                1,
                0,
            ),
    {
        let ghost kind = KindView::Flags(flags@.map_values(|f: Flag| f@));
        self.print_type_header(name);
        self.src.append("flags\n\n");
        self.print_type_info(id, docs);
        self.src.append("\n### Flags Fields\n\n");
        push_flag_entries(&mut self.src, &mut self.hrefs, iface, name, flags);
        assert(self.src@ =~= old(self).src@ + (section_lead(old(self).types == 0, name@)
            + plain_section(iface@, name@, docs@, old(self).table()[id as int], kind)));
        assert(entries_view(self.hrefs@) =~= entries_view(old(self).hrefs@) + (seq![
            item_entry(name@),
        ] + member_entries(name@, member_names(kind))));
    }

    /// Writes the section of a variant.
    fn type_variant(
        &mut self,
        iface: &Interface,
        id: usize,
        name: &str,
        cases: &Vec<Case>,
        docs: &Docs,
    )
        requires
            id < old(self).table().len(),
            old(self).types < usize::MAX,
            cases_ok(iface@, cases@.map_values(|c: Case| c@)),
        ensures
            final(self).wrote(
                *old(self),
                section_lead(old(self).types == 0, name@) + plain_section(
                    iface@,
                    name@,
                    docs@,
                    old(self).table()[id as int],
                    KindView::Variant(cases@.map_values(|c: Case| c@)),
                ),
                seq![item_entry(name@)] + member_entries(
                    name@,
                    member_names(KindView::Variant(cases@.map_values(|c: Case| c@))),
                ),
                1,
                0,
            ),
    {
        let ghost kind = KindView::Variant(cases@.map_values(|c: Case| c@));
        self.print_type_header(name);
        self.src.append("variant\n\n");
        self.print_type_info(id, docs);
        self.src.append("\n### Variant Cases\n\n");
        push_case_entries(&mut self.src, &mut self.hrefs, iface, name, cases);
        assert(self.src@ =~= old(self).src@ + (section_lead(old(self).types == 0, name@)
            + plain_section(iface@, name@, docs@, old(self).table()[id as int], kind)));
        assert(entries_view(self.hrefs@) =~= entries_view(old(self).hrefs@) + (seq![
            item_entry(name@),
        ] + member_entries(name@, member_names(kind))));
    }

    /// Writes the section of an enumeration.
    fn type_enum(
        &mut self,
        iface: &Interface,
        id: usize,
        name: &str,
        cases: &Vec<EnumCase>,
        docs: &Docs,
    )
        requires
            id < old(self).table().len(),
            old(self).types < usize::MAX,
        ensures
            final(self).wrote(
                *old(self),
                section_lead(old(self).types == 0, name@) + plain_section(
                    iface@,
                    name@,
                    docs@,
                    old(self).table()[id as int],
                    KindView::Enum(cases@.map_values(|c: EnumCase| c@)),
                ),
                seq![item_entry(name@)] + member_entries(
                    name@,
                    member_names(KindView::Enum(cases@.map_values(|c: EnumCase| c@))),
                ),
                1,
                0,
            ),
    {
        let ghost kind = KindView::Enum(cases@.map_values(|c: EnumCase| c@));
        self.print_type_header(name);
        self.src.append("enum\n\n");
        self.print_type_info(id, docs);
        self.src.append("\n### Enum Cases\n\n");
        push_enum_entries(&mut self.src, &mut self.hrefs, iface, name, cases);
        assert(self.src@ =~= old(self).src@ + (section_lead(old(self).types == 0, name@)
            + plain_section(iface@, name@, docs@, old(self).table()[id as int], kind)));
        assert(entries_view(self.hrefs@) =~= entries_view(old(self).hrefs@) + (seq![
            item_entry(name@),
        ] + member_entries(name@, member_names(kind))));
    }

    /// Writes the section of a union.
    fn type_union(
        &mut self,
        iface: &Interface,
        id: usize,
        name: &str,
        cases: &Vec<UnionCase>,
        docs: &Docs,
    )
        requires
            id < old(self).table().len(),
            old(self).types < usize::MAX,
            kind_ok(
                iface@,
                KindView::Union(cases@.map_values(|c: UnionCase| c@)),
                iface@.types.len(),
            ),
        ensures
            final(self).wrote(
                *old(self),
                section_lead(old(self).types == 0, name@) + plain_section(
                    iface@,
                    name@,
                    docs@,
                    old(self).table()[id as int],
                    KindView::Union(cases@.map_values(|c: UnionCase| c@)),
                ),
                seq![item_entry(name@)] + member_entries(
                    name@,
                    member_names(KindView::Union(cases@.map_values(|c: UnionCase| c@))),
                ),
                1,
                0,
            ),
    {
        let ghost kind = KindView::Union(cases@.map_values(|c: UnionCase| c@));
        self.print_type_header(name);
        self.src.append("union\n\n");
        self.print_type_info(id, docs);
        self.src.append("\n### Union Cases\n\n");
        push_union_entries(&mut self.src, iface, cases);
        assert(body_entries(iface@, Seq::empty(), kind) =~= body_entries(iface@, name@, kind));
        assert(self.src@ =~= old(self).src@ + (section_lead(old(self).types == 0, name@)
            + plain_section(iface@, name@, docs@, old(self).table()[id as int], kind)));
        assert(entries_view(self.hrefs@) =~= entries_view(old(self).hrefs@) + (seq![
            item_entry(name@),
        ] + member_entries(name@, member_names(kind))));
    }

    /// Writes the section of an optional value.
    fn type_option(&mut self, iface: &Interface, id: usize, name: &str, ty: &Type, docs: &Docs)
        requires
            id < old(self).table().len(),
            old(self).types < usize::MAX,
            type_ok(iface@, *ty, false, iface@.types.len()),
        ensures
            final(self).wrote(
                *old(self),
                section_lead(old(self).types == 0, name@) + plain_section(
                    iface@,
                    name@,
                    docs@,
                    old(self).table()[id as int],
                    KindView::Optional(*ty),
                ),
                seq![item_entry(name@)] + member_entries(
                    name@,
                    member_names(KindView::Optional(*ty)),
                ),
                1,
                0,
            ),
    {
        let ghost kind = KindView::Optional(*ty);
        self.print_type_header(name);
        self.src.append("option\n\n");
        self.print_type_info(id, docs);
        self.src.append("\n### Option\n\n");
        push_single_entry(&mut self.src, iface, ty);
        assert(self.src@ =~= old(self).src@ + (section_lead(old(self).types == 0, name@)
            + plain_section(iface@, name@, docs@, old(self).table()[id as int], kind)));
        assert(entries_view(self.hrefs@) =~= entries_view(old(self).hrefs@) + (seq![
            item_entry(name@),
        ] + member_entries(name@, member_names(kind))));
    }

    /// Writes the section of a value or an error.
    fn type_expected(
        &mut self,
        iface: &Interface,
        id: usize,
        name: &str,
        expected: &Expected,
        docs: &Docs,
    )
        requires
            id < old(self).table().len(),
            old(self).types < usize::MAX,
            payload_ok(iface@, expected.ok, iface@.types.len()),
            payload_ok(iface@, expected.err, iface@.types.len()),
        ensures
            final(self).wrote(
                *old(self),
                section_lead(old(self).types == 0, name@) + plain_section(
                    iface@,
                    name@,
                    docs@,
                    old(self).table()[id as int],
                    KindView::Expected(*expected),
                ),
                seq![item_entry(name@)] + member_entries(
                    name@,
                    member_names(KindView::Expected(*expected)),
                ),
                1,
                0,
            ),
    {
        let ghost kind = KindView::Expected(*expected);
        self.print_type_header(name);
        self.src.append("expected\n\n");
        self.print_type_info(id, docs);
        self.src.append("\n### Expected\n\n");
        push_pair_entries(&mut self.src, iface, &expected.ok, &expected.err);
        assert(self.src@ =~= old(self).src@ + (section_lead(old(self).types == 0, name@)
            + plain_section(iface@, name@, docs@, old(self).table()[id as int], kind)));
        assert(entries_view(self.hrefs@) =~= entries_view(old(self).hrefs@) + (seq![
            item_entry(name@),
        ] + member_entries(name@, member_names(kind))));
    }

    /// Writes the section of an asynchronous value.
    fn type_future(&mut self, iface: &Interface, id: usize, name: &str, ty: &Type, docs: &Docs)
        requires
            id < old(self).table().len(),
            old(self).types < usize::MAX,
            type_ok(iface@, *ty, false, iface@.types.len()),
        ensures
            final(self).wrote(
                *old(self),
                section_lead(old(self).types == 0, name@) + plain_section(
                    iface@,
                    name@,
                    docs@,
                    old(self).table()[id as int],
                    KindView::Future(*ty),
                ),
                seq![item_entry(name@)] + member_entries(
                    name@,
                    member_names(KindView::Future(*ty)),
                ),
                1,
                0,
            ),
    {
        let ghost kind = KindView::Future(*ty);
        self.print_type_header(name);
        self.src.append("future\n\n");
        self.print_type_info(id, docs);
        self.src.append("\n### Future\n\n");
        push_single_entry(&mut self.src, iface, ty);
        assert(self.src@ =~= old(self).src@ + (section_lead(old(self).types == 0, name@)
            + plain_section(iface@, name@, docs@, old(self).table()[id as int], kind)));
        assert(entries_view(self.hrefs@) =~= entries_view(old(self).hrefs@) + (seq![
            item_entry(name@),
        ] + member_entries(name@, member_names(kind))));
    }

    /// Writes the section of an asynchronous sequence.
    fn type_stream(
        &mut self,
        iface: &Interface,
        id: usize,
        name: &str,
        stream: &Stream,
        docs: &Docs,
    )
        requires
            id < old(self).table().len(),
            old(self).types < usize::MAX,
            type_ok(iface@, stream.element, false, iface@.types.len()),
            type_ok(iface@, stream.end, false, iface@.types.len()),
        ensures
            final(self).wrote(
                *old(self),
                section_lead(old(self).types == 0, name@) + plain_section(
                    iface@,
                    name@,
                    docs@,
                    old(self).table()[id as int],
                    KindView::Stream(*stream),
                ),
                seq![item_entry(name@)] + member_entries(
                    name@,
                    member_names(KindView::Stream(*stream)),
                ),
                1,
                0,
            ),
    {
        let ghost kind = KindView::Stream(*stream);
        self.print_type_header(name);
        self.src.append("stream\n\n");
        self.print_type_info(id, docs);
        self.src.append("\n### Stream\n\n");
        push_pair_entries(&mut self.src, iface, &Some(stream.element), &Some(stream.end));
        assert(self.src@ =~= old(self).src@ + (section_lead(old(self).types == 0, name@)
            + plain_section(iface@, name@, docs@, old(self).table()[id as int], kind)));
        assert(entries_view(self.hrefs@) =~= entries_view(old(self).hrefs@) + (seq![
            item_entry(name@),
        ] + member_entries(name@, member_names(kind))));
    }

    /// Writes the section of an alias, a list, a pointer or a buffer: the
    /// type `ty` written out whatever its name, then the documentation and
    /// the layout.
    fn type_alias(&mut self, iface: &Interface, id: usize, name: &str, ty: &Type, docs: &Docs)
        requires
            id < old(self).table().len(),
            old(self).types < usize::MAX,
            type_ok(iface@, *ty, true, iface@.types.len()),
        ensures
            final(self).wrote(
                *old(self),
                section_lead(old(self).types == 0, name@) + (type_text(
                    iface@,
                    *ty,
                    true,
                    iface@.types.len(),
                ) + "\n\n"@ + info_text(docs@, old(self).table()[id as int]) + "\n"@),
                seq![item_entry(name@)],
                1,
                0,
            ),
    {
        self.print_type_header(name);
        print_ty(&mut self.src, iface, ty, true);
        self.src.append("\n\n");
        self.print_type_info(id, docs);
        self.src.append("\n");
        assert(self.src@ =~= old(self).src@ + (section_lead(old(self).types == 0, name@) + (
        type_text(iface@, *ty, true, iface@.types.len()) + "\n\n"@ + info_text(
            docs@,
            old(self).table()[id as int],
        ) + "\n"@)));
    }

    /// Writes the section of the named definition `id`.
    fn type_section(&mut self, iface: &Interface, id: usize)
        requires
            id < iface.types.len(),
            iface@.types[id as int].name is Some,
            section_ok(iface@, id as int),
            id < old(self).table().len(),
            old(self).types < usize::MAX,
        ensures
            final(self).wrote(
                *old(self),
                (if old(self).types == 0 {
                    types_banner()
                } else {
                    Seq::empty()
                }) + section_text(iface@, old(self).table()[id as int], id as int),
                section_anchors(iface@.types[id as int]),
                1,
                0,
            ),
    {
        let ty = &iface.types[id];
        assert(ty@ == iface@.types[id as int]);
        let ghost layout = old(self).table()[id as int];
        let ghost lead = section_lead(old(self).types == 0, ty@.name->0);
        match &ty.name {
            None => {},
            Some(name) => {
                match &ty.kind {
                    TypeDefKind::Record(record) => self.type_record(
                        iface,
                        id,
                        name.as_str(),
                        record,
                        &ty.docs,
                    ),
                    TypeDefKind::Tuple(tuple) => self.type_tuple(
                        iface,
                        id,
                        name.as_str(),
                        tuple,
                        &ty.docs,
                    ),
                    TypeDefKind::Flags(flags) => self.type_flags(
                        iface,
                        id,
                        name.as_str(),
                        flags,
                        &ty.docs,
                    ),
                    TypeDefKind::Variant(variant) => self.type_variant(
                        iface,
                        id,
                        name.as_str(),
                        variant,
                        &ty.docs,
                    ),
                    TypeDefKind::Alias(t) => {
                        self.type_alias(iface, id, name.as_str(), t, &ty.docs);
                        assert(member_entries(name@, member_names(ty@.kind)) =~= Seq::empty());
                    },
                    TypeDefKind::List(_) => {
                        self.type_alias(iface, id, name.as_str(), &Type::Id(id), &ty.docs);
                        assert(member_entries(name@, member_names(ty@.kind)) =~= Seq::empty());
                    },
                    TypeDefKind::Pointer(_) => {
                        self.type_alias(iface, id, name.as_str(), &Type::Id(id), &ty.docs);
                        assert(member_entries(name@, member_names(ty@.kind)) =~= Seq::empty());
                    },
                    TypeDefKind::ConstPointer(_) => {
                        self.type_alias(iface, id, name.as_str(), &Type::Id(id), &ty.docs);
                        assert(member_entries(name@, member_names(ty@.kind)) =~= Seq::empty());
                    },
                    TypeDefKind::PushBuffer(_) => {
                        self.type_alias(iface, id, name.as_str(), &Type::Id(id), &ty.docs);
                        assert(member_entries(name@, member_names(ty@.kind)) =~= Seq::empty());
                    },
                    TypeDefKind::PullBuffer(_) => {
                        self.type_alias(iface, id, name.as_str(), &Type::Id(id), &ty.docs);
                        assert(member_entries(name@, member_names(ty@.kind)) =~= Seq::empty());
                    },
                    TypeDefKind::Enum(enum_) => self.type_enum(
                        iface,
                        id,
                        name.as_str(),
                        enum_,
                        &ty.docs,
                    ),
                    TypeDefKind::Optional(type_) => self.type_option(
                        iface,
                        id,
                        name.as_str(),
                        type_,
                        &ty.docs,
                    ),
                    TypeDefKind::Expected(expected) => self.type_expected(
                        iface,
                        id,
                        name.as_str(),
                        expected,
                        &ty.docs,
                    ),
                    TypeDefKind::Union(union) => self.type_union(
                        iface,
                        id,
                        name.as_str(),
                        union,
                        &ty.docs,
                    ),
                    TypeDefKind::Future(t) => self.type_future(
                        iface,
                        id,
                        name.as_str(),
                        t,
                        &ty.docs,
                    ),
                    TypeDefKind::Stream(stream) => self.type_stream(
                        iface,
                        id,
                        name.as_str(),
                        stream,
                        &ty.docs,
                    ),
                }
                assert(self.src@ =~= old(self).src@ + (lead + section_body(
                    iface@,
                    layout,
                    id as int,
                )));
                assert(self.src@ =~= old(self).src@ + ((if old(self).types == 0 {
                    types_banner()
                } else {
                    Seq::empty()
                }) + section_text(iface@, layout, id as int)));
                assert(entries_view(self.hrefs@) =~= entries_view(old(self).hrefs@)
                    + section_anchors(ty@));
            },
        }
    }

    /// Writes the block of a function, after the banner where it is the
    /// first, and records the function.
    fn function_block(&mut self, iface: &Interface, func: &Function)
        requires
            function_ok(iface@, func@),
            old(self).funcs < usize::MAX,
        ensures
            final(self).wrote(
                *old(self),
                (if old(self).funcs == 0 {
                    functions_banner()
                } else {
                    Seq::empty()
                }) + function_text(iface@, func@),
                seq![item_entry(func.name@)],
                0,
                1,
            ),
    {
        if self.funcs == 0 {
            self.src.append("# Functions\n\n");
        }
        self.funcs = self.funcs + 1;
        let ghost start = self.src@;
        push_function_header(&mut self.src, func.name.as_str());
        record_item(&mut self.hrefs, func.name.as_str());
        push_docs(&mut self.src, &func.docs);
        push_params(&mut self.src, iface, func.name.as_str(), &func.params);
        push_results(&mut self.src, iface, func.name.as_str(), &func.results);
        self.src.append("\n");
        assert(self.src@ =~= start + function_text(iface@, func@));
        assert(self.src@ =~= old(self).src@ + ((if old(self).funcs == 0 {
            functions_banner()
        } else {
            Seq::empty()
        }) + function_text(iface@, func@)));
        assert(entries_view(self.hrefs@) =~= entries_view(old(self).hrefs@) + seq![
            item_entry(func.name@),
        ]);
    }

    /// Writes the sections of all named types of the graph, then the blocks
    /// of all its functions, and records each named type, its members and
    /// each function. The calculator must have been filled from this graph.
    pub fn process(&mut self, iface: &Interface)
        requires
            iface@.well_formed(),
            iface@.types.len() <= old(self).table().len(),
            old(self).types_written() + iface@.types.len() <= usize::MAX,
            old(self).funcs_written() + iface@.functions.len() <= usize::MAX,
        ensures
            final(self).wrote(
                *old(self),
                sections_text(
                    iface@,
                    old(self).table(),
                    iface@.types.len(),
                    old(self).types_written() == 0,
                ) + functions_text(
                    iface@,
                    iface@.functions.len(),
                    old(self).funcs_written() == 0,
                ),
                sections_anchors(iface@, iface@.types.len()) + functions_anchors(
                    iface@,
                    iface@.functions.len(),
                ),
                named_count(iface@, iface@.types.len()),
                iface@.functions.len(),
            ),
    {
        let ghost g = iface@;
        let ghost table = old(self).table();
        let ghost fresh = old(self).types == 0;
        assert(self.src@ =~= old(self).src@ + sections_text(g, table, 0, fresh));
        assert(entries_view(self.hrefs@) =~= entries_view(old(self).hrefs@) + sections_anchors(
            g,
            0,
        ));
        let mut id: usize = 0;
        while id < iface.types.len()
            invariant
                id <= iface.types.len(),
                g == iface@,
                g.well_formed(),
                table == old(self).table(),
                fresh == (old(self).types == 0),
                g.types.len() <= table.len(),
                old(self).types + g.types.len() <= usize::MAX,
                self.wrote(
                    *old(self),
                    sections_text(g, table, id as nat, fresh),
                    sections_anchors(g, id as nat),
                    named_count(g, id as nat),
                    0,
                ),
                named_count(g, id as nat) <= id,
            decreases iface.types.len() - id,
        {
            let ghost before = *self;
            assert(iface.types[id as int]@ == g.types[id as int]);
            if iface.types[id].name.is_some() {
                self.type_section(iface, id);
                assert(self.src@ =~= old(self).src@ + sections_text(
                    g,
                    table,
                    (id + 1) as nat,
                    fresh,
                ));
                assert(entries_view(self.hrefs@) =~= entries_view(old(self).hrefs@)
                    + sections_anchors(g, (id + 1) as nat));
            } else {
                assert(self.src@ =~= old(self).src@ + sections_text(
                    g,
                    table,
                    (id + 1) as nat,
                    fresh,
                ));
                assert(entries_view(self.hrefs@) =~= entries_view(old(self).hrefs@)
                    + sections_anchors(g, (id + 1) as nat));
            }
            id = id + 1;
        }
        let ghost middle = *self;
        let ghost first = old(self).funcs == 0;
        assert(self.src@ =~= middle.src@ + functions_text(g, 0, first));
        assert(entries_view(self.hrefs@) =~= entries_view(middle.hrefs@) + functions_anchors(g, 0));
        let mut k: usize = 0;
        while k < iface.functions.len()
            invariant
                k <= iface.functions.len(),
                g == iface@,
                g.well_formed(),
                first == (old(self).funcs == 0),
                old(self).funcs + g.functions.len() <= usize::MAX,
                middle.funcs == old(self).funcs,
                self.wrote(
                    middle,
                    functions_text(g, k as nat, first),
                    functions_anchors(g, k as nat),
                    0,
                    k as nat,
                ),
            decreases iface.functions.len() - k,
        {
            assert(iface.functions[k as int]@ == g.functions[k as int]);
            self.function_block(iface, &iface.functions[k]);
            assert(self.src@ =~= middle.src@ + functions_text(g, (k + 1) as nat, first));
            assert(functions_anchors(g, (k + 1) as nat) =~= functions_anchors(g, k as nat).push(
                item_entry(g.functions[k as int].name),
            ));
            assert(entries_view(self.hrefs@) =~= entries_view(middle.hrefs@) + functions_anchors(
                g,
                (k + 1) as nat,
            ));
            k = k + 1;
        }
        assert(self.src@ =~= old(self).src@ + (sections_text(g, table, g.types.len(), fresh)
            + functions_text(g, g.functions.len(), first)));
        assert(entries_view(self.hrefs@) =~= entries_view(old(self).hrefs@) + (sections_anchors(
            g,
            g.types.len(),
        ) + functions_anchors(g, g.functions.len())));
    }
}

/// Renders the graph: the text of the document and the registry of its
/// anchors. `sizes` is the layout calculator, filled from this graph.
pub fn render(iface: &Interface, sizes: SizeAlign) -> (out: (String, Vec<Anchor>))
    requires
        iface@.well_formed(),
        iface@.types.len() <= layout_table(sizes).len(),
    ensures
        out.0@ == document_text(iface@, layout_table(sizes)),
        entries_view(out.1@) == document_anchors(iface@),
{
    let mut markdown = Markdown::new(sizes);
    assert(iface@.types.len() == iface.types.len());
    assert(iface@.functions.len() == iface.functions.len());
    markdown.process(iface);
    let out = markdown.finish();
    assert(out.0@ =~= document_text(iface@, layout_table(sizes)));
    assert(entries_view(out.1@) =~= document_anchors(iface@));
    out
}

} // verus!
