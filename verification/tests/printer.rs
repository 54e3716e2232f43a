use wit_abi::docs::push_docs;
use wit_abi::model::{
    Case, Docs, EnumCase, Expected, Field, Flag, Function, Interface, Param, Resource, Results,
    Stream, Type, TypeDef, TypeDefKind, UnionCase,
};
use wit_abi::printer::print_ty;
use wit_abi::text::push_decimal;

fn no_docs() -> Docs {
    Docs { contents: None }
}

fn named(name: &str, kind: TypeDefKind) -> TypeDef {
    TypeDef { docs: no_docs(), kind, name: Some(name.to_string()) }
}

fn anon(kind: TypeDefKind) -> TypeDef {
    TypeDef { docs: no_docs(), kind, name: None }
}

fn graph(types: Vec<TypeDef>) -> Interface {
    Interface { types, resources: Vec::new(), functions: Vec::new() }
}

fn case(name: &str, ty: Option<Type>) -> Case {
    Case { docs: no_docs(), name: name.to_string(), ty }
}

fn printed(iface: &Interface, ty: Type, skip_name: bool) -> String {
    assert!(iface.can_print(&ty, skip_name));
    let mut out = String::new();
    print_ty(&mut out, iface, &ty, skip_name);
    out
}

fn doc_block(text: &str) -> String {
    let mut out = String::new();
    push_docs(&mut out, &Docs { contents: Some(text.to_string()) });
    out
}

fn decimal(n: usize) -> String {
    let mut out = String::new();
    push_decimal(&mut out, n);
    out
}

#[test]
fn primitives_have_fixed_tokens() {
    let iface = graph(Vec::new());
    let expected = [
        (Type::Unit, "`unit`"),
        (Type::Bool, "`bool`"),
        (Type::U8, "`u8`"),
        (Type::U16, "`u16`"),
        (Type::U32, "`u32`"),
        (Type::U64, "`u64`"),
        (Type::S8, "`s8`"),
        (Type::S16, "`s16`"),
        (Type::S32, "`s32`"),
        (Type::S64, "`s64`"),
        (Type::Float32, "`float32`"),
        (Type::Float64, "`float64`"),
        (Type::Char, "`char`"),
        (Type::CChar, "`c_char`"),
        (Type::Usize, "`usize`"),
        (Type::String, "`string`"),
    ];
    for (ty, token) in expected {
        assert_eq!(printed(&iface, ty, false), token);
        assert_eq!(printed(&iface, ty, true), token);
    }
}

#[test]
fn print_appends_to_what_is_there() {
    let iface = graph(Vec::new());
    let mut out = String::from("x: ");
    print_ty(&mut out, &iface, &Type::U32, false);
    print_ty(&mut out, &iface, &Type::Bool, false);
    assert_eq!(out, "x: `u32``bool`");
}

#[test]
fn handle_names_its_resource() {
    let mut iface = graph(Vec::new());
    iface.resources.push(Resource { name: "file".to_string() });
    iface.resources.push(Resource { name: "Socket".to_string() });
    assert_eq!(printed(&iface, Type::Handle(1), false), "handle<Socket>");
    assert_eq!(printed(&iface, Type::Handle(0), true), "handle<file>");
    assert!(!iface.can_print(&Type::Handle(2), false));
}

#[test]
fn named_type_is_a_link_unless_skipped() {
    let iface = graph(vec![named("MyList", TypeDefKind::List(Type::U8))]);
    assert_eq!(printed(&iface, Type::Id(0), false), "[`MyList`](#my-list)");
    assert_eq!(printed(&iface, Type::Id(0), true), "list<`u8`>");
}

#[test]
fn char_list_is_a_string() {
    let iface = graph(vec![
        anon(TypeDefKind::List(Type::Char)),
        named("Name", TypeDefKind::List(Type::Char)),
        anon(TypeDefKind::List(Type::Id(0))),
        anon(TypeDefKind::Optional(Type::Id(0))),
        anon(TypeDefKind::List(Type::CChar)),
    ]);
    assert_eq!(printed(&iface, Type::Id(0), false), "`string`");
    assert_eq!(printed(&iface, Type::Id(0), true), "`string`");
    assert_eq!(printed(&iface, Type::Id(1), true), "`string`");
    assert_eq!(printed(&iface, Type::Id(1), false), "[`Name`](#name)");
    assert_eq!(printed(&iface, Type::Id(2), false), "list<`string`>");
    assert_eq!(printed(&iface, Type::Id(3), false), "option<`string`>");
    assert_eq!(printed(&iface, Type::Id(4), false), "list<`c_char`>");
}

#[test]
fn structural_types_are_written_out() {
    let iface = graph(vec![
        anon(TypeDefKind::Tuple(vec![Type::U8, Type::Id(1), Type::Id(2)])),
        anon(TypeDefKind::Optional(Type::S16)),
        named("N", TypeDefKind::Alias(Type::U64)),
        anon(TypeDefKind::Record(vec![
            Field { docs: no_docs(), name: "a".to_string(), ty: Type::Id(0) },
            Field { docs: no_docs(), name: "b".to_string(), ty: Type::Bool },
        ])),
        anon(TypeDefKind::Flags(vec![
            Flag { docs: no_docs(), name: "r".to_string() },
            Flag { docs: no_docs(), name: "w".to_string() },
        ])),
        anon(TypeDefKind::Enum(vec![
            EnumCase { docs: no_docs(), name: "on".to_string() },
            EnumCase { docs: no_docs(), name: "off".to_string() },
            EnumCase { docs: no_docs(), name: "auto".to_string() },
        ])),
        anon(TypeDefKind::Union(vec![
            UnionCase { docs: no_docs(), ty: Type::U8 },
            UnionCase { docs: no_docs(), ty: Type::Id(2) },
        ])),
        anon(TypeDefKind::Future(Type::Id(1))),
        anon(TypeDefKind::Stream(Stream { element: Type::U8, end: Type::Id(2) })),
        anon(TypeDefKind::Alias(Type::Id(7))),
        anon(TypeDefKind::Tuple(Vec::new())),
        anon(TypeDefKind::Tuple(vec![Type::Char])),
    ]);
    assert_eq!(printed(&iface, Type::Id(0), false), "(`u8`, option<`s16`>, [`N`](#n))");
    assert_eq!(
        printed(&iface, Type::Id(3), false),
        "record<a: (`u8`, option<`s16`>, [`N`](#n)), b: `bool`>"
    );
    assert_eq!(printed(&iface, Type::Id(4), false), "flags<r, w>");
    assert_eq!(printed(&iface, Type::Id(5), false), "enum<on, off, auto>");
    assert_eq!(printed(&iface, Type::Id(6), false), "union<`u8`, [`N`](#n)>");
    assert_eq!(printed(&iface, Type::Id(7), false), "future<option<`s16`>>");
    assert_eq!(printed(&iface, Type::Id(8), false), "stream<`u8`, [`N`](#n)>");
    assert_eq!(printed(&iface, Type::Id(9), false), "future<option<`s16`>>");
    assert_eq!(printed(&iface, Type::Id(10), false), "()");
    assert_eq!(printed(&iface, Type::Id(11), false), "(`char`)");
    assert_eq!(printed(&iface, Type::Id(2), true), "`u64`");
}

#[test]
fn pointers_and_buffers() {
    let iface = graph(vec![
        anon(TypeDefKind::Pointer(Type::U8)),
        anon(TypeDefKind::ConstPointer(Type::U8)),
        anon(TypeDefKind::PushBuffer(Type::Id(0))),
        anon(TypeDefKind::PullBuffer(Type::Usize)),
    ]);
    assert_eq!(printed(&iface, Type::Id(0), false), "pointer<`u8`>");
    assert_eq!(printed(&iface, Type::Id(1), false), "const-pointer<`u8`>");
    assert_eq!(printed(&iface, Type::Id(2), false), "push-buffer<pointer<`u8`>>");
    assert_eq!(printed(&iface, Type::Id(3), false), "pull-buffer<`usize`>");
}

#[test]
fn expected_writes_an_underscore_for_a_missing_side() {
    let iface = graph(vec![
        anon(TypeDefKind::Expected(Expected { ok: Some(Type::U32), err: Some(Type::String) })),
        anon(TypeDefKind::Expected(Expected { ok: None, err: Some(Type::U8) })),
        anon(TypeDefKind::Expected(Expected { ok: Some(Type::U8), err: None })),
        anon(TypeDefKind::Expected(Expected { ok: None, err: None })),
    ]);
    assert_eq!(printed(&iface, Type::Id(0), false), "expected<`u32`, `string`>");
    assert_eq!(printed(&iface, Type::Id(1), false), "expected<_, `u8`>");
    assert_eq!(printed(&iface, Type::Id(2), false), "expected<`u8`, _>");
    assert_eq!(printed(&iface, Type::Id(3), false), "expected<_, _>");
}

#[test]
fn variant_of_two_bare_cases_is_a_bool() {
    let iface = graph(vec![
        anon(TypeDefKind::Variant(vec![case("false", None), case("true", None)])),
        anon(TypeDefKind::Variant(vec![case("no", None), case("yes", None)])),
        named("Flag", TypeDefKind::Variant(vec![case("off", None), case("on", None)])),
    ]);
    assert_eq!(printed(&iface, Type::Id(0), false), "`bool`");
    assert_eq!(printed(&iface, Type::Id(1), false), "`bool`");
    assert_eq!(printed(&iface, Type::Id(2), true), "`bool`");
    assert_eq!(printed(&iface, Type::Id(2), false), "[`Flag`](#flag)");
}

#[test]
fn variant_with_one_payload_is_an_option() {
    let iface = graph(vec![
        anon(TypeDefKind::Variant(vec![case("none", None), case("some", Some(Type::U32))])),
        anon(TypeDefKind::Variant(vec![case("full", Some(Type::Id(0))), case("empty", None)])),
    ]);
    assert_eq!(printed(&iface, Type::Id(0), false), "option<`u32`>");
    assert_eq!(printed(&iface, Type::Id(1), false), "option<option<`u32`>>");
}

#[test]
fn variant_of_ok_and_err_is_an_expected() {
    let iface = graph(vec![
        anon(TypeDefKind::Variant(vec![
            case("ok", Some(Type::U32)),
            case("err", Some(Type::String)),
        ])),
        anon(TypeDefKind::Variant(vec![case("ok", None), case("err", Some(Type::U8))])),
        anon(TypeDefKind::Variant(vec![case("ok", Some(Type::U8)), case("err", None)])),
        anon(TypeDefKind::Variant(vec![case("ok", None), case("err", None)])),
        anon(TypeDefKind::Variant(vec![case("err", None), case("ok", Some(Type::U8))])),
    ]);
    assert_eq!(printed(&iface, Type::Id(0), false), "expected<`u32`, `string`>");
    assert_eq!(printed(&iface, Type::Id(1), false), "expected<_, `u8`>");
    assert_eq!(printed(&iface, Type::Id(2), false), "expected<`u8`, _>");
    assert_eq!(printed(&iface, Type::Id(3), false), "expected<_, _>");
    assert_eq!(printed(&iface, Type::Id(4), false), "option<`u8`>");
}

#[test]
fn other_variants_cannot_be_written_inline() {
    let iface = graph(vec![
        anon(TypeDefKind::Variant(vec![case("a", Some(Type::U8)), case("b", Some(Type::U8))])),
        anon(TypeDefKind::Variant(vec![case("a", None)])),
        anon(TypeDefKind::Variant(Vec::new())),
        anon(TypeDefKind::Variant(vec![case("a", None), case("b", None), case("c", None)])),
        named("V", TypeDefKind::Variant(vec![case("a", None), case("b", None), case("c", None)])),
        named("Alias", TypeDefKind::Alias(Type::Id(4))),
        named("Holder", TypeDefKind::Optional(Type::Id(4))),
    ]);
    for i in 0..4 {
        assert!(!iface.can_print(&Type::Id(i), false));
    }
    assert!(iface.can_print(&Type::Id(4), false));
    assert!(!iface.can_print(&Type::Id(4), true));
    assert!(!iface.is_well_formed());
    let mut without_alias = iface.clone();
    without_alias.types.remove(5);
    without_alias.types.truncate(5);
    without_alias.types.drain(0..4);
    assert!(without_alias.is_well_formed());
}

#[test]
fn dangling_references_are_not_well_formed() {
    let out_of_range = graph(vec![named("A", TypeDefKind::Alias(Type::Id(1)))]);
    assert!(!out_of_range.can_print(&Type::Id(1), false));
    assert!(!out_of_range.is_well_formed());
    let unknown_resource = graph(vec![named("H", TypeDefKind::Optional(Type::Handle(0)))]);
    assert!(!unknown_resource.is_well_formed());
    let mut in_function = graph(Vec::new());
    in_function.functions.push(Function {
        docs: no_docs(),
        name: "f".to_string(),
        params: vec![Param { name: "x".to_string(), ty: Type::Id(0) }],
        results: Results::Named(Vec::new()),
    });
    assert!(!in_function.is_well_formed());
    in_function.functions[0].params[0].ty = Type::U8;
    assert!(in_function.is_well_formed());
    in_function.functions[0].results = Results::Anon(Type::Handle(3));
    assert!(!in_function.is_well_formed());
    in_function.functions[0].results =
        Results::Named(vec![Param { name: "r".to_string(), ty: Type::Id(9) }]);
    assert!(!in_function.is_well_formed());
}

#[test]
fn unnamed_garbage_that_nothing_writes_is_ignored() {
    let iface = graph(vec![
        anon(TypeDefKind::List(Type::Id(7))),
        named("A", TypeDefKind::Alias(Type::U8)),
    ]);
    assert!(iface.is_well_formed());
    assert!(!iface.can_print(&Type::Id(0), false));
}

#[test]
fn type_without_a_name_that_holds_itself_is_not_well_formed() {
    let own = graph(vec![
        anon(TypeDefKind::List(Type::Id(0))),
        named("L", TypeDefKind::Alias(Type::Id(0))),
    ]);
    assert!(!own.can_print(&Type::Id(0), false));
    assert!(!own.is_well_formed());
    let pair = graph(vec![
        anon(TypeDefKind::Optional(Type::Id(1))),
        anon(TypeDefKind::Tuple(vec![Type::U8, Type::Id(0)])),
        named("T", TypeDefKind::Future(Type::Id(1))),
    ]);
    assert!(!pair.is_well_formed());
}

#[test]
fn named_types_may_hold_themselves() {
    let iface = graph(vec![
        named(
            "Tree",
            TypeDefKind::Record(vec![Field {
                docs: no_docs(),
                name: "children".to_string(),
                ty: Type::Id(1),
            }]),
        ),
        anon(TypeDefKind::List(Type::Id(0))),
        named("Loop", TypeDefKind::Alias(Type::Id(2))),
    ]);
    assert!(iface.can_print(&Type::Id(0), true));
    assert!(iface.is_well_formed());
    assert_eq!(printed(&iface, Type::Id(0), true), "record<children: list<[`Tree`](#tree)>>");
    assert_eq!(printed(&iface, Type::Id(2), true), "[`Loop`](#loop)");
}

#[test]
fn deepest_nesting_that_the_table_allows() {
    let mut types = Vec::new();
    types.push(anon(TypeDefKind::List(Type::U8)));
    for i in 1..40 {
        types.push(anon(TypeDefKind::Optional(Type::Id(i - 1))));
    }
    let iface = graph(types);
    let text = printed(&iface, Type::Id(39), false);
    assert_eq!(text, format!("{}list<`u8`>{}", "option<".repeat(39), ">".repeat(39)));
}

#[test]
fn documentation_lines_are_trimmed_and_indented() {
    assert_eq!(doc_block("one"), "  one\n");
    assert_eq!(doc_block("one\n"), "  one\n");
    assert_eq!(doc_block("one\ntwo"), "  one\n  two\n");
    assert_eq!(doc_block("  one  \n\t two words \t\n"), "  one\n  two words\n");
    assert_eq!(doc_block("a\r\nb\r\n"), "  a\n  b\n");
    assert_eq!(doc_block("a\n\nb"), "  a\n  \n  b\n");
    assert_eq!(doc_block("\n"), "  \n");
    assert_eq!(doc_block("\n\n"), "  \n  \n");
    assert_eq!(doc_block("   "), "  \n");
    assert_eq!(doc_block("a\n   "), "  a\n  \n");
    assert_eq!(doc_block(""), "");
    assert_eq!(doc_block("\u{a0}x\u{2003}y\u{3000}"), "  x\u{2003}y\n");
    assert_eq!(doc_block("\u{feff}x"), "  \u{feff}x\n");
}

#[test]
fn documentation_matches_lines_and_trim() {
    let samples = [
        "first line\n  second line  \n\n\tthird\r\nfourth\r",
        "\r\n\r\n x \r\n",
        "no newline at all",
        "trailing blank\n \n",
        "a\rb\nc",
    ];
    for text in samples {
        let mut expected = String::new();
        for line in text.lines() {
            expected.push_str("  ");
            expected.push_str(line.trim());
            expected.push('\n');
        }
        assert_eq!(doc_block(text), expected);
    }
}

#[test]
fn absent_documentation_is_nothing() {
    let mut out = String::from("x");
    push_docs(&mut out, &no_docs());
    assert_eq!(out, "x");
}

#[test]
fn decimal_numbers() {
    assert_eq!(decimal(0), "0");
    assert_eq!(decimal(7), "7");
    assert_eq!(decimal(9), "9");
    assert_eq!(decimal(10), "10");
    assert_eq!(decimal(101), "101");
    assert_eq!(decimal(1234567890), "1234567890");
    assert_eq!(decimal(usize::MAX), usize::MAX.to_string());
    let mut out = String::from("n=");
    push_decimal(&mut out, 42);
    assert_eq!(out, "n=42");
}
