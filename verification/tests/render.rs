use wit_abi::anchor::Anchor;
use wit_abi::markdown::{render, Markdown};
use wit_abi::model::{
    Case, Docs, EnumCase, Expected, Field, Flag, Function, Interface, Param, Resource, Results,
    Stream, Type, TypeDef, TypeDefKind, UnionCase,
};
use wit_parser::SizeAlign;

fn no_docs() -> Docs {
    Docs { contents: None }
}

fn docs(text: &str) -> Docs {
    Docs { contents: Some(text.to_string()) }
}

fn named(name: &str, kind: TypeDefKind) -> TypeDef {
    TypeDef { docs: no_docs(), kind, name: Some(name.to_string()) }
}

fn anon(kind: TypeDefKind) -> TypeDef {
    TypeDef { docs: no_docs(), kind, name: None }
}

fn field(name: &str, ty: Type) -> Field {
    Field { docs: no_docs(), name: name.to_string(), ty }
}

fn graph(types: Vec<TypeDef>) -> Interface {
    Interface { types, resources: Vec::new(), functions: Vec::new() }
}

fn outside_def(kind: wit_parser::TypeDefKind) -> wit_parser::TypeDef {
    wit_parser::TypeDef { docs: Default::default(), kind, name: None, foreign_module: None }
}

fn outside_field(name: &str, ty: wit_parser::Type) -> wit_parser::Field {
    wit_parser::Field { docs: Default::default(), name: name.to_string(), ty }
}

/// A calculator filled from the given definitions.
fn sizes_of(kinds: Vec<wit_parser::TypeDefKind>) -> SizeAlign {
    let mut iface = wit_parser::Interface::default();
    for kind in kinds {
        iface.types.alloc(outside_def(kind));
    }
    let mut sizes = SizeAlign::default();
    sizes.fill(&iface);
    sizes
}

/// A calculator that holds size 4 and alignment 4 for each of `n` definitions.
fn flat_sizes(n: usize) -> SizeAlign {
    let mut kinds = Vec::new();
    for _ in 0..n {
        kinds.push(wit_parser::TypeDefKind::Type(wit_parser::Type::U32));
    }
    sizes_of(kinds)
}

fn render_flat(iface: &Interface) -> (String, Vec<Anchor>) {
    assert!(iface.is_well_formed());
    render(iface, flat_sizes(iface.types.len()))
}

fn pairs(entries: &[Anchor]) -> Vec<(String, String)> {
    entries.iter().map(|a| (a.key.clone(), a.target.clone())).collect()
}

fn pair(key: &str, target: &str) -> (String, String) {
    (key.to_string(), target.to_string())
}

fn point() -> Interface {
    graph(vec![named(
        "Point",
        TypeDefKind::Record(vec![field("x", Type::U32), field("y", Type::U32)]),
    )])
}

fn point_sizes() -> SizeAlign {
    sizes_of(vec![wit_parser::TypeDefKind::Record(wit_parser::Record {
        fields: vec![
            outside_field("x", wit_parser::Type::U32),
            outside_field("y", wit_parser::Type::U32),
        ],
    })])
}

const POINT_TEXT: &str = "# Types\n\n## <a href=\"#point\" name=\"point\"></a> `Point`: record\n\n\nSize: 8, Alignment: 4\n\n### Record Fields\n\n- <a href=\"#point.x\" name=\"point.x\"></a> [`x`](#point.x): `u32`\n\n\n- <a href=\"#point.y\" name=\"point.y\"></a> [`y`](#point.y): `u32`\n\n\n";

#[test]
fn point_record_scenario() {
    let iface = point();
    assert!(iface.is_well_formed());
    let (text, hrefs) = render(&iface, point_sizes());
    assert_eq!(text, POINT_TEXT);
    assert!(text.starts_with("# Types\n\n"));
    assert!(text.contains("<a href=\"#point\" name=\"point\"></a>"));
    assert!(text.contains("<a href=\"#point.x\" name=\"point.x\"></a>"));
    assert!(text.contains("<a href=\"#point.y\" name=\"point.y\"></a>"));
    assert!(text.contains("Size: 8, Alignment: 4\n"));
    assert!(!text.contains("# Functions"));
    assert_eq!(
        pairs(&hrefs),
        vec![
            pair("Point", "#point"),
            pair("Point::x", "#point.x"),
            pair("Point::y", "#point.y"),
        ]
    );
}

#[test]
fn rendering_twice_gives_the_same_document() {
    let iface = point();
    let first = render(&iface, point_sizes());
    let second = render(&iface.clone(), point_sizes());
    assert_eq!(first.0, second.0);
    assert_eq!(first.1, second.1);
}

#[test]
fn pass_accumulates_text_and_registry() {
    let iface = point();
    let mut markdown = Markdown::new(point_sizes());
    assert_eq!(markdown.src().as_str(), "");
    assert!(markdown.hrefs().is_empty());
    markdown.process(&iface);
    assert_eq!(markdown.src().as_str(), POINT_TEXT);
    assert_eq!(markdown.hrefs().len(), 3);
    let (text, hrefs) = markdown.finish();
    assert_eq!(text, POINT_TEXT);
    assert_eq!(hrefs[0], Anchor { key: "Point".to_string(), target: "#point".to_string() });
}

#[test]
fn second_pass_repeats_no_banner() {
    let mut iface = point();
    iface.functions.push(Function {
        docs: no_docs(),
        name: "f".to_string(),
        params: Vec::new(),
        results: Results::Anon(Type::Unit),
    });
    let mut markdown = Markdown::new(point_sizes());
    markdown.process(&iface);
    let once = markdown.src().clone();
    markdown.process(&iface);
    let twice = markdown.src().clone();
    assert_eq!(once.matches("# Types\n\n").count(), 1);
    assert_eq!(twice.matches("# Types\n\n").count(), 1);
    assert_eq!(twice.matches("# Functions\n\n").count(), 1);
    assert_eq!(twice.matches("`Point`: record").count(), 2);
    assert_eq!(markdown.hrefs().len(), 8);
}

#[test]
fn anchors_are_the_kebab_case_of_the_name() {
    let iface = graph(vec![named(
        "HelloWorld",
        TypeDefKind::Record(vec![field("firstName", Type::String)]),
    )]);
    let (text, hrefs) = render_flat(&iface);
    assert!(text.contains(
        "## <a href=\"#hello-world\" name=\"hello-world\"></a> `HelloWorld`: record\n"
    ));
    assert!(text.contains(
        "- <a href=\"#hello-world.first-name\" name=\"hello-world.first-name\"></a> [`firstName`](#hello-world.first-name): `string`\n"
    ));
    assert_eq!(
        pairs(&hrefs),
        vec![
            pair("HelloWorld", "#hello-world"),
            pair("HelloWorld::firstName", "#hello-world.first-name"),
        ]
    );
}

#[test]
fn snake_case_names_become_hyphenated() {
    let iface = graph(vec![named("my_type", TypeDefKind::Enum(Vec::new()))]);
    let (text, hrefs) = render_flat(&iface);
    assert!(text.contains("<a href=\"#my-type\" name=\"my-type\"></a> `my_type`: enum"));
    assert_eq!(pairs(&hrefs), vec![pair("my_type", "#my-type")]);
}

#[test]
fn links_point_at_the_registered_target() {
    let iface = graph(vec![
        named("ByteCount", TypeDefKind::Alias(Type::U64)),
        named("Header", TypeDefKind::Record(vec![field("len", Type::Id(0))])),
    ]);
    let (text, hrefs) = render_flat(&iface);
    let target = &hrefs[0].target;
    assert_eq!(hrefs[0].key, "ByteCount");
    assert_eq!(target, "#byte-count");
    assert!(text.contains(&format!("[`len`](#header.len): [`ByteCount`]({})\n", target)));
}

#[test]
fn layout_is_what_the_calculator_holds() {
    let iface = graph(vec![
        named("Small", TypeDefKind::Alias(Type::U8)),
        named(
            "Wide",
            TypeDefKind::Record(vec![
                field("a", Type::U64),
                field("b", Type::U64),
                field("c", Type::U8),
            ]),
        ),
        named("Text", TypeDefKind::Alias(Type::String)),
    ]);
    assert!(iface.is_well_formed());
    let sizes = sizes_of(vec![
        wit_parser::TypeDefKind::Type(wit_parser::Type::U8),
        wit_parser::TypeDefKind::Record(wit_parser::Record {
            fields: vec![
                outside_field("a", wit_parser::Type::U64),
                outside_field("b", wit_parser::Type::U64),
                outside_field("c", wit_parser::Type::U8),
            ],
        }),
        wit_parser::TypeDefKind::Type(wit_parser::Type::String),
    ]);
    let (text, _) = render(&iface, sizes);
    assert!(text.contains("`Small`: `u8`\n\n\nSize: 1, Alignment: 1\n\n"));
    assert!(text.contains("`Wide`: record\n\n\nSize: 24, Alignment: 8\n\n### Record Fields"));
    assert!(text.contains("`Text`: `string`\n\n\nSize: 8, Alignment: 4\n\n"));
}

#[test]
fn layout_follows_the_calculator_not_the_graph() {
    let iface = point();
    let (four, _) = render(&iface, flat_sizes(1));
    let (eight, _) = render(&iface, point_sizes());
    assert!(four.contains("Size: 4, Alignment: 4\n"));
    assert!(eight.contains("Size: 8, Alignment: 4\n"));
    assert_eq!(four.replace("Size: 4,", "Size: 8,"), eight);
}

#[test]
fn large_layout_is_written_in_decimal() {
    let mut fields = Vec::new();
    let mut outside = Vec::new();
    for i in 0..130 {
        fields.push(field(&format!("f{}", i), Type::U64));
        outside.push(outside_field(&format!("f{}", i), wit_parser::Type::U64));
    }
    let iface = graph(vec![named("Big", TypeDefKind::Record(fields))]);
    assert!(iface.is_well_formed());
    let sizes = sizes_of(vec![wit_parser::TypeDefKind::Record(wit_parser::Record {
        fields: outside,
    })]);
    let (text, hrefs) = render(&iface, sizes);
    assert!(text.contains("\nSize: 1040, Alignment: 8\n"));
    assert_eq!(hrefs.len(), 131);
}

#[test]
fn empty_graph_renders_nothing() {
    let iface = graph(Vec::new());
    let (text, hrefs) = render_flat(&iface);
    assert_eq!(text, "");
    assert!(hrefs.is_empty());
}

#[test]
fn no_types_banner_without_named_types() {
    let mut iface = graph(vec![anon(TypeDefKind::List(Type::U8))]);
    iface.functions.push(Function {
        docs: no_docs(),
        name: "get".to_string(),
        params: Vec::new(),
        results: Results::Anon(Type::Id(0)),
    });
    let (text, hrefs) = render_flat(&iface);
    assert!(!text.contains("# Types"));
    assert_eq!(
        text,
        "# Functions\n\n----\n\n#### <a href=\"#get\" name=\"get\"></a> `get` \n\n##### Result\n\n- list<`u8`>\n\n"
    );
    assert_eq!(pairs(&hrefs), vec![pair("get", "#get")]);
}

#[test]
fn no_functions_banner_without_functions() {
    let iface = graph(vec![named("A", TypeDefKind::Alias(Type::Bool))]);
    let (text, _) = render_flat(&iface);
    assert!(!text.contains("# Functions"));
    assert_eq!(
        text,
        "# Types\n\n## <a href=\"#a\" name=\"a\"></a> `A`: `bool`\n\n\nSize: 4, Alignment: 4\n\n"
    );
}

#[test]
fn banners_stand_once_before_the_first_item() {
    let mut iface = graph(vec![
        named("A", TypeDefKind::Alias(Type::Bool)),
        anon(TypeDefKind::List(Type::U8)),
        named("B", TypeDefKind::Alias(Type::Id(1))),
    ]);
    for name in ["f", "g"] {
        iface.functions.push(Function {
            docs: no_docs(),
            name: name.to_string(),
            params: Vec::new(),
            results: Results::Named(Vec::new()),
        });
    }
    let (text, hrefs) = render_flat(&iface);
    assert_eq!(
        text,
        "# Types\n\n## <a href=\"#a\" name=\"a\"></a> `A`: `bool`\n\n\nSize: 4, Alignment: 4\n\n## <a href=\"#b\" name=\"b\"></a> `B`: list<`u8`>\n\n\nSize: 4, Alignment: 4\n\n# Functions\n\n----\n\n#### <a href=\"#f\" name=\"f\"></a> `f` \n\n##### Results\n\n\n----\n\n#### <a href=\"#g\" name=\"g\"></a> `g` \n\n##### Results\n\n\n"
    );
    assert_eq!(
        pairs(&hrefs),
        vec![pair("A", "#a"), pair("B", "#b"), pair("f", "#f"), pair("g", "#g")]
    );
}

#[test]
fn function_with_params_and_one_result() {
    let mut iface = graph(vec![named("Point", TypeDefKind::Tuple(vec![Type::S32, Type::S32]))]);
    iface.functions.push(Function {
        docs: docs("Moves a point.\n"),
        name: "movePoint".to_string(),
        params: vec![
            Param { name: "from".to_string(), ty: Type::Id(0) },
            Param { name: "byHowMuch".to_string(), ty: Type::Float32 },
        ],
        results: Results::Anon(Type::Id(0)),
    });
    let (text, hrefs) = render_flat(&iface);
    let block = "# Functions\n\n----\n\n#### <a href=\"#move-point\" name=\"move-point\"></a> `movePoint` \n\n  Moves a point.\n##### Params\n\n- <a href=\"#move-point.from\" name=\"move-point.from\"></a> `from`: [`Point`](#point)\n- <a href=\"#move-point.by-how-much\" name=\"move-point.by-how-much\"></a> `byHowMuch`: `float32`\n##### Result\n\n- [`Point`](#point)\n\n";
    assert!(text.ends_with(block));
    assert_eq!(pairs(&hrefs), vec![pair("Point", "#point"), pair("movePoint", "#move-point")]);
}

#[test]
fn function_with_named_results() {
    let mut iface = graph(Vec::new());
    iface.functions.push(Function {
        docs: no_docs(),
        name: "div".to_string(),
        params: vec![Param { name: "a".to_string(), ty: Type::U32 }],
        results: Results::Named(vec![
            Param { name: "quot".to_string(), ty: Type::U32 },
            Param { name: "rem".to_string(), ty: Type::U32 },
        ]),
    });
    let (text, _) = render_flat(&iface);
    assert_eq!(
        text,
        "# Functions\n\n----\n\n#### <a href=\"#div\" name=\"div\"></a> `div` \n\n##### Params\n\n- <a href=\"#div.a\" name=\"div.a\"></a> `a`: `u32`\n##### Results\n\n- <a href=\"#div.quot\" name=\"div.quot\"></a> `quot`: `u32`\n- <a href=\"#div.rem\" name=\"div.rem\"></a> `rem`: `u32`\n\n"
    );
}

#[test]
fn tuple_section() {
    let iface = graph(vec![named("Pair", TypeDefKind::Tuple(vec![Type::U8, Type::Char]))]);
    let (text, hrefs) = render_flat(&iface);
    assert_eq!(
        text,
        "# Types\n\n## <a href=\"#pair\" name=\"pair\"></a> `Pair`: tuple\n\n\nSize: 4, Alignment: 4\n\n### Tuple Types\n\n- `u8`\n- `char`\n"
    );
    assert_eq!(pairs(&hrefs), vec![pair("Pair", "#pair")]);
}

#[test]
fn flags_section_numbers_the_bits() {
    let iface = graph(vec![TypeDef {
        docs: docs("Access rights."),
        kind: TypeDefKind::Flags(vec![
            Flag { docs: docs("May read."), name: "read".to_string() },
            Flag { docs: no_docs(), name: "write".to_string() },
        ]),
        name: Some("Rights".to_string()),
    }]);
    let (text, hrefs) = render_flat(&iface);
    assert_eq!(
        text,
        "# Types\n\n## <a href=\"#rights\" name=\"rights\"></a> `Rights`: flags\n\n  Access rights.\n\nSize: 4, Alignment: 4\n\n### Flags Fields\n\n- <a href=\"#rights.read\" name=\"rights.read\"></a> [`read`](#rights.read)\n\n  May read.\nBit: 0\n\n- <a href=\"#rights.write\" name=\"rights.write\"></a> [`write`](#rights.write)\n\nBit: 1\n\n"
    );
    assert_eq!(
        pairs(&hrefs),
        vec![
            pair("Rights", "#rights"),
            pair("Rights::read", "#rights.read"),
            pair("Rights::write", "#rights.write"),
        ]
    );
}

#[test]
fn record_of_booleans_numbers_the_bits() {
    let iface = graph(vec![named(
        "Mode",
        TypeDefKind::Record(vec![field("fast", Type::Bool), field("safe", Type::Bool)]),
    )]);
    let (text, _) = render_flat(&iface);
    assert_eq!(
        text,
        "# Types\n\n## <a href=\"#mode\" name=\"mode\"></a> `Mode`: record\n\n\nSize: 4, Alignment: 4\n\n### Record Fields\n\n- <a href=\"#mode.fast\" name=\"mode.fast\"></a> [`fast`](#mode.fast): `bool`\n\nBit: 0\n\n- <a href=\"#mode.safe\" name=\"mode.safe\"></a> [`safe`](#mode.safe): `bool`\n\nBit: 1\n\n"
    );
}

#[test]
fn record_with_another_field_has_no_bits() {
    let iface = graph(vec![named(
        "Mode",
        TypeDefKind::Record(vec![field("fast", Type::Bool), field("level", Type::U8)]),
    )]);
    let (text, _) = render_flat(&iface);
    assert!(!text.contains("Bit:"));
    let empty = graph(vec![named("Nothing", TypeDefKind::Record(Vec::new()))]);
    let (text, hrefs) = render_flat(&empty);
    assert!(text.ends_with("### Record Fields\n\n"));
    assert_eq!(hrefs.len(), 1);
}

#[test]
fn variant_section_lists_cases_and_payloads() {
    let iface = graph(vec![named(
        "Shape",
        TypeDefKind::Variant(vec![
            Case { docs: docs("A circle."), name: "circle".to_string(), ty: Some(Type::Float64) },
            Case { docs: no_docs(), name: "none".to_string(), ty: None },
        ]),
    )]);
    let (text, hrefs) = render_flat(&iface);
    assert_eq!(
        text,
        "# Types\n\n## <a href=\"#shape\" name=\"shape\"></a> `Shape`: variant\n\n\nSize: 4, Alignment: 4\n\n### Variant Cases\n\n- <a href=\"#shape.circle\" name=\"shape.circle\"></a> [`circle`](#shape.circle): `float64`\n\n  A circle.\n\n- <a href=\"#shape.none\" name=\"shape.none\"></a> [`none`](#shape.none)\n\n\n"
    );
    assert_eq!(
        pairs(&hrefs),
        vec![
            pair("Shape", "#shape"),
            pair("Shape::circle", "#shape.circle"),
            pair("Shape::none", "#shape.none"),
        ]
    );
}

#[test]
fn enum_section() {
    let iface = graph(vec![named(
        "Color",
        TypeDefKind::Enum(vec![
            EnumCase { docs: no_docs(), name: "red".to_string() },
            EnumCase { docs: docs("Like grass."), name: "green".to_string() },
        ]),
    )]);
    let (text, hrefs) = render_flat(&iface);
    assert_eq!(
        text,
        "# Types\n\n## <a href=\"#color\" name=\"color\"></a> `Color`: enum\n\n\nSize: 4, Alignment: 4\n\n### Enum Cases\n\n- <a href=\"#color.red\" name=\"color.red\"></a> [`red`](#color.red)\n\n\n- <a href=\"#color.green\" name=\"color.green\"></a> [`green`](#color.green)\n\n  Like grass.\n\n"
    );
    assert_eq!(hrefs.len(), 3);
}

#[test]
fn union_section() {
    let iface = graph(vec![named(
        "Number",
        TypeDefKind::Union(vec![
            UnionCase { docs: docs("whole"), ty: Type::S64 },
            UnionCase { docs: no_docs(), ty: Type::Float64 },
        ]),
    )]);
    let (text, hrefs) = render_flat(&iface);
    assert_eq!(
        text,
        "# Types\n\n## <a href=\"#number\" name=\"number\"></a> `Number`: union\n\n\nSize: 4, Alignment: 4\n\n### Union Cases\n\n- `s64`\n\n  whole\n\n- `float64`\n\n\n"
    );
    assert_eq!(pairs(&hrefs), vec![pair("Number", "#number")]);
}

#[test]
fn option_and_future_sections() {
    let iface = graph(vec![
        named("Maybe", TypeDefKind::Optional(Type::U16)),
        named("Later", TypeDefKind::Future(Type::Id(0))),
    ]);
    let (text, _) = render_flat(&iface);
    assert_eq!(
        text,
        "# Types\n\n## <a href=\"#maybe\" name=\"maybe\"></a> `Maybe`: option\n\n\nSize: 4, Alignment: 4\n\n### Option\n\n- `u16`\n\n## <a href=\"#later\" name=\"later\"></a> `Later`: future\n\n\nSize: 4, Alignment: 4\n\n### Future\n\n- [`Maybe`](#maybe)\n\n"
    );
}

#[test]
fn expected_and_stream_sections() {
    let iface = graph(vec![
        named("Outcome", TypeDefKind::Expected(Expected { ok: Some(Type::U32), err: None })),
        named("Bytes", TypeDefKind::Stream(Stream { element: Type::U8, end: Type::Unit })),
    ]);
    let (text, _) = render_flat(&iface);
    assert_eq!(
        text,
        "# Types\n\n## <a href=\"#outcome\" name=\"outcome\"></a> `Outcome`: expected\n\n\nSize: 4, Alignment: 4\n\n### Expected\n\n- ok: `u32`\n- err: _\n\n## <a href=\"#bytes\" name=\"bytes\"></a> `Bytes`: stream\n\n\nSize: 4, Alignment: 4\n\n### Stream\n\n- ok: `u8`\n- err: `unit`\n\n"
    );
}

#[test]
fn alias_writes_its_target_out() {
    let iface = graph(vec![
        named("Point", TypeDefKind::Record(vec![field("x", Type::U32), field("y", Type::Id(2))])),
        named("Place", TypeDefKind::Alias(Type::Id(0))),
        named("Coord", TypeDefKind::Alias(Type::S32)),
    ]);
    let (text, _) = render_flat(&iface);
    assert!(text.contains(
        "`Place`: record<x: `u32`, y: [`Coord`](#coord)>\n\n\nSize: 4, Alignment: 4\n\n"
    ));
    assert!(text.contains("`Coord`: `s32`\n\n\nSize: 4, Alignment: 4\n\n"));
}

#[test]
fn documentation_stands_between_label_and_layout() {
    let iface = graph(vec![TypeDef {
        docs: docs("  A point.  \n\n\tIn the plane.\r\n"),
        kind: TypeDefKind::Alias(Type::U32),
        name: Some("P".to_string()),
    }]);
    let (text, _) = render_flat(&iface);
    assert_eq!(
        text,
        "# Types\n\n## <a href=\"#p\" name=\"p\"></a> `P`: `u32`\n\n  A point.\n  \n  In the plane.\n\nSize: 4, Alignment: 4\n\n"
    );
}

#[test]
fn lookup_finds_the_target_of_a_key() {
    let iface = graph(vec![
        named("Point", TypeDefKind::Record(vec![field("x", Type::U32)])),
        named("Color", TypeDefKind::Enum(vec![EnumCase { docs: no_docs(), name: "red".to_string() }])),
    ]);
    let (_, hrefs) = render_flat(&iface);
    assert_eq!(wit_abi::anchor::lookup(&hrefs, "Point"), Some(&"#point".to_string()));
    assert_eq!(wit_abi::anchor::lookup(&hrefs, "Point::x"), Some(&"#point.x".to_string()));
    assert_eq!(wit_abi::anchor::lookup(&hrefs, "Color::red"), Some(&"#color.red".to_string()));
    assert_eq!(wit_abi::anchor::lookup(&hrefs, "Color::blue"), None);
    assert_eq!(wit_abi::anchor::lookup(&hrefs, "point"), None);
    assert_eq!(wit_abi::anchor::lookup(&Vec::new(), "Point"), None);
}

#[test]
fn lookup_takes_the_entry_made_last() {
    let entries = vec![
        Anchor { key: "a".to_string(), target: "#first".to_string() },
        Anchor { key: "b".to_string(), target: "#other".to_string() },
        Anchor { key: "a".to_string(), target: "#second".to_string() },
    ];
    assert_eq!(wit_abi::anchor::lookup(&entries, "a"), Some(&"#second".to_string()));
    assert_eq!(wit_abi::anchor::lookup(&entries, "b"), Some(&"#other".to_string()));
}

#[test]
fn every_member_has_one_entry_and_one_registry_entry() {
    let mut cases = Vec::new();
    for i in 0..12 {
        cases.push(Case { docs: no_docs(), name: format!("c{}", i), ty: None });
    }
    let iface = graph(vec![named("Many", TypeDefKind::Variant(cases))]);
    let (text, hrefs) = render_flat(&iface);
    assert_eq!(text.matches("\n- <a href=\"#many.c").count(), 12);
    assert_eq!(hrefs.len(), 13);
    for i in 0..12 {
        assert_eq!(hrefs[i + 1].key, format!("Many::c{}", i));
        assert_eq!(hrefs[i + 1].target, format!("#many.c{}", i));
    }
}
