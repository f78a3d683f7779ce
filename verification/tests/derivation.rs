use schema_derive::derive_enum::{
    derive_enum, derive_newtype_variant, derive_struct_variant, derive_tuple_variant,
    derive_unit_variant, derive_variant, tag_object,
};
use schema_derive::derive_struct::{
    derive_struct, derive_struct_named_fields, derive_struct_newtype, derive_struct_tuple,
    derive_struct_unit,
};
use schema_derive::mapper::Env;
use schema_derive::member::{
    derive_element, derive_field, derive_register_field_types, resolve_one, ResolvedMember,
};
use schema_derive::registry::TypeScope;
use schema_derive::schema::{FieldNode, PrimitiveKind, SchemaNode, SchemaTypeId, VariantNode};
use schema_derive::shape::{
    check_arity, check_variants, ContainerShape, Member, Name, ShapeData, Style, TypeRef,
    VariantShape,
};
use schema_derive::{
    derive_container, derive_schema_serialize, derive_typescript_definition, Session,
};

const BOOLEAN: SchemaTypeId = SchemaTypeId::Primitive(PrimitiveKind::Bool);
const STRING: SchemaTypeId = SchemaTypeId::Primitive(PrimitiveKind::Str);
const INT64: SchemaTypeId = SchemaTypeId::Primitive(PrimitiveKind::I64);
const UNKNOWN: SchemaTypeId = SchemaTypeId::Primitive(PrimitiveKind::Unit);

fn resolved(name: &str, id: SchemaTypeId, token: &str) -> ResolvedMember {
    ResolvedMember { name: name.to_string(), id, token: token.to_string() }
}

fn container(name: Name, style: Style, members: Vec<Member>) -> ContainerShape {
    ContainerShape { name, data: ShapeData::Struct { style, members } }
}

fn node_at(session: &Session, index: usize) -> SchemaNode {
    session.registry.lookup(SchemaTypeId::Custom(index)).unwrap().clone()
}

// ---- whole shapes ----

#[test]
fn unit_container_is_an_empty_object() {
    let (annotation, node) = derive_struct_unit("Unit");
    assert_eq!(annotation, "{}");
    assert_eq!(node, SchemaNode::UnitStruct { name: "Unit".to_string() });
}

#[test]
fn newtype_of_signed_64_is_a_number() {
    let members = vec![resolved("0", INT64, "number")];
    let (annotation, node) = derive_struct_newtype("Newtype", &members);
    assert_eq!(annotation, "number");
    assert_eq!(node, SchemaNode::NewtypeStruct { name: "Newtype".to_string(), inner: INT64 });
}

#[test]
fn tuple_of_integer_and_text() {
    let members = vec![resolved("0", INT64, "number"), resolved("1", STRING, "string")];
    let (annotation, node) = derive_struct_tuple("Tuple", &members);
    assert_eq!(annotation, "[number, string]");
    assert_eq!(
        node,
        SchemaNode::TupleStruct { name: "Tuple".to_string(), elements: vec![INT64, STRING] }
    );
}

#[test]
fn named_fields_are_known_by_their_overrides() {
    let shape = container(
        Name::plain("Point"),
        Style::Struct,
        vec![
            Member::renamed("x", "X", TypeRef::named("i32")),
            Member::renamed("y", "Y", TypeRef::named("i32")),
        ],
    );
    let mut session = Session::new(false);
    let derived = derive_schema_serialize(&shape, &mut session).unwrap();
    assert_eq!(derived.annotation, "{\"X\": number, \"Y\": number}");
    match node_at(&session, 0) {
        SchemaNode::Struct { fields, .. } => {
            let names: Vec<&str> = fields.iter().map(|f| f.name.as_str()).collect();
            assert_eq!(names, vec!["X", "Y"]);
            assert!(!names.contains(&"x"));
            assert!(!names.contains(&"y"));
        }
        other => panic!("not a struct node: {:?}", other),
    }
}

#[test]
fn three_unit_variants_in_declared_order() {
    let variants: Vec<VariantShape> = ["V1", "V2", "V3"]
        .iter()
        .map(|v| VariantShape { name: Name::plain(v), style: Style::Unit, members: vec![] })
        .collect();
    let scope = TypeScope::new();
    let env = Env { scope: &scope, own_name: "E", own_id: SchemaTypeId::Custom(0), bytes: false };
    let (annotation, node) = derive_enum("E", &variants, &env).unwrap();
    assert_eq!(annotation, "{\"tag\":\"V1\"} | {\"tag\":\"V2\"} | {\"tag\":\"V3\"}");
    assert_eq!(
        node,
        SchemaNode::Enum {
            name: "E".to_string(),
            variants: vec![
                VariantNode::Unit { name: "V1".to_string() },
                VariantNode::Unit { name: "V2".to_string() },
                VariantNode::Unit { name: "V3".to_string() },
            ],
        }
    );
}

#[test]
fn struct_variant_with_renamed_boolean() {
    let members = vec![resolved("Foo", BOOLEAN, "boolean")];
    let builder = SchemaNode::build().enum_type("E", 1);
    let (fragment, builder) = derive_struct_variant("V1", &members, builder);
    assert_eq!(fragment, "{\"tag\":\"V1\",\"fields\":{\"Foo\": boolean}}");
    assert_eq!(
        builder.end(),
        SchemaNode::Enum {
            name: "E".to_string(),
            variants: vec![VariantNode::Struct {
                name: "V1".to_string(),
                fields: vec![FieldNode { name: "Foo".to_string(), id: BOOLEAN }],
            }],
        }
    );
}

// ---- handlers ----

#[test]
fn member_contributions() {
    let member = resolved("X", INT64, "number");
    let (fragment, field) = derive_field(&member);
    assert_eq!(fragment, "\"X\": number");
    assert_eq!(field, FieldNode { name: "X".to_string(), id: INT64 });
    let (token, id) = derive_element(&member);
    assert_eq!(token, "number");
    assert_eq!(id, INT64);
}

#[test]
fn field_fragment_escapes_the_key() {
    let member = resolved("a\"b", STRING, "string");
    assert_eq!(derive_field(&member).0, "\"a\\\"b\": string");
}

#[test]
fn members_resolve_in_declaration_order() {
    let scope = TypeScope::new();
    let env = Env { scope: &scope, own_name: "T", own_id: SchemaTypeId::Custom(4), bytes: false };
    let members = vec![
        Member::new("a", TypeRef::named("bool")),
        Member::renamed("b", "B", TypeRef::named("T")),
        Member::new("c", TypeRef::named("Missing")),
    ];
    let all = derive_register_field_types(&members, &env);
    let seen: Vec<(String, SchemaTypeId, String)> =
        all.into_iter().map(|m| (m.name, m.id, m.token)).collect();
    assert_eq!(
        seen,
        vec![
            ("a".to_string(), BOOLEAN, "boolean".to_string()),
            ("B".to_string(), SchemaTypeId::Custom(4), "T".to_string()),
            ("c".to_string(), UNKNOWN, "any".to_string()),
        ]
    );
    let one = resolve_one(&members[1], &env);
    assert_eq!(
        (one.name.as_str(), one.id, one.token.as_str()),
        ("B", SchemaTypeId::Custom(4), "T")
    );
    assert!(derive_register_field_types(&vec![], &env).is_empty());
}

#[test]
fn unresolved_members_can_be_told() {
    assert!(resolved("a", UNKNOWN, "any").is_unknown());
    assert!(!resolved("a", UNKNOWN, "number?").is_unknown());
    assert!(!resolved("a", UNKNOWN, "Array<any>").is_unknown());
    assert!(!resolved("a", INT64, "number").is_unknown());
    assert!(!resolved("a", SchemaTypeId::Primitive(PrimitiveKind::Bytes), "any").is_unknown());
    assert!(!resolved("a", SchemaTypeId::Custom(0), "any").is_unknown());
    let scope = TypeScope::new();
    let env = Env { scope: &scope, own_name: "T", own_id: SchemaTypeId::Custom(0), bytes: false };
    assert!(resolve_one(&Member::new("m", TypeRef::named("Missing")), &env).is_unknown());
    assert!(resolve_one(&Member::new("m", TypeRef::Tuple), &env).is_unknown());
    assert!(!resolve_one(&Member::new("m", TypeRef::named("T")), &env).is_unknown());
}

#[test]
fn named_fields_handler() {
    let members = vec![resolved("a", INT64, "number"), resolved("b", STRING, "string")];
    let (annotation, node) = derive_struct_named_fields("S", &members);
    assert_eq!(annotation, "{\"a\": number, \"b\": string}");
    assert_eq!(
        node,
        SchemaNode::build().struct_type("S", 2).field("a", INT64).field("b", STRING).end()
    );
    let (annotation, node) = derive_struct_named_fields("Empty", &vec![]);
    assert_eq!(annotation, "{}");
    assert_eq!(node, SchemaNode::Struct { name: "Empty".to_string(), fields: vec![] });
}

#[test]
fn variant_handlers() {
    let builder = SchemaNode::build().enum_type("E", 4);
    let (unit, builder) = derive_unit_variant("A", builder);
    let (newtype, builder) =
        derive_newtype_variant("B", &vec![resolved("0", BOOLEAN, "boolean")], builder);
    let (tuple, builder) = derive_tuple_variant(
        "C",
        &vec![resolved("0", INT64, "number"), resolved("1", STRING, "string")],
        builder,
    );
    let (named, builder) = derive_struct_variant(
        "D",
        &vec![resolved("x", INT64, "number"), resolved("Y", STRING, "string")],
        builder,
    );
    assert_eq!(unit, "{\"tag\":\"A\"}");
    assert_eq!(newtype, "{\"tag\":\"B\",\"fields\":boolean}");
    assert_eq!(tuple, "{\"tag\":\"C\",\"fields\":[number, string]}");
    assert_eq!(named, "{\"tag\":\"D\",\"fields\":{\"x\": number, \"Y\": string}}");
    assert_eq!(
        builder.end(),
        SchemaNode::Enum {
            name: "E".to_string(),
            variants: vec![
                VariantNode::Unit { name: "A".to_string() },
                VariantNode::Newtype { name: "B".to_string(), inner: BOOLEAN },
                VariantNode::Tuple { name: "C".to_string(), elements: vec![INT64, STRING] },
                VariantNode::Struct {
                    name: "D".to_string(),
                    fields: vec![
                        FieldNode { name: "x".to_string(), id: INT64 },
                        FieldNode { name: "Y".to_string(), id: STRING },
                    ],
                },
            ],
        }
    );
}

#[test]
fn tag_object_forms() {
    assert_eq!(tag_object("V", None), "{\"tag\":\"V\"}");
    assert_eq!(tag_object("V", Some("number")), "{\"tag\":\"V\",\"fields\":number}");
    assert_eq!(tag_object("a\"b", None), "{\"tag\":\"a\\\"b\"}");
}

#[test]
fn derive_variant_dispatches_on_style() {
    let scope = TypeScope::new();
    let env = Env { scope: &scope, own_name: "E", own_id: SchemaTypeId::Custom(0), bytes: false };
    let variant = VariantShape {
        name: Name::renamed("v", "V"),
        style: Style::Tuple,
        members: vec![
            Member::new("0", TypeRef::named("u8")),
            Member::new("1", TypeRef::named("E")),
        ],
    };
    let (fragment, builder) = derive_variant(&variant, &env, SchemaNode::build().enum_type("E", 1));
    assert_eq!(fragment, "{\"tag\":\"V\",\"fields\":[number, E]}");
    assert_eq!(
        builder.end(),
        SchemaNode::Enum {
            name: "E".to_string(),
            variants: vec![VariantNode::Tuple {
                name: "V".to_string(),
                elements: vec![SchemaTypeId::Primitive(PrimitiveKind::U8), SchemaTypeId::Custom(0)],
            }],
        }
    );
}

#[test]
fn derive_struct_dispatches_on_style() {
    let scope = TypeScope::new();
    let env = Env { scope: &scope, own_name: "S", own_id: SchemaTypeId::Custom(0), bytes: false };
    let one = vec![Member::new("0", TypeRef::named("bool"))];
    assert_eq!(derive_struct("S", Style::Unit, &vec![], &env).unwrap().0, "{}");
    assert_eq!(derive_struct("S", Style::Newtype, &one, &env).unwrap().0, "boolean");
    assert_eq!(derive_struct("S", Style::Tuple, &one, &env).unwrap().0, "boolean");
    assert_eq!(derive_struct("S", Style::Struct, &one, &env).unwrap().0, "{\"0\": boolean}");
    assert_eq!(
        derive_struct("S", Style::Tuple, &one, &env).unwrap().1,
        SchemaNode::TupleStruct { name: "S".to_string(), elements: vec![BOOLEAN] }
    );
    assert_eq!(
        derive_struct("S", Style::Newtype, &one, &env).unwrap().1,
        SchemaNode::NewtypeStruct { name: "S".to_string(), inner: BOOLEAN }
    );
}

// ---- edge cases ----

#[test]
fn tuple_without_elements() {
    let (annotation, node) = derive_struct_tuple("T", &vec![]);
    assert_eq!(annotation, "[]");
    assert_eq!(node, SchemaNode::TupleStruct { name: "T".to_string(), elements: vec![] });
}

#[test]
fn enum_without_variants() {
    let shape =
        ContainerShape { name: Name::plain("Never"), data: ShapeData::Enum { variants: vec![] } };
    assert!(shape.has_valid_arity());
    let mut session = Session::new(false);
    let derived = derive_schema_serialize(&shape, &mut session).unwrap();
    assert_eq!(derived.annotation, "");
    assert_eq!(node_at(&session, 0), SchemaNode::build().enum_type("Never", 0).end());
}

#[test]
fn enum_with_one_variant_has_no_separator() {
    let shape = ContainerShape {
        name: Name::plain("One"),
        data: ShapeData::Enum {
            variants: vec![VariantShape {
                name: Name::plain("A"),
                style: Style::Unit,
                members: vec![],
            }],
        },
    };
    let mut session = Session::new(false);
    let derived = derive_schema_serialize(&shape, &mut session).unwrap();
    assert_eq!(derived.annotation, "{\"tag\":\"A\"}");
}

#[test]
fn container_override_names_the_node() {
    let shape = container(Name::renamed("Inner", "Outer"), Style::Unit, vec![]);
    let mut session = Session::new(false);
    derive_schema_serialize(&shape, &mut session).unwrap();
    assert_eq!(node_at(&session, 0), SchemaNode::UnitStruct { name: "Outer".to_string() });
    // the type is known by its declared identifier
    assert_eq!(session.scope.lookup("Inner"), Some(SchemaTypeId::Custom(0)));
    assert_eq!(session.scope.lookup("Outer"), None);
}

#[test]
fn self_reference_resolves_to_the_own_identifier() {
    let shape = container(
        Name::plain("Node"),
        Style::Struct,
        vec![
            Member::new("value", TypeRef::named("u32")),
            Member::new("next", TypeRef::named("Node")),
            Member::new("rest", TypeRef::Slice(Box::new(TypeRef::named("Node")))),
        ],
    );
    let mut session = Session::new(false);
    session.registry.register(SchemaNode::build().unit_struct_type("Earlier"));
    let derived = derive_schema_serialize(&shape, &mut session).unwrap();
    assert_eq!(derived.id, SchemaTypeId::Custom(1));
    assert_eq!(derived.annotation, "{\"value\": number, \"next\": Node, \"rest\": Array<Node>}");
    assert_eq!(
        node_at(&session, 1),
        SchemaNode::build()
            .struct_type("Node", 3)
            .field("value", SchemaTypeId::Primitive(PrimitiveKind::U32))
            .field("next", SchemaTypeId::Custom(1))
            .field("rest", UNKNOWN)
            .end()
    );
}

#[test]
fn nested_type_is_referred_to_by_identifier_and_name() {
    let inner = container(
        Name::plain("Inner"),
        Style::Newtype,
        vec![Member::new("0", TypeRef::named("bool"))],
    );
    let outer = container(
        Name::plain("Outer"),
        Style::Tuple,
        vec![Member::new("0", TypeRef::named("Inner")), Member::new("1", TypeRef::named("Later"))],
    );
    let mut session = Session::new(false);
    let first = derive_schema_serialize(&inner, &mut session).unwrap();
    let second = derive_schema_serialize(&outer, &mut session).unwrap();
    assert_eq!(first.id, SchemaTypeId::Custom(0));
    assert_eq!(second.id, SchemaTypeId::Custom(1));
    // the nested type is not inlined, a type not yet known degrades to any
    assert_eq!(second.annotation, "[Inner, any]");
    assert_eq!(
        node_at(&session, 1),
        SchemaNode::build().tuple_struct_type("Outer", 2).element(first.id).element(UNKNOWN).end()
    );
    assert_eq!(session.registry.len(), 2);
}

#[test]
fn unresolvable_member_does_not_abort() {
    let shape = container(
        Name::plain("S"),
        Style::Struct,
        vec![Member::new("a", TypeRef::Macro), Member::new("b", TypeRef::named("i8"))],
    );
    let mut session = Session::new(false);
    let derived = derive_schema_serialize(&shape, &mut session).unwrap();
    assert_eq!(derived.annotation, "{\"a\": any, \"b\": number}");
    assert_eq!(
        node_at(&session, 0),
        SchemaNode::build()
            .struct_type("S", 2)
            .field("a", UNKNOWN)
            .field("b", SchemaTypeId::Primitive(PrimitiveKind::I8))
            .end()
    );
}

#[test]
fn bytes_flag_of_the_session() {
    let shape = container(
        Name::plain("B"),
        Style::Newtype,
        vec![Member::new("0", TypeRef::named("ByteBuf"))],
    );
    let mut with = Session::new(true);
    let mut without = Session::new(false);
    assert_eq!(derive_schema_serialize(&shape, &mut with).unwrap().annotation, "any");
    assert_eq!(derive_schema_serialize(&shape, &mut without).unwrap().annotation, "any");
    assert_eq!(
        node_at(&with, 0),
        SchemaNode::NewtypeStruct {
            name: "B".to_string(),
            inner: SchemaTypeId::Primitive(PrimitiveKind::Bytes),
        }
    );
    assert_eq!(
        node_at(&without, 0),
        SchemaNode::NewtypeStruct { name: "B".to_string(), inner: UNKNOWN }
    );
    assert!(with.bytes);
    assert!(!without.bytes);
}

#[test]
fn annotation_alone_needs_no_registry() {
    let shape = container(
        Name::plain("Pair"),
        Style::Struct,
        vec![
            Member::new("left", TypeRef::named("Pair")),
            Member::new("right", TypeRef::named("Other")),
            Member::new("odd", TypeRef::named("Unknown")),
        ],
    );
    let mut scope = TypeScope::new();
    scope.bind("Other", SchemaTypeId::Custom(11));
    assert_eq!(
        derive_typescript_definition(&shape, &scope, false).unwrap(),
        "{\"left\": Pair, \"right\": Other, \"odd\": any}"
    );
}

#[test]
fn derive_container_gives_both_outputs() {
    let shape = container(
        Name::plain("N"),
        Style::Newtype,
        vec![Member::new("0", TypeRef::named("String"))],
    );
    let scope = TypeScope::new();
    let env = Env { scope: &scope, own_name: "N", own_id: SchemaTypeId::Custom(0), bytes: false };
    let (annotation, node) = derive_container(&shape, &env).unwrap();
    assert_eq!(annotation, "string");
    assert_eq!(node, SchemaNode::NewtypeStruct { name: "N".to_string(), inner: STRING });
}

// ---- arity ----

#[test]
fn arity_follows_the_style() {
    assert!(check_arity(Style::Unit, 0));
    assert!(!check_arity(Style::Unit, 1));
    assert!(check_arity(Style::Newtype, 1));
    assert!(!check_arity(Style::Newtype, 0));
    assert!(!check_arity(Style::Newtype, 2));
    assert!(check_arity(Style::Tuple, 0));
    assert!(check_arity(Style::Tuple, 5));
    assert!(check_arity(Style::Struct, 0));
    assert!(check_arity(Style::Struct, 5));
}

#[test]
fn malformed_shapes_are_told_apart() {
    let two =
        || vec![Member::new("0", TypeRef::named("u8")), Member::new("1", TypeRef::named("u8"))];
    assert!(!container(Name::plain("N"), Style::Newtype, two()).has_valid_arity());
    assert!(!container(Name::plain("N"), Style::Newtype, vec![]).has_valid_arity());
    assert!(!container(Name::plain("U"), Style::Unit, two()).has_valid_arity());
    assert!(container(Name::plain("T"), Style::Tuple, two()).has_valid_arity());
    let good = VariantShape { name: Name::plain("A"), style: Style::Unit, members: vec![] };
    let bad = VariantShape { name: Name::plain("B"), style: Style::Newtype, members: two() };
    assert!(check_variants(&vec![]));
    assert!(!check_variants(&vec![good, bad]));
    let good = VariantShape { name: Name::plain("A"), style: Style::Unit, members: vec![] };
    let bad = VariantShape { name: Name::plain("B"), style: Style::Unit, members: two() };
    let shape = ContainerShape {
        name: Name::plain("E"),
        data: ShapeData::Enum { variants: vec![good, bad] },
    };
    assert!(!shape.has_valid_arity());
}

#[test]
fn names_and_their_overrides() {
    assert_eq!(Name::plain("x").effective(), "x");
    assert_eq!(Name::renamed("x", "X").effective(), "X");
    assert_eq!(Name::renamed("x", "").effective(), "");
    assert_eq!(Name::plain("x"), Name { declared: "x".to_string(), rename: None });
    assert_eq!(
        Name::renamed("x", "X"),
        Name { declared: "x".to_string(), rename: Some("X".to_string()) }
    );
    assert_eq!(
        TypeRef::generic("Option", TypeRef::named("u8")),
        TypeRef::Path {
            name: "Option".to_string(),
            arg: Some(Box::new(TypeRef::Path { name: "u8".to_string(), arg: None })),
        }
    );
}
