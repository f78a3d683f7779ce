use schema_derive::schema::{SchemaNode, SchemaTypeId, VariantNode};
use schema_derive::shape::{
    ContainerShape, Member, Name, ShapeData, Style, TypeRef, VariantShape,
};
use schema_derive::{derive_schema_serialize, Session};

fn members(count: usize) -> Vec<Member> {
    let types = ["u8", "String", "bool", "i64", "Missing"];
    (0..count)
        .map(|i| Member::new(&format!("m{}", i), TypeRef::named(types[i % types.len()])))
        .collect()
}

fn tokens(count: usize) -> Vec<&'static str> {
    let tokens = ["number", "string", "boolean", "number", "any"];
    (0..count).map(|i| tokens[i % tokens.len()]).collect()
}

fn derive(shape: &ContainerShape) -> (SchemaNode, String) {
    assert!(shape.has_valid_arity());
    let mut session = Session::new(false);
    let derived = derive_schema_serialize(shape, &mut session).unwrap();
    (session.registry.lookup(derived.id).unwrap().clone(), derived.annotation)
}

fn recorded(node: &SchemaNode) -> usize {
    match node {
        SchemaNode::UnitStruct { .. } => 0,
        SchemaNode::NewtypeStruct { .. } => 1,
        SchemaNode::TupleStruct { elements, .. } => elements.len(),
        SchemaNode::Struct { fields, .. } => fields.len(),
        SchemaNode::Enum { variants, .. } => variants.len(),
    }
}

fn recorded_in_variant(node: &VariantNode) -> usize {
    match node {
        VariantNode::Unit { .. } => 0,
        VariantNode::Newtype { .. } => 1,
        VariantNode::Tuple { elements, .. } => elements.len(),
        VariantNode::Struct { fields, .. } => fields.len(),
    }
}

#[test]
fn node_records_the_declared_arity() {
    for (style, count) in [
        (Style::Unit, 0),
        (Style::Newtype, 1),
        (Style::Tuple, 0),
        (Style::Tuple, 1),
        (Style::Tuple, 4),
        (Style::Struct, 0),
        (Style::Struct, 1),
        (Style::Struct, 5),
    ] {
        let shape = ContainerShape {
            name: Name::plain("S"),
            data: ShapeData::Struct { style, members: members(count) },
        };
        assert_eq!(recorded(&derive(&shape).0), count);
    }
}

#[test]
fn enum_node_records_every_variant_and_its_arity() {
    let counts = [
        (Style::Unit, 0),
        (Style::Newtype, 1),
        (Style::Tuple, 3),
        (Style::Struct, 2),
        (Style::Tuple, 0),
    ];
    let variants: Vec<VariantShape> = counts
        .iter()
        .enumerate()
        .map(|(i, (style, count))| VariantShape {
            name: Name::plain(&format!("V{}", i)),
            style: *style,
            members: members(*count),
        })
        .collect();
    let shape = ContainerShape { name: Name::plain("E"), data: ShapeData::Enum { variants } };
    let (node, _) = derive(&shape);
    assert_eq!(recorded(&node), counts.len());
    match node {
        SchemaNode::Enum { variants, .. } => {
            for (variant, (_, count)) in variants.iter().zip(counts.iter()) {
                assert_eq!(recorded_in_variant(variant), *count);
            }
        }
        other => panic!("not an enum node: {:?}", other),
    }
}

#[test]
fn annotation_keeps_the_declaration_order() {
    let shape = ContainerShape {
        name: Name::plain("S"),
        data: ShapeData::Struct { style: Style::Struct, members: members(5) },
    };
    let (node, annotation) = derive(&shape);
    assert_eq!(
        annotation,
        "{\"m0\": number, \"m1\": string, \"m2\": boolean, \"m3\": number, \"m4\": any}"
    );
    let mut last = 0;
    for i in 0..5 {
        let at = annotation.find(&format!("\"m{}\"", i)).unwrap();
        assert!(i == 0 || at > last);
        last = at;
    }
    match node {
        SchemaNode::Struct { fields, .. } => {
            let names: Vec<String> = fields.into_iter().map(|f| f.name).collect();
            assert_eq!(names, vec!["m0", "m1", "m2", "m3", "m4"]);
        }
        other => panic!("not a struct node: {:?}", other),
    }

    let shape = ContainerShape {
        name: Name::plain("T"),
        data: ShapeData::Struct { style: Style::Tuple, members: members(5) },
    };
    assert_eq!(derive(&shape).1, format!("[{}]", tokens(5).join(", ")));
}

#[test]
fn reordered_members_give_a_reordered_annotation() {
    let forward = ContainerShape {
        name: Name::plain("T"),
        data: ShapeData::Struct {
            style: Style::Tuple,
            members: vec![
                Member::new("0", TypeRef::named("bool")),
                Member::new("1", TypeRef::named("u8")),
            ],
        },
    };
    let backward = ContainerShape {
        name: Name::plain("T"),
        data: ShapeData::Struct {
            style: Style::Tuple,
            members: vec![
                Member::new("0", TypeRef::named("u8")),
                Member::new("1", TypeRef::named("bool")),
            ],
        },
    };
    assert_eq!(derive(&forward).1, "[boolean, number]");
    assert_eq!(derive(&backward).1, "[number, boolean]");
}

#[test]
fn override_takes_precedence_and_absence_falls_back() {
    let shape = ContainerShape {
        name: Name::renamed("declared", "Renamed"),
        data: ShapeData::Struct {
            style: Style::Struct,
            members: vec![
                Member::renamed("a", "first", TypeRef::named("u8")),
                Member::new("b", TypeRef::named("u8")),
            ],
        },
    };
    let (node, annotation) = derive(&shape);
    assert_eq!(annotation, "{\"first\": number, \"b\": number}");
    assert_eq!(
        node,
        SchemaNode::build()
            .struct_type("Renamed", 2)
            .field("first", SchemaTypeId::Primitive(schema_derive::schema::PrimitiveKind::U8))
            .field("b", SchemaTypeId::Primitive(schema_derive::schema::PrimitiveKind::U8))
            .end()
    );
}

#[test]
fn override_of_a_variant_is_its_tag_and_its_node_name() {
    let shape = ContainerShape {
        name: Name::plain("E"),
        data: ShapeData::Enum {
            variants: vec![
                VariantShape {
                    name: Name::renamed("A", "alpha"),
                    style: Style::Unit,
                    members: vec![],
                },
                VariantShape { name: Name::plain("B"), style: Style::Unit, members: vec![] },
            ],
        },
    };
    let (node, annotation) = derive(&shape);
    assert_eq!(annotation, "{\"tag\":\"alpha\"} | {\"tag\":\"B\"}");
    assert_eq!(
        node,
        SchemaNode::build().enum_type("E", 2).unit_variant("alpha").unit_variant("B").end()
    );
}

fn without_identifiers(node: &SchemaNode) -> String {
    match node {
        SchemaNode::UnitStruct { name } => format!("unit {}", name),
        SchemaNode::NewtypeStruct { name, .. } => format!("newtype {}", name),
        SchemaNode::TupleStruct { name, elements } => format!("tuple {} {}", name, elements.len()),
        SchemaNode::Struct { name, fields } => {
            let names: Vec<&str> = fields.iter().map(|f| f.name.as_str()).collect();
            format!("struct {} {:?}", name, names)
        }
        SchemaNode::Enum { name, variants } => {
            let inner: Vec<String> = variants
                .iter()
                .map(|v| match v {
                    VariantNode::Unit { name } => format!("unit {}", name),
                    VariantNode::Newtype { name, .. } => format!("newtype {}", name),
                    VariantNode::Tuple { name, elements } => {
                        format!("tuple {} {}", name, elements.len())
                    }
                    VariantNode::Struct { name, fields } => {
                        let names: Vec<&str> = fields.iter().map(|f| f.name.as_str()).collect();
                        format!("struct {} {:?}", name, names)
                    }
                })
                .collect();
            format!("enum {} {:?}", name, inner)
        }
    }
}

#[test]
fn rerun_gives_the_same_structure_under_a_new_identifier() {
    let shape = ContainerShape {
        name: Name::plain("List"),
        data: ShapeData::Enum {
            variants: vec![
                VariantShape { name: Name::plain("Nil"), style: Style::Unit, members: vec![] },
                VariantShape {
                    name: Name::plain("Cons"),
                    style: Style::Struct,
                    members: vec![
                        Member::new("head", TypeRef::named("i64")),
                        Member::renamed("tail", "rest", TypeRef::named("List")),
                    ],
                },
            ],
        },
    };
    let mut session = Session::new(false);
    let first = derive_schema_serialize(&shape, &mut session).unwrap();
    let second = derive_schema_serialize(&shape, &mut session).unwrap();
    assert_eq!(first.id, SchemaTypeId::Custom(0));
    assert_eq!(second.id, SchemaTypeId::Custom(1));
    assert_eq!(first.annotation, second.annotation);
    assert_eq!(session.registry.len(), 2);
    let a = session.registry.lookup(first.id).unwrap();
    let b = session.registry.lookup(second.id).unwrap();
    assert_eq!(without_identifiers(a), without_identifiers(b));
    // each run refers to itself under the identifier of that run
    assert_ne!(a, b);
    assert_eq!(session.scope.lookup("List"), Some(second.id));
}

#[test]
fn single_element_tuple_collapses_and_longer_ones_do_not() {
    let tuple = |count: usize| ContainerShape {
        name: Name::plain("T"),
        data: ShapeData::Struct { style: Style::Tuple, members: members(count) },
    };
    assert_eq!(derive(&tuple(1)).1, "number");
    for count in 2..6 {
        let annotation = derive(&tuple(count)).1;
        assert!(annotation.starts_with('['));
        assert!(annotation.ends_with(']'));
        assert_eq!(annotation, format!("[{}]", tokens(count).join(", ")));
        assert_eq!(annotation.matches(", ").count(), count - 1);
    }
}

#[test]
fn single_element_tuple_variant_collapses_too() {
    let shape = |count: usize| ContainerShape {
        name: Name::plain("E"),
        data: ShapeData::Enum {
            variants: vec![VariantShape {
                name: Name::plain("V"),
                style: Style::Tuple,
                members: members(count),
            }],
        },
    };
    assert_eq!(derive(&shape(1)).1, "{\"tag\":\"V\",\"fields\":number}");
    assert_eq!(derive(&shape(2)).1, "{\"tag\":\"V\",\"fields\":[number, string]}");
    assert_eq!(derive(&shape(0)).1, "{\"tag\":\"V\",\"fields\":[]}");
}
