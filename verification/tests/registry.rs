use schema_derive::registry::{TypeRegistry, TypeScope};
use schema_derive::schema::{FieldNode, PrimitiveKind, SchemaNode, SchemaTypeId, VariantNode};

const INT64: SchemaTypeId = SchemaTypeId::Primitive(PrimitiveKind::I64);
const STRING: SchemaTypeId = SchemaTypeId::Primitive(PrimitiveKind::Str);

#[test]
fn registry_issues_fresh_identifiers_in_order() {
    let mut registry = TypeRegistry::new();
    assert_eq!(registry.len(), 0);
    assert_eq!(registry.next_id(), SchemaTypeId::Custom(0));
    let a = registry.register(SchemaNode::build().unit_struct_type("A"));
    assert_eq!(registry.next_id(), SchemaTypeId::Custom(1));
    let b = registry.register(SchemaNode::build().unit_struct_type("B"));
    assert_eq!(a, SchemaTypeId::Custom(0));
    assert_eq!(b, SchemaTypeId::Custom(1));
    assert_eq!(registry.len(), 2);
}

#[test]
fn registry_does_not_merge_equal_nodes() {
    let mut registry = TypeRegistry::new();
    let a = registry.register(SchemaNode::build().unit_struct_type("Same"));
    let b = registry.register(SchemaNode::build().unit_struct_type("Same"));
    assert_ne!(a, b);
    assert_eq!(registry.lookup(a), registry.lookup(b));
    assert_eq!(registry.len(), 2);
}

#[test]
fn lookup_is_total_for_issued_identifiers_only() {
    let mut registry = TypeRegistry::new();
    assert_eq!(registry.lookup(SchemaTypeId::Custom(0)), None);
    let a = registry.register(SchemaNode::build().unit_struct_type("A"));
    let b = registry.register(SchemaNode::build().newtype_struct_type("B", a));
    assert_eq!(registry.lookup(a), Some(&SchemaNode::UnitStruct { name: "A".to_string() }));
    assert_eq!(
        registry.lookup(b),
        Some(&SchemaNode::NewtypeStruct { name: "B".to_string(), inner: a })
    );
    assert_eq!(registry.lookup(SchemaTypeId::Custom(2)), None);
    assert_eq!(registry.lookup(SchemaTypeId::Custom(usize::MAX)), None);
    assert_eq!(registry.lookup(INT64), None);
}

#[test]
fn earlier_entries_stay_as_they_are() {
    let mut registry = TypeRegistry::new();
    let a = registry.register(SchemaNode::build().unit_struct_type("A"));
    let before = registry.lookup(a).cloned();
    for i in 0..10 {
        registry.register(SchemaNode::build().unit_struct_type(&format!("N{}", i)));
        assert_eq!(registry.lookup(a).cloned(), before);
    }
}

#[test]
fn scope_binds_and_rebinds() {
    let mut scope = TypeScope::new();
    assert_eq!(scope.lookup("A"), None);
    scope.bind("A", SchemaTypeId::Custom(0));
    scope.bind("B", SchemaTypeId::Custom(1));
    assert_eq!(scope.lookup("A"), Some(SchemaTypeId::Custom(0)));
    assert_eq!(scope.lookup("B"), Some(SchemaTypeId::Custom(1)));
    assert_eq!(scope.lookup("C"), None);
    scope.bind("A", SchemaTypeId::Custom(5));
    assert_eq!(scope.lookup("A"), Some(SchemaTypeId::Custom(5)));
    assert_eq!(scope.lookup("B"), Some(SchemaTypeId::Custom(1)));
    assert_eq!(scope.lookup("a"), None);
    assert_eq!(scope.lookup(""), None);
}

#[test]
fn builder_of_plain_nodes() {
    assert_eq!(
        SchemaNode::build().unit_struct_type("U"),
        SchemaNode::UnitStruct { name: "U".to_string() }
    );
    assert_eq!(
        SchemaNode::build().newtype_struct_type("N", INT64),
        SchemaNode::NewtypeStruct { name: "N".to_string(), inner: INT64 }
    );
}

#[test]
fn builder_of_tuple_and_struct() {
    assert_eq!(
        SchemaNode::build().tuple_struct_type("T", 0).end(),
        SchemaNode::TupleStruct { name: "T".to_string(), elements: vec![] }
    );
    assert_eq!(
        SchemaNode::build().tuple_struct_type("T", 2).element(INT64).element(STRING).end(),
        SchemaNode::TupleStruct { name: "T".to_string(), elements: vec![INT64, STRING] }
    );
    assert_eq!(
        SchemaNode::build().struct_type("S", 2).field("a", INT64).field("b", STRING).end(),
        SchemaNode::Struct {
            name: "S".to_string(),
            fields: vec![
                FieldNode { name: "a".to_string(), id: INT64 },
                FieldNode { name: "b".to_string(), id: STRING },
            ],
        }
    );
}

#[test]
fn builder_of_enum_keeps_the_order_of_variants() {
    let node = SchemaNode::build()
        .enum_type("E", 4)
        .struct_variant("S", 1)
        .field("f", STRING)
        .end()
        .unit_variant("U")
        .tuple_variant("T", 2)
        .element(INT64)
        .element(INT64)
        .end()
        .newtype_variant("N", STRING)
        .end();
    assert_eq!(
        node,
        SchemaNode::Enum {
            name: "E".to_string(),
            variants: vec![
                VariantNode::Struct {
                    name: "S".to_string(),
                    fields: vec![FieldNode { name: "f".to_string(), id: STRING }],
                },
                VariantNode::Unit { name: "U".to_string() },
                VariantNode::Tuple { name: "T".to_string(), elements: vec![INT64, INT64] },
                VariantNode::Newtype { name: "N".to_string(), inner: STRING },
            ],
        }
    );
}
