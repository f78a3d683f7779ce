//! Schema nodes: the structural descriptor of one composite type, and the
//! identifiers by which nodes refer to the types of their members.

use vstd::prelude::*;

verus! {

/// The kinds of type that need no node of their own.
#[derive(Clone, Copy, Debug, PartialEq, Eq, Structural)]
pub enum PrimitiveKind {
    /// Also the sentinel for a type that is not known.
    Unit,
    Bool,
    I8,
    I16,
    I32,
    I64,
    I128,
    ISize,
    U8,
    U16,
    U32,
    U64,
    U128,
    USize,
    Str,
    Bytes,
}

/// The identifier of a type: a primitive kind, or the place of a node in the
/// registry that issued the identifier.
#[derive(Clone, Copy, Debug, PartialEq, Eq, Structural)]
pub enum SchemaTypeId {
    Primitive(PrimitiveKind),
    Custom(usize),
}

impl SchemaTypeId {
    /// The identifier that stands for a type that could not be resolved.
    pub open spec fn unknown() -> SchemaTypeId {
        SchemaTypeId::Primitive(PrimitiveKind::Unit)
    }
}

/// A named member of a struct node or of a struct variant.
#[derive(Clone, Debug, PartialEq, Eq)]
pub struct FieldNode {
    pub name: String,
    pub id: SchemaTypeId,
}

/// The model of a `FieldNode`.
pub struct FieldView {
    pub name: Seq<char>,
    pub id: SchemaTypeId,
}

impl View for FieldNode {
    type V = FieldView;

    open spec fn view(&self) -> FieldView {
        FieldView { name: self.name@, id: self.id }
    }
}

/// The models of a list of fields, in order.
pub open spec fn field_views(fields: Seq<FieldNode>) -> Seq<FieldView> {
    fields.map_values(|f: FieldNode| f@)
}

/// One variant of an enum node.
#[derive(Clone, Debug, PartialEq, Eq)]
pub enum VariantNode {
    Unit { name: String },
    Newtype { name: String, inner: SchemaTypeId },
    Tuple { name: String, elements: Vec<SchemaTypeId> },
    Struct { name: String, fields: Vec<FieldNode> },
}

/// The model of a `VariantNode`.
pub enum VariantNodeView {
    Unit { name: Seq<char> },
    Newtype { name: Seq<char>, inner: SchemaTypeId },
    Tuple { name: Seq<char>, elements: Seq<SchemaTypeId> },
    Struct { name: Seq<char>, fields: Seq<FieldView> },
}

impl View for VariantNode {
    type V = VariantNodeView;

    open spec fn view(&self) -> VariantNodeView {
        match self {
            VariantNode::Unit { name } => VariantNodeView::Unit { name: name@ },
            VariantNode::Newtype { name, inner } => VariantNodeView::Newtype {
                name: name@,
                inner: *inner,
            },
            VariantNode::Tuple { name, elements } => VariantNodeView::Tuple {
                name: name@,
                elements: elements@,
            },
            VariantNode::Struct { name, fields } => VariantNodeView::Struct {
                name: name@,
                fields: field_views(fields@),
            },
        }
    }
}

impl VariantNodeView {
    /// The name of the variant.
    pub open spec fn name(self) -> Seq<char> {
        match self {
            VariantNodeView::Unit { name } => name,
            VariantNodeView::Newtype { name, .. } => name,
            VariantNodeView::Tuple { name, .. } => name,
            VariantNodeView::Struct { name, .. } => name,
        }
    }

    /// How many members the variant records.
    pub open spec fn arity(self) -> nat {
        match self {
            VariantNodeView::Unit { .. } => 0,
            VariantNodeView::Newtype { .. } => 1,
            VariantNodeView::Tuple { elements, .. } => elements.len(),
            VariantNodeView::Struct { fields, .. } => fields.len(),
        }
    }
}

/// The models of a list of variants, in order.
pub open spec fn variant_node_views(variants: Seq<VariantNode>) -> Seq<VariantNodeView> {
    variants.map_values(|v: VariantNode| v@)
}

/// The finished descriptor of one composite type.
#[derive(Clone, Debug, PartialEq, Eq)]
pub enum SchemaNode {
    UnitStruct { name: String },
    NewtypeStruct { name: String, inner: SchemaTypeId },
    TupleStruct { name: String, elements: Vec<SchemaTypeId> },
    Struct { name: String, fields: Vec<FieldNode> },
    Enum { name: String, variants: Vec<VariantNode> },
}

/// The model of a `SchemaNode`.
pub enum SchemaNodeView {
    UnitStruct { name: Seq<char> },
    NewtypeStruct { name: Seq<char>, inner: SchemaTypeId },
    TupleStruct { name: Seq<char>, elements: Seq<SchemaTypeId> },
    Struct { name: Seq<char>, fields: Seq<FieldView> },
    Enum { name: Seq<char>, variants: Seq<VariantNodeView> },
}

impl View for SchemaNode {
    type V = SchemaNodeView;

    open spec fn view(&self) -> SchemaNodeView {
        match self {
            SchemaNode::UnitStruct { name } => SchemaNodeView::UnitStruct { name: name@ },
            SchemaNode::NewtypeStruct { name, inner } => SchemaNodeView::NewtypeStruct {
                name: name@,
                inner: *inner,
            },
            SchemaNode::TupleStruct { name, elements } => SchemaNodeView::TupleStruct {
                name: name@,
                elements: elements@,
            },
            SchemaNode::Struct { name, fields } => SchemaNodeView::Struct {
                name: name@,
                fields: field_views(fields@),
            },
            SchemaNode::Enum { name, variants } => SchemaNodeView::Enum {
                name: name@,
                variants: variant_node_views(variants@),
            },
        }
    }
}

impl SchemaNodeView {
    /// The name of the type that the node describes.
    pub open spec fn name(self) -> Seq<char> {
        match self {
            SchemaNodeView::UnitStruct { name } => name,
            SchemaNodeView::NewtypeStruct { name, .. } => name,
            SchemaNodeView::TupleStruct { name, .. } => name,
            SchemaNodeView::Struct { name, .. } => name,
            SchemaNodeView::Enum { name, .. } => name,
        }
    }

    /// How many members the node records: fields or elements of a struct,
    /// variants of an enum.
    pub open spec fn arity(self) -> nat {
        match self {
            SchemaNodeView::UnitStruct { .. } => 0,
            SchemaNodeView::NewtypeStruct { .. } => 1,
            SchemaNodeView::TupleStruct { elements, .. } => elements.len(),
            SchemaNodeView::Struct { fields, .. } => fields.len(),
            SchemaNodeView::Enum { variants, .. } => variants.len(),
        }
    }
}

/// The names of a list of fields, in order.
pub open spec fn field_names(fields: Seq<FieldView>) -> Seq<Seq<char>> {
    fields.map_values(|f: FieldView| f.name)
}

/// What is left of a variant when the identifiers are taken out: its form,
/// its name, and the number or the names of its members.
pub enum VariantOutline {
    Unit { name: Seq<char> },
    Newtype { name: Seq<char> },
    Tuple { name: Seq<char>, arity: nat },
    Struct { name: Seq<char>, fields: Seq<Seq<char>> },
}

/// What is left of a node when the identifiers are taken out: its form, its
/// name, and the number or the names of its members.
pub enum Outline {
    UnitStruct { name: Seq<char> },
    NewtypeStruct { name: Seq<char> },
    TupleStruct { name: Seq<char>, arity: nat },
    Struct { name: Seq<char>, fields: Seq<Seq<char>> },
    Enum { name: Seq<char>, variants: Seq<VariantOutline> },
}

impl VariantNodeView {
    /// The variant without its identifiers.
    pub open spec fn outline(self) -> VariantOutline {
        match self {
            VariantNodeView::Unit { name } => VariantOutline::Unit { name },
            VariantNodeView::Newtype { name, .. } => VariantOutline::Newtype { name },
            VariantNodeView::Tuple { name, elements } => VariantOutline::Tuple {
                name,
                arity: elements.len(),
            },
            VariantNodeView::Struct { name, fields } => VariantOutline::Struct {
                name,
                fields: field_names(fields),
            },
        }
    }
}

impl SchemaNodeView {
    /// The node without its identifiers.
    pub open spec fn outline(self) -> Outline {
        match self {
            SchemaNodeView::UnitStruct { name } => Outline::UnitStruct { name },
            SchemaNodeView::NewtypeStruct { name, .. } => Outline::NewtypeStruct { name },
            SchemaNodeView::TupleStruct { name, elements } => Outline::TupleStruct {
                name,
                arity: elements.len(),
            },
            SchemaNodeView::Struct { name, fields } => Outline::Struct {
                name,
                fields: field_names(fields),
            },
            SchemaNodeView::Enum { name, variants } => Outline::Enum {
                name,
                variants: variants.map_values(|v: VariantNodeView| v.outline()),
            },
        }
    }
}

} // verus!
