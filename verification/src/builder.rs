//! Construction of schema nodes. A node with a declared number of members
//! is built in steps: it is opened with that number, takes its members one by
//! one, and is closed once it holds exactly as many as were declared.

use vstd::prelude::*;
use vstd::string::*;

use crate::schema::{
    field_views, variant_node_views, FieldNode, FieldView, SchemaNode, SchemaNodeView, SchemaTypeId,
    VariantNode, VariantNodeView,
};

verus! {

/// A node, or a variant, under construction.
pub struct BuilderView<T> {
    pub name: Seq<char>,
    /// How many members were declared when the builder was opened.
    pub expected: nat,
    /// The members taken so far, in order.
    pub items: Seq<T>,
}

impl<T> BuilderView<T> {
    /// A builder that has taken no member yet.
    pub open spec fn opened(name: Seq<char>, expected: nat) -> Self {
        BuilderView { name, expected, items: Seq::empty() }
    }

    /// There is room for another member.
    pub open spec fn has_room(self) -> bool {
        self.items.len() < self.expected
    }

    /// As many members as were declared have been taken.
    pub open spec fn is_complete(self) -> bool {
        self.items.len() == self.expected
    }

    /// The builder after it has taken `item`.
    pub open spec fn with(self, item: T) -> Self {
        BuilderView { name: self.name, expected: self.expected, items: self.items.push(item) }
    }
}

/// A variant under construction, inside the enum that will hold it.
pub struct NestedBuilderView<T> {
    pub parent: BuilderView<VariantNodeView>,
    pub own: BuilderView<T>,
}

/// The entry point: nothing has been declared yet.
pub struct TypeBuilder {}

/// A tuple struct that is taking its elements.
pub struct TupleStructBuilder {
    name: String,
    expected: usize,
    elements: Vec<SchemaTypeId>,
}

/// A struct that is taking its fields.
pub struct StructBuilder {
    name: String,
    expected: usize,
    fields: Vec<FieldNode>,
}

/// An enum that is taking its variants.
pub struct EnumBuilder {
    name: String,
    expected: usize,
    variants: Vec<VariantNode>,
}

/// A tuple variant that is taking its elements.
pub struct TupleVariantBuilder {
    parent: EnumBuilder,
    name: String,
    expected: usize,
    elements: Vec<SchemaTypeId>,
}

/// A struct variant that is taking its fields.
pub struct StructVariantBuilder {
    parent: EnumBuilder,
    name: String,
    expected: usize,
    fields: Vec<FieldNode>,
}

impl View for TupleStructBuilder {
    type V = BuilderView<SchemaTypeId>;

    closed spec fn view(&self) -> BuilderView<SchemaTypeId> {
        BuilderView { name: self.name@, expected: self.expected as nat, items: self.elements@ }
    }
}

impl View for StructBuilder {
    type V = BuilderView<FieldView>;

    closed spec fn view(&self) -> BuilderView<FieldView> {
        BuilderView {
            name: self.name@,
            expected: self.expected as nat,
            items: field_views(self.fields@),
        }
    }
}

impl View for EnumBuilder {
    type V = BuilderView<VariantNodeView>;

    closed spec fn view(&self) -> BuilderView<VariantNodeView> {
        BuilderView {
            name: self.name@,
            expected: self.expected as nat,
            items: variant_node_views(self.variants@),
        }
    }
}

impl View for TupleVariantBuilder {
    type V = NestedBuilderView<SchemaTypeId>;

    closed spec fn view(&self) -> NestedBuilderView<SchemaTypeId> {
        NestedBuilderView {
            parent: self.parent@,
            own: BuilderView {
                name: self.name@,
                expected: self.expected as nat,
                items: self.elements@,
            },
        }
    }
}

impl View for StructVariantBuilder {
    type V = NestedBuilderView<FieldView>;

    closed spec fn view(&self) -> NestedBuilderView<FieldView> {
        NestedBuilderView {
            parent: self.parent@,
            own: BuilderView {
                name: self.name@,
                expected: self.expected as nat,
                items: field_views(self.fields@),
            },
        }
    }
}

impl SchemaNode {
    /// Starts the construction of a node.
    pub fn build() -> TypeBuilder {
        TypeBuilder {  }
    }
}

impl TypeBuilder {
    /// The node of a struct without members.
    pub fn unit_struct_type(self, name: &str) -> (node: SchemaNode)
        ensures
            node@ == (SchemaNodeView::UnitStruct { name: name@ }),
    {
        SchemaNode::UnitStruct { name: String::from_str(name) }
    }

    /// The node of a struct that wraps one member.
    pub fn newtype_struct_type(self, name: &str, inner: SchemaTypeId) -> (node: SchemaNode)
        ensures
            node@ == (SchemaNodeView::NewtypeStruct { name: name@, inner }),
    {
        SchemaNode::NewtypeStruct { name: String::from_str(name), inner }
    }

    /// Opens a tuple struct of `len` elements.
    pub fn tuple_struct_type(self, name: &str, len: usize) -> (builder: TupleStructBuilder)
        ensures
            builder@ == BuilderView::<SchemaTypeId>::opened(name@, len as nat),
    {
        TupleStructBuilder { name: String::from_str(name), expected: len, elements: Vec::new() }
    }

    /// Opens a struct of `len` named fields.
    pub fn struct_type(self, name: &str, len: usize) -> (builder: StructBuilder)
        ensures
            builder@ == BuilderView::<FieldView>::opened(name@, len as nat),
    {
        let builder = StructBuilder {
            name: String::from_str(name),
            expected: len,
            fields: Vec::new(),
        };
        assert(field_views(builder.fields@) =~= Seq::empty());
        builder
    }

    /// Opens an enum of `len` variants.
    pub fn enum_type(self, name: &str, len: usize) -> (builder: EnumBuilder)
        ensures
            builder@ == BuilderView::<VariantNodeView>::opened(name@, len as nat),
    {
        let builder = EnumBuilder {
            name: String::from_str(name),
            expected: len,
            variants: Vec::new(),
        };
        assert(variant_node_views(builder.variants@) =~= Seq::empty());
        builder
    }
}

impl TupleStructBuilder {
    /// Takes the next element.
    pub fn element(self, id: SchemaTypeId) -> (builder: TupleStructBuilder)
        requires
            self@.has_room(),
        ensures
            builder@ == self@.with(id),
    {
        let mut builder = self;
        builder.elements.push(id);
        builder
    }

    /// Closes the tuple struct.
    pub fn end(self) -> (node: SchemaNode)
        requires
            self@.is_complete(),
        ensures
            node@ == (SchemaNodeView::TupleStruct { name: self@.name, elements: self@.items }),
    {
        SchemaNode::TupleStruct { name: self.name, elements: self.elements }
    }
}

impl StructBuilder {
    /// Takes the next field.
    pub fn field(self, name: &str, id: SchemaTypeId) -> (builder: StructBuilder)
        requires
            self@.has_room(),
        ensures
            builder@ == self@.with(FieldView { name: name@, id }),
    {
        let mut builder = self;
        builder.fields.push(FieldNode { name: String::from_str(name), id });
        assert(field_views(builder.fields@) =~= field_views(self.fields@).push(
            FieldView { name: name@, id },
        ));
        builder
    }

    /// Closes the struct.
    pub fn end(self) -> (node: SchemaNode)
        requires
            self@.is_complete(),
        ensures
            node@ == (SchemaNodeView::Struct { name: self@.name, fields: self@.items }),
    {
        SchemaNode::Struct { name: self.name, fields: self.fields }
    }
}

impl EnumBuilder {
    /// Takes a variant without members.
    pub fn unit_variant(self, name: &str) -> (builder: EnumBuilder)
        requires
            self@.has_room(),
        ensures
            builder@ == self@.with(VariantNodeView::Unit { name: name@ }),
    {
        let mut builder = self;
        builder.variants.push(VariantNode::Unit { name: String::from_str(name) });
        assert(variant_node_views(builder.variants@) =~= variant_node_views(self.variants@).push(
            VariantNodeView::Unit { name: name@ },
        ));
        builder
    }

    /// Takes a variant that wraps one member.
    pub fn newtype_variant(self, name: &str, inner: SchemaTypeId) -> (builder: EnumBuilder)
        requires
            self@.has_room(),
        ensures
            builder@ == self@.with(VariantNodeView::Newtype { name: name@, inner }),
    {
        let mut builder = self;
        builder.variants.push(VariantNode::Newtype { name: String::from_str(name), inner });
        assert(variant_node_views(builder.variants@) =~= variant_node_views(self.variants@).push(
            VariantNodeView::Newtype { name: name@, inner },
        ));
        builder
    }

    /// Opens a tuple variant of `len` elements.
    pub fn tuple_variant(self, name: &str, len: usize) -> (builder: TupleVariantBuilder)
        requires
            self@.has_room(),
        ensures
            builder@ == (NestedBuilderView {
                parent: self@,
                own: BuilderView::<SchemaTypeId>::opened(name@, len as nat),
            }),
    {
        TupleVariantBuilder {
            parent: self,
            name: String::from_str(name),
            expected: len,
            elements: Vec::new(),
        }
    }

    /// Opens a struct variant of `len` named fields.
    pub fn struct_variant(self, name: &str, len: usize) -> (builder: StructVariantBuilder)
        requires
            self@.has_room(),
        ensures
            builder@ == (NestedBuilderView {
                parent: self@,
                own: BuilderView::<FieldView>::opened(name@, len as nat),
            }),
    {
        let builder = StructVariantBuilder {
            parent: self,
            name: String::from_str(name),
            expected: len,
            fields: Vec::new(),
        };
        assert(field_views(builder.fields@) =~= Seq::empty());
        builder
    }

    /// Closes the enum.
    pub fn end(self) -> (node: SchemaNode)
        requires
            self@.is_complete(),
        ensures
            node@ == (SchemaNodeView::Enum { name: self@.name, variants: self@.items }),
    {
        SchemaNode::Enum { name: self.name, variants: self.variants }
    }
}

impl TupleVariantBuilder {
    /// Takes the next element.
    pub fn element(self, id: SchemaTypeId) -> (builder: TupleVariantBuilder)
        requires
            self@.own.has_room(),
        ensures
            builder@ == (NestedBuilderView { parent: self@.parent, own: self@.own.with(id) }),
    {
        let mut builder = self;
        builder.elements.push(id);
        builder
    }

    /// Closes the variant and hands it to the enum.
    pub fn end(self) -> (builder: EnumBuilder)
        requires
            self@.own.is_complete(),
            self@.parent.has_room(),
        ensures
            builder@ == self@.parent.with(
                VariantNodeView::Tuple { name: self@.own.name, elements: self@.own.items },
            ),
    {
        let mut parent = self.parent;
        parent.variants.push(VariantNode::Tuple { name: self.name, elements: self.elements });
        assert(variant_node_views(parent.variants@) =~= variant_node_views(
            self.parent.variants@,
        ).push(VariantNodeView::Tuple { name: self.name@, elements: self.elements@ }));
        parent
    }
}

impl StructVariantBuilder {
    /// Takes the next field.
    pub fn field(self, name: &str, id: SchemaTypeId) -> (builder: StructVariantBuilder)
        requires
            self@.own.has_room(),
        ensures
            builder@ == (NestedBuilderView {
                parent: self@.parent,
                own: self@.own.with(FieldView { name: name@, id }),
            }),
    {
        let mut builder = self;
        builder.fields.push(FieldNode { name: String::from_str(name), id });
        assert(field_views(builder.fields@) =~= field_views(self.fields@).push(
            FieldView { name: name@, id },
        ));
        builder
    }

    /// Closes the variant and hands it to the enum.
    pub fn end(self) -> (builder: EnumBuilder)
        requires
            self@.own.is_complete(),
            self@.parent.has_room(),
        ensures
            builder@ == self@.parent.with(
                VariantNodeView::Struct { name: self@.own.name, fields: self@.own.items },
            ),
    {
        let mut parent = self.parent;
        parent.variants.push(VariantNode::Struct { name: self.name, fields: self.fields });
        assert(variant_node_views(parent.variants@) =~= variant_node_views(
            self.parent.variants@,
        ).push(VariantNodeView::Struct { name: self.name@, fields: field_views(self.fields@) }));
        parent
    }
}

} // verus!
