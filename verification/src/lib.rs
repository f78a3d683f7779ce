//! Derives, from the shape of a composite type, a schema node and a textual
//! type annotation that describe the same structure.
//!
//! A derivation resolves every member of the shape once and feeds both
//! outputs from what it found, so that node and annotation agree in shape,
//! in the number and order of their members and in the names they use.

use vstd::prelude::*;

pub mod batch;
pub mod builder;
pub mod derive_enum;
pub mod derive_struct;
pub mod error;
pub mod laws;
pub mod mapper;
pub mod member;
pub mod registry;
pub mod schema;
pub mod shape;
pub mod text;

use crate::derive_enum::{derive_enum, enum_annotation, enum_node};
use crate::derive_struct::{derive_struct, struct_annotation, struct_node};
use crate::error::{
    check_members, check_variant_names, enum_error, struct_error, DeriveError, DeriveErrorView,
};
use crate::mapper::{Env, EnvView};
use crate::member::resolve_members;
use crate::registry::{TypeRegistry, TypeScope};
use crate::schema::{PrimitiveKind, SchemaNode, SchemaNodeView, SchemaTypeId};
use crate::shape::{ContainerShape, ContainerView, DataView, ShapeData, Style};

verus! {

/// The annotation of `shape`, its members resolved in `env`.
pub open spec fn annotation_of(shape: ContainerView, env: EnvView) -> Seq<char> {
    match shape.data {
        DataView::Struct { style, members } => struct_annotation(
            style,
            resolve_members(members, env),
        ),
        DataView::Enum { variants } => enum_annotation(variants, env),
    }
}

/// The schema node of `shape`, its members resolved in `env`. The node
/// carries the effective name of the container.
pub open spec fn node_of(shape: ContainerView, env: EnvView) -> SchemaNodeView {
    match shape.data {
        DataView::Struct { style, members } => struct_node(
            shape.name.effective(),
            style,
            resolve_members(members, env),
        ),
        DataView::Enum { variants } => enum_node(shape.name.effective(), variants, env),
    }
}

/// The error for which `shape` is rejected, if it is.
pub open spec fn shape_error(shape: ContainerView) -> Option<DeriveErrorView> {
    match shape.data {
        DataView::Struct { style, members } => struct_error(
            shape.name.effective(),
            style,
            members,
        ),
        DataView::Enum { variants } => enum_error(shape.name.effective(), variants),
    }
}

/// Checks the names of `shape`: the error for which it is rejected, if it is.
pub fn check_shape(shape: &ContainerShape) -> (found: Option<DeriveError>)
    ensures
        match found {
            Some(e) => Some(e@),
            None => None,
        } == shape_error(shape@),
{
    let name = shape.name.effective();
    match &shape.data {
        ShapeData::Struct { style, members } => match style {
            Style::Struct => check_members(name, None, members),
            _ => None,
        },
        ShapeData::Enum { variants } => check_variant_names(name, variants),
    }
}

/// The environment in which the members of `shape` are resolved: the scope,
/// with the declared name of `shape` itself known under `id`.
pub open spec fn own_env(
    shape: ContainerView,
    scope: Map<Seq<char>, SchemaTypeId>,
    id: SchemaTypeId,
    bytes: bool,
) -> EnvView {
    EnvView { scope: scope.insert(shape.name.declared, id), bytes }
}

/// Derives the annotation and the node of `shape` in `env`, by the handler
/// of its shape.
pub fn derive_container(shape: &ContainerShape, env: &Env) -> (out: Result<
    (String, SchemaNode),
    DeriveError,
>)
    requires
        shape@.arity_ok(),
    ensures
        match out {
            Ok(pair) => {
                &&& shape_error(shape@) is None
                &&& pair.0@ == annotation_of(shape@, env@)
                &&& pair.1@ == node_of(shape@, env@)
            },
            Err(e) => shape_error(shape@) == Some(e@),
        },
{
    let name = shape.name.effective();
    match &shape.data {
        ShapeData::Struct { style, members } => derive_struct(name, *style, members, env),
        ShapeData::Enum { variants } => derive_enum(name, variants, env),
    }
}

/// One run of registrations: the registry, the named types known so far,
/// and whether byte sequences are recognized.
pub struct Session {
    pub registry: TypeRegistry,
    pub scope: TypeScope,
    pub bytes: bool,
}

impl Session {
    /// A session with an empty registry and an empty scope.
    pub fn new(bytes: bool) -> (session: Session)
        ensures
            session.registry@ == Seq::<SchemaNodeView>::empty(),
            session.scope@ == Map::<Seq<char>, SchemaTypeId>::empty(),
            session.bytes == bytes,
    {
        Session { registry: TypeRegistry::new(), scope: TypeScope::new(), bytes }
    }
}

/// What a derivation hands back: the identifier under which the node was
/// registered, and the annotation.
#[derive(Clone, Debug, PartialEq, Eq)]
pub struct Derived {
    pub id: SchemaTypeId,
    pub annotation: String,
}

/// The model of a `Derived`.
pub struct DerivedView {
    pub id: SchemaTypeId,
    pub annotation: Seq<char>,
}

impl View for Derived {
    type V = DerivedView;

    open spec fn view(&self) -> DerivedView {
        DerivedView { id: self.id, annotation: self.annotation@ }
    }
}

/// Derives the node and the annotation of `shape` and registers the node.
///
/// The members are resolved against the session's scope, in which `shape`
/// itself is known under the identifier it is about to receive. On success
/// exactly one node is added to the registry, the identifier returned is the
/// one issued for it, and the declared name of `shape` is from then on known
/// under it. A shape that is rejected leaves the session as it was.
pub fn derive_schema_serialize(shape: &ContainerShape, session: &mut Session) -> (out: Result<
    Derived,
    DeriveError,
>)
    requires
        shape@.arity_ok(),
    ensures
        final(session).bytes == old(session).bytes,
        match out {
            Ok(derived) => {
                let id = SchemaTypeId::Custom(old(session).registry@.len() as usize);
                let env = own_env(shape@, old(session).scope@, id, old(session).bytes);
                &&& shape_error(shape@) is None
                &&& derived.id == id
                &&& derived.annotation@ == annotation_of(shape@, env)
                &&& final(session).registry@ == old(session).registry@.push(node_of(shape@, env))
                &&& final(session).scope@ == old(session).scope@.insert(shape@.name.declared, id)
            },
            Err(e) => {
                &&& shape_error(shape@) == Some(e@)
                &&& final(session).registry@ == old(session).registry@
                &&& final(session).scope@ == old(session).scope@
            },
        },
{
    let id = session.registry.next_id();
    let env = Env {
        scope: &session.scope,
        own_name: shape.name.declared.as_str(),
        own_id: id,
        bytes: session.bytes,
    };
    match derive_container(shape, &env) {
        Ok((annotation, node)) => {
            let issued = session.registry.register(node);
            session.scope.bind(shape.name.declared.as_str(), issued);
            Ok(Derived { id: issued, annotation })
        },
        Err(e) => Err(e),
    }
}

/// Derives the annotation of `shape` alone; no registry is involved.
///
/// The members are resolved against `scope`, in which `shape` itself counts
/// as known.
pub fn derive_typescript_definition(shape: &ContainerShape, scope: &TypeScope, bytes: bool) -> (out:
    Result<String, DeriveError>)
    requires
        shape@.arity_ok(),
    ensures
        match out {
            Ok(annotation) => {
                &&& shape_error(shape@) is None
                &&& annotation@ == annotation_of(
                    shape@,
                    own_env(shape@, scope@, SchemaTypeId::unknown(), bytes),
                )
            },
            Err(e) => shape_error(shape@) == Some(e@),
        },
{
    let env = Env {
        scope,
        own_name: shape.name.declared.as_str(),
        own_id: SchemaTypeId::Primitive(PrimitiveKind::Unit),
        bytes,
    };
    match derive_container(shape, &env) {
        Ok((annotation, _)) => Ok(annotation),
        Err(e) => Err(e),
    }
}

} // verus!
