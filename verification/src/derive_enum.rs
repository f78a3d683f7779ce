//! The four shapes of an enum variant, and the enum as the sequence of its
//! variants. Each handler gives the annotation of its variant and hands the
//! variant's node to the enum under construction.

use vstd::prelude::*;
use vstd::string::*;

use crate::builder::{BuilderView, EnumBuilder, NestedBuilderView};
use crate::error::{check_variant_names, enum_error, DeriveError};
use crate::mapper::{Env, EnvView};
use crate::member::{
    brace_list, bracket_list, collapse_list_brace, collapse_list_bracket, derive_element,
    derive_field, derive_register_field_types, field_fragment, field_of, fields_of, fragments_of,
    ids_of, resolve_members, resolved_views, tokens_of, ResolvedMember, ResolvedView,
};
use crate::schema::{FieldView, SchemaNode, SchemaNodeView, SchemaTypeId, VariantNodeView};
use crate::shape::{arity_fits, variant_views, variants_fit, Style, VariantShape, VariantView};
use crate::text::{join, joined, quote_name, quoted, texts};

verus! {

/// The annotation of a variant known as `name`: an object that carries the
/// name under `"tag"` and, where the variant has members, their annotation
/// under `"fields"`.
pub open spec fn tagged(name: Seq<char>, payload: Option<Seq<char>>) -> Seq<char> {
    match payload {
        None => "{\"tag\":"@ + quoted(name) + "}"@,
        Some(fields) => "{\"tag\":"@ + quoted(name) + ",\"fields\":"@ + fields + "}"@,
    }
}

/// The annotation of the members of a variant: none for a unit, the member's
/// token for a newtype, the list of tokens for a tuple, the list of named
/// members for named fields.
pub open spec fn variant_payload(style: Style, members: Seq<ResolvedView>) -> Option<Seq<char>> {
    match style {
        Style::Unit => None,
        Style::Newtype => Some(members[0].token),
        Style::Tuple => Some(bracket_list(tokens_of(members))),
        Style::Struct => Some(brace_list(fragments_of(members))),
    }
}

/// The annotation of a variant known as `name`, of style `style`, with the
/// resolved members `members`.
pub open spec fn variant_annotation(
    name: Seq<char>,
    style: Style,
    members: Seq<ResolvedView>,
) -> Seq<char> {
    tagged(name, variant_payload(style, members))
}

/// The schema node of a variant known as `name`, of style `style`, with the
/// resolved members `members`.
pub open spec fn variant_node(
    name: Seq<char>,
    style: Style,
    members: Seq<ResolvedView>,
) -> VariantNodeView {
    match style {
        Style::Unit => VariantNodeView::Unit { name },
        Style::Newtype => VariantNodeView::Newtype { name, inner: members[0].id },
        Style::Tuple => VariantNodeView::Tuple { name, elements: ids_of(members) },
        Style::Struct => VariantNodeView::Struct { name, fields: fields_of(members) },
    }
}

/// The annotation of the variant `variant`, resolved in `env`.
pub open spec fn annotation_of_variant(variant: VariantView, env: EnvView) -> Seq<char> {
    variant_annotation(
        variant.name.effective(),
        variant.style,
        resolve_members(variant.members, env),
    )
}

/// The schema node of the variant `variant`, resolved in `env`.
pub open spec fn node_of_variant(variant: VariantView, env: EnvView) -> VariantNodeView {
    variant_node(variant.name.effective(), variant.style, resolve_members(variant.members, env))
}

/// The annotations of the variants, in declaration order.
pub open spec fn variant_annotations(variants: Seq<VariantView>, env: EnvView) -> Seq<Seq<char>> {
    variants.map_values(|v: VariantView| annotation_of_variant(v, env))
}

/// The schema nodes of the variants, in declaration order.
pub open spec fn variant_nodes(variants: Seq<VariantView>, env: EnvView) -> Seq<VariantNodeView> {
    variants.map_values(|v: VariantView| node_of_variant(v, env))
}

/// The annotation of an enum: the annotations of its variants, in
/// declaration order, with ` | ` between neighbours.
pub open spec fn enum_annotation(variants: Seq<VariantView>, env: EnvView) -> Seq<char> {
    joined(variant_annotations(variants, env), " | "@)
}

/// The schema node of an enum known as `name`.
pub open spec fn enum_node(
    name: Seq<char>,
    variants: Seq<VariantView>,
    env: EnvView,
) -> SchemaNodeView {
    SchemaNodeView::Enum { name, variants: variant_nodes(variants, env) }
}

/// Renders the object that carries a variant's name and the annotation of
/// its members.
pub fn tag_object(name: &str, payload: Option<&str>) -> (out: String)
    ensures
        out@ == tagged(
            name@,
            match payload {
                Some(fields) => Some(fields@),
                None => None,
            },
        ),
{
    let mut out = String::from_str("{\"tag\":");
    let key = quote_name(name);
    out.append(key.as_str());
    match payload {
        Some(fields) => {
            out.append(",\"fields\":");
            out.append(fields);
        },
        None => {},
    }
    out.append("}");
    out
}

/// A variant without members.
pub fn derive_unit_variant(name: &str, builder: EnumBuilder) -> (out: (String, EnumBuilder))
    requires
        builder@.has_room(),
    ensures
        out.0@ == variant_annotation(name@, Style::Unit, Seq::empty()),
        out.1@ == builder@.with(variant_node(name@, Style::Unit, Seq::empty())),
{
    (tag_object(name, None), builder.unit_variant(name))
}

/// A variant that wraps its one member.
pub fn derive_newtype_variant(
    name: &str,
    members: &Vec<ResolvedMember>,
    builder: EnumBuilder,
) -> (out: (String, EnumBuilder))
    requires
        members@.len() == 1,
        builder@.has_room(),
    ensures
        out.0@ == variant_annotation(name@, Style::Newtype, resolved_views(members@)),
        out.1@ == builder@.with(variant_node(name@, Style::Newtype, resolved_views(members@))),
{
    let (token, id) = derive_element(&members[0]);
    (tag_object(name, Some(token.as_str())), builder.newtype_variant(name, id))
}

/// A variant with positional members.
pub fn derive_tuple_variant(
    name: &str,
    members: &Vec<ResolvedMember>,
    builder: EnumBuilder,
) -> (out: (String, EnumBuilder))
    requires
        builder@.has_room(),
    ensures
        out.0@ == variant_annotation(name@, Style::Tuple, resolved_views(members@)),
        out.1@ == builder@.with(variant_node(name@, Style::Tuple, resolved_views(members@))),
{
    let ghost views = resolved_views(members@);
    let ghost parent = builder@;
    let len = members.len();
    let mut nested = builder.tuple_variant(name, len);
    let mut tokens: Vec<String> = Vec::new();
    let mut i: usize = 0;
    proof {
        assert(ids_of(views).take(0) =~= Seq::empty());
        assert(texts(tokens@) =~= tokens_of(views).take(0));
    }
    while i < len
        invariant
            i <= len,
            len == members@.len(),
            views == resolved_views(members@),
            nested@ == (NestedBuilderView::<SchemaTypeId> {
                parent,
                own: BuilderView {
                    name: name@,
                    expected: len as nat,
                    items: ids_of(views).take(i as int),
                },
            }),
            texts(tokens@) == tokens_of(views).take(i as int),
        decreases len - i,
    {
        let ghost before = tokens@;
        let (token, id) = derive_element(&members[i]);
        nested = nested.element(id);
        tokens.push(token);
        proof {
            assert(views[i as int] == members@[i as int]@);
            assert(ids_of(views).take(i as int + 1) =~= ids_of(views).take(i as int).push(id));
            assert(texts(tokens@) =~= texts(before).push(token@));
            assert(tokens_of(views).take(i as int + 1) =~= tokens_of(views).take(i as int).push(
                token@,
            ));
        }
        i += 1;
    }
    proof {
        assert(ids_of(views).take(len as int) =~= ids_of(views));
        assert(tokens_of(views).take(len as int) =~= tokens_of(views));
    }
    let payload = collapse_list_bracket(&tokens);
    (tag_object(name, Some(payload.as_str())), nested.end())
}

/// A variant with named fields.
pub fn derive_struct_variant(
    name: &str,
    members: &Vec<ResolvedMember>,
    builder: EnumBuilder,
) -> (out: (String, EnumBuilder))
    requires
        builder@.has_room(),
    ensures
        out.0@ == variant_annotation(name@, Style::Struct, resolved_views(members@)),
        out.1@ == builder@.with(variant_node(name@, Style::Struct, resolved_views(members@))),
{
    let ghost views = resolved_views(members@);
    let ghost parent = builder@;
    let len = members.len();
    let mut nested = builder.struct_variant(name, len);
    let mut fragments: Vec<String> = Vec::new();
    let mut i: usize = 0;
    proof {
        assert(fields_of(views).take(0) =~= Seq::empty());
        assert(texts(fragments@) =~= fragments_of(views).take(0));
    }
    while i < len
        invariant
            i <= len,
            len == members@.len(),
            views == resolved_views(members@),
            nested@ == (NestedBuilderView::<FieldView> {
                parent,
                own: BuilderView {
                    name: name@,
                    expected: len as nat,
                    items: fields_of(views).take(i as int),
                },
            }),
            texts(fragments@) == fragments_of(views).take(i as int),
        decreases len - i,
    {
        let ghost before = fragments@;
        let (fragment, field) = derive_field(&members[i]);
        nested = nested.field(field.name.as_str(), field.id);
        fragments.push(fragment);
        proof {
            assert(views[i as int] == members@[i as int]@);
            assert(fields_of(views).take(i as int + 1) =~= fields_of(views).take(i as int).push(
                field_of(views[i as int]),
            ));
            assert(texts(fragments@) =~= texts(before).push(fragment@));
            assert(fragments_of(views).take(i as int + 1) =~= fragments_of(views).take(
                i as int,
            ).push(field_fragment(views[i as int])));
        }
        i += 1;
    }
    proof {
        assert(fields_of(views).take(len as int) =~= fields_of(views));
        assert(fragments_of(views).take(len as int) =~= fragments_of(views));
    }
    let payload = collapse_list_brace(&fragments);
    (tag_object(name, Some(payload.as_str())), nested.end())
}

/// Derives both outputs for one variant and hands its node to `builder`.
pub fn derive_variant(variant: &VariantShape, env: &Env, builder: EnumBuilder) -> (out: (
    String,
    EnumBuilder,
))
    requires
        arity_fits(variant.style, variant.members@.len()),
        builder@.has_room(),
    ensures
        out.0@ == annotation_of_variant(variant@, env@),
        out.1@ == builder@.with(node_of_variant(variant@, env@)),
{
    let name = variant.name.effective();
    match variant.style {
        Style::Struct => {
            let resolved = derive_register_field_types(&variant.members, env);
            derive_struct_variant(name, &resolved, builder)
        },
        Style::Newtype => {
            let resolved = derive_register_field_types(&variant.members, env);
            assert(resolved@.len() == resolved_views(resolved@).len());
            derive_newtype_variant(name, &resolved, builder)
        },
        Style::Tuple => {
            let resolved = derive_register_field_types(&variant.members, env);
            derive_tuple_variant(name, &resolved, builder)
        },
        Style::Unit => derive_unit_variant(name, builder),
    }
}

/// Derives both outputs for an enum known as `name`.
///
/// A variant with two named fields of the same effective name is an error.
/// Otherwise each variant, in declaration order, gives its annotation and
/// its node; the annotations are joined with ` | `, the nodes make up the
/// enum's node.
pub fn derive_enum(name: &str, variants: &Vec<VariantShape>, env: &Env) -> (out: Result<
    (String, SchemaNode),
    DeriveError,
>)
    requires
        variants_fit(variant_views(variants@)),
    ensures
        match out {
            Ok(pair) => {
                &&& enum_error(name@, variant_views(variants@)) is None
                &&& pair.0@ == enum_annotation(variant_views(variants@), env@)
                &&& pair.1@ == enum_node(name@, variant_views(variants@), env@)
            },
            Err(e) => enum_error(name@, variant_views(variants@)) == Some(e@),
        },
{
    match check_variant_names(name, variants) {
        Some(e) => {
            return Err(e);
        },
        None => {},
    }
    let ghost views = variant_views(variants@);
    let ghost nodes = variant_nodes(views, env@);
    let ghost annotations = variant_annotations(views, env@);
    let len = variants.len();
    let mut builder = SchemaNode::build().enum_type(name, len);
    let mut fragments: Vec<String> = Vec::new();
    let mut i: usize = 0;
    proof {
        assert(nodes.take(0) =~= Seq::empty());
        assert(texts(fragments@) =~= annotations.take(0));
    }
    while i < len
        invariant
            i <= len,
            len == variants@.len(),
            views == variant_views(variants@),
            variants_fit(views),
            nodes == variant_nodes(views, env@),
            annotations == variant_annotations(views, env@),
            builder@ == (BuilderView::<VariantNodeView> {
                name: name@,
                expected: len as nat,
                items: nodes.take(i as int),
            }),
            texts(fragments@) == annotations.take(i as int),
        decreases len - i,
    {
        let ghost before = fragments@;
        proof {
            assert(views[i as int] == variants@[i as int]@);
            assert(arity_fits(views[i as int].style, views[i as int].members.len()));
        }
        let (fragment, next) = derive_variant(&variants[i], env, builder);
        builder = next;
        fragments.push(fragment);
        proof {
            assert(nodes.take(i as int + 1) =~= nodes.take(i as int).push(nodes[i as int]));
            assert(texts(fragments@) =~= texts(before).push(fragment@));
            assert(annotations.take(i as int + 1) =~= annotations.take(i as int).push(
                annotations[i as int],
            ));
        }
        i += 1;
    }
    proof {
        assert(nodes.take(len as int) =~= nodes);
        assert(annotations.take(len as int) =~= annotations);
    }
    Ok((join(&fragments, " | "), builder.end()))
}

} // verus!
