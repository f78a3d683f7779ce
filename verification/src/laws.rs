//! What holds of every derivation, stated over the models and proved.

use vstd::prelude::*;

use crate::derive_enum::{
    annotation_of_variant, enum_annotation, enum_node, node_of_variant, tagged,
    variant_annotations, variant_nodes, variant_payload,
};
use crate::derive_struct::struct_annotation;
use crate::mapper::{resolve, EnvView};
use crate::member::{
    field_fragment, field_of, fields_of, fragments_of, ids_of, resolve_member, resolve_members,
    tokens_of, ResolvedView,
};
use crate::schema::{field_names, SchemaNodeView, SchemaTypeId, VariantNodeView};
use crate::shape::{
    arity_fits, ContainerView, DataView, MemberView, Style, TypeRefView, VariantView,
};
use crate::text::{
    joined, lemma_joined_order, lemma_joined_part, lemma_quoted_injective, part_start, quoted,
};
use crate::{annotation_of, node_of, own_env};

verus! {

/// The node of a shape records as many members as the shape declares: the
/// fields or elements of a struct, the variants of an enum.
pub proof fn law_node_records_declared_arity(shape: ContainerView, env: EnvView)
    requires
        shape.arity_ok(),
    ensures
        node_of(shape, env).arity() == shape.declared_arity(),
{
}

/// The node of a variant records as many members as the variant declares,
/// and the node of an enum holds, at each place, the node of the variant
/// declared at that place.
pub proof fn law_variant_records_declared_arity(
    name: Seq<char>,
    variants: Seq<VariantView>,
    env: EnvView,
    i: int,
)
    requires
        0 <= i < variants.len(),
        arity_fits(variants[i].style, variants[i].members.len()),
    ensures
        enum_node(name, variants, env) == (SchemaNodeView::Enum {
            name,
            variants: variant_nodes(variants, env),
        }),
        variant_nodes(variants, env).len() == variants.len(),
        variant_nodes(variants, env)[i] == node_of_variant(variants[i], env),
        variant_nodes(variants, env)[i].arity() == variants[i].members.len(),
{
}

/// The node holds its members in declaration order: at each place the name
/// and the identifier of the member declared at that place.
pub proof fn law_node_keeps_declaration_order(members: Seq<MemberView>, env: EnvView, i: int)
    requires
        0 <= i < members.len(),
    ensures
        fields_of(resolve_members(members, env))[i].name == members[i].name.effective(),
        fields_of(resolve_members(members, env))[i].id == resolve(members[i].ty, env).id,
        ids_of(resolve_members(members, env))[i] == resolve(members[i].ty, env).id,
{
}

/// Named members that are known by different names have different keys in
/// the annotation.
pub proof fn law_different_names_have_different_keys(first: MemberView, second: MemberView)
    requires
        first.name.effective() != second.name.effective(),
    ensures
        quoted(first.name.effective()) != quoted(second.name.effective()),
{
    if quoted(first.name.effective()) == quoted(second.name.effective()) {
        lemma_quoted_injective(first.name.effective(), second.name.effective());
    }
}

/// Named members appear in the annotation in declaration order, in a struct
/// and in a variant alike: each member's fragment stands in the text
/// unchanged, and the fragment of an earlier member ends before that of a
/// later member begins.
pub proof fn law_fields_keep_declaration_order(
    members: Seq<MemberView>,
    env: EnvView,
    i: int,
    j: int,
)
    requires
        0 <= i < j < members.len(),
    ensures
        ({
            let resolved = resolve_members(members, env);
            let parts = fragments_of(resolved);
            let text = struct_annotation(Style::Struct, resolved);
            let at_i = 1 + part_start(parts, ", "@, i);
            let at_j = 1 + part_start(parts, ", "@, j);
            &&& variant_payload(Style::Struct, resolved) == Some(text)
            &&& parts[i] == field_fragment(resolve_member(members[i], env))
            &&& parts[j] == field_fragment(resolve_member(members[j], env))
            &&& text.subrange(at_i, at_i + parts[i].len()) == parts[i]
            &&& text.subrange(at_j, at_j + parts[j].len()) == parts[j]
            &&& at_i + parts[i].len() < at_j
        }),
{
    let parts = fragments_of(resolve_members(members, env));
    lemma_part_in_wrapped("{"@, parts, ", "@, "}"@, i);
    lemma_part_in_wrapped("{"@, parts, ", "@, "}"@, j);
    lemma_joined_order(parts, ", "@, i, j);
    reveal_strlit("{");
    reveal_strlit(", ");
}

/// Positional members appear in the annotation in declaration order, in a
/// struct and in a variant alike: where there are two or more, each member's
/// token stands in the text unchanged, and the token of an earlier member
/// ends before that of a later member begins.
pub proof fn law_elements_keep_declaration_order(
    members: Seq<MemberView>,
    env: EnvView,
    i: int,
    j: int,
)
    requires
        0 <= i < j < members.len(),
    ensures
        ({
            let resolved = resolve_members(members, env);
            let parts = tokens_of(resolved);
            let text = struct_annotation(Style::Tuple, resolved);
            let at_i = 1 + part_start(parts, ", "@, i);
            let at_j = 1 + part_start(parts, ", "@, j);
            &&& variant_payload(Style::Tuple, resolved) == Some(text)
            &&& parts[i] == resolve(members[i].ty, env).token
            &&& parts[j] == resolve(members[j].ty, env).token
            &&& text.subrange(at_i, at_i + parts[i].len()) == parts[i]
            &&& text.subrange(at_j, at_j + parts[j].len()) == parts[j]
            &&& at_i + parts[i].len() < at_j
        }),
{
    let parts = tokens_of(resolve_members(members, env));
    lemma_part_in_wrapped("["@, parts, ", "@, "]"@, i);
    lemma_part_in_wrapped("["@, parts, ", "@, "]"@, j);
    lemma_joined_order(parts, ", "@, i, j);
    reveal_strlit("[");
    reveal_strlit(", ");
}

/// Variants appear in the annotation of an enum in declaration order: each
/// variant's annotation stands in the text unchanged, and the annotation of
/// an earlier variant ends before that of a later variant begins.
pub proof fn law_variants_keep_declaration_order(
    variants: Seq<VariantView>,
    env: EnvView,
    i: int,
    j: int,
)
    requires
        0 <= i < j < variants.len(),
    ensures
        ({
            let parts = variant_annotations(variants, env);
            let text = enum_annotation(variants, env);
            let at_i = part_start(parts, " | "@, i);
            let at_j = part_start(parts, " | "@, j);
            &&& parts[i] == annotation_of_variant(variants[i], env)
            &&& parts[j] == annotation_of_variant(variants[j], env)
            &&& text.subrange(at_i, at_i + parts[i].len()) == parts[i]
            &&& text.subrange(at_j, at_j + parts[j].len()) == parts[j]
            &&& at_i + parts[i].len() < at_j
        }),
{
    let parts = variant_annotations(variants, env);
    lemma_joined_part(parts, " | "@, i);
    lemma_joined_part(parts, " | "@, j);
    lemma_joined_order(parts, " | "@, i, j);
    reveal_strlit(" | ");
}

/// A part of a joined list keeps its place when the list is put between an
/// opening and a closing text: it moves by the length of the opening.
pub proof fn lemma_part_in_wrapped(
    opening: Seq<char>,
    parts: Seq<Seq<char>>,
    sep: Seq<char>,
    closing: Seq<char>,
    i: int,
)
    requires
        0 <= i < parts.len(),
    ensures
        ({
            let text = opening + joined(parts, sep) + closing;
            let at = opening.len() + part_start(parts, sep, i);
            text.subrange(at, at + parts[i].len()) == parts[i]
        }),
{
    let inner = joined(parts, sep);
    let text = opening + inner + closing;
    let start = part_start(parts, sep, i);
    let at = opening.len() + start;
    lemma_joined_part(parts, sep, i);
    assert(text.subrange(at, at + parts[i].len()) =~= inner.subrange(
        start,
        start + parts[i].len(),
    ));
}

/// An override takes precedence over the declared identifier, and where
/// there is none the declared identifier is used; the name so chosen is the
/// one in the schema field and, quoted, the one in the annotation.
pub proof fn law_override_names_both_outputs(member: MemberView, env: EnvView)
    ensures
        member.name.rename matches Some(r) ==> resolve_member(member, env).name == r,
        member.name.rename is None ==> resolve_member(member, env).name == member.name.declared,
        field_of(resolve_member(member, env)).name == resolve_member(member, env).name,
        field_fragment(resolve_member(member, env)) == quoted(resolve_member(member, env).name)
            + ": "@ + resolve(member.ty, env).token,
{
}

/// The name a container is known by, override first, is the name of its
/// node.
pub proof fn law_override_names_container(shape: ContainerView, env: EnvView)
    ensures
        shape.name.rename matches Some(r) ==> node_of(shape, env).name() == r,
        shape.name.rename is None ==> node_of(shape, env).name() == shape.name.declared,
{
}

/// The name a variant is known by, override first, is the name of its node
/// and, quoted, the tag of its annotation.
pub proof fn law_override_names_variant(variant: VariantView, env: EnvView)
    ensures
        variant.name.rename matches Some(r) ==> node_of_variant(variant, env).name() == r,
        variant.name.rename is None ==> node_of_variant(variant, env).name()
            == variant.name.declared,
        annotation_of_variant(variant, env) == tagged(
            node_of_variant(variant, env).name(),
            variant_payload(variant.style, resolve_members(variant.members, env)),
        ),
{
}

/// The node of a variant has the same outline whatever it is resolved in.
pub proof fn lemma_variant_outline_fixed(variant: VariantView, first: EnvView, second: EnvView)
    ensures
        node_of_variant(variant, first).outline() == node_of_variant(variant, second).outline(),
{
    let a = resolve_members(variant.members, first);
    let b = resolve_members(variant.members, second);
    assert(field_names(fields_of(a)) =~= field_names(fields_of(b)));
    assert(ids_of(a).len() == ids_of(b).len());
}

/// Deriving a shape again gives a node of the same outline: the same form,
/// the same name, the same number of members and the same member names,
/// whatever the identifiers have become in the meantime.
pub proof fn law_rerun_keeps_outline(shape: ContainerView, first: EnvView, second: EnvView)
    ensures
        node_of(shape, first).outline() == node_of(shape, second).outline(),
{
    match shape.data {
        DataView::Struct { style, members } => {
            let a = resolve_members(members, first);
            let b = resolve_members(members, second);
            assert(field_names(fields_of(a)) =~= field_names(fields_of(b)));
            assert(ids_of(a).len() == ids_of(b).len());
        },
        DataView::Enum { variants } => {
            let a = variant_nodes(variants, first).map_values(|v: VariantNodeView| v.outline());
            let b = variant_nodes(variants, second).map_values(|v: VariantNodeView| v.outline());
            assert forall|i: int| 0 <= i < a.len() implies a[i] == b[i] by {
                lemma_variant_outline_fixed(variants[i], first, second);
            }
            assert(a =~= b);
        },
    }
}

/// The token of a type depends on which names are known, not on the
/// identifiers they are known under.
pub proof fn lemma_token_ignores_identifiers(ty: TypeRefView, first: EnvView, second: EnvView)
    requires
        first.scope.dom() == second.scope.dom(),
        first.bytes == second.bytes,
    ensures
        resolve(ty, first).token == resolve(ty, second).token,
    decreases ty,
{
    match ty {
        TypeRefView::Slice(elem) => lemma_token_ignores_identifiers(*elem, first, second),
        TypeRefView::Array(elem) => lemma_token_ignores_identifiers(*elem, first, second),
        TypeRefView::Path { name, arg } => {
            match arg {
                Some(inner) => lemma_token_ignores_identifiers(*inner, first, second),
                None => {},
            }
            assert(first.scope.contains_key(name) == first.scope.dom().contains(name));
            assert(second.scope.contains_key(name) == second.scope.dom().contains(name));
        },
        _ => {},
    }
}

/// The tokens and the fragments of a list of members depend on which names
/// are known, not on the identifiers they are known under.
pub proof fn lemma_members_ignore_identifiers(
    members: Seq<MemberView>,
    first: EnvView,
    second: EnvView,
)
    requires
        first.scope.dom() == second.scope.dom(),
        first.bytes == second.bytes,
    ensures
        tokens_of(resolve_members(members, first)) == tokens_of(resolve_members(members, second)),
        fragments_of(resolve_members(members, first)) == fragments_of(
            resolve_members(members, second),
        ),
{
    let a = resolve_members(members, first);
    let b = resolve_members(members, second);
    assert forall|i: int| 0 <= i < members.len() implies a[i].token == b[i].token && a[i].name
        == b[i].name by {
        lemma_token_ignores_identifiers(members[i].ty, first, second);
    }
    assert(tokens_of(a) =~= tokens_of(b));
    assert(fragments_of(a) =~= fragments_of(b));
}

/// The annotation of a shape depends on which names are known, not on the
/// identifiers they are known under: the annotation never reads the
/// registry.
pub proof fn law_annotation_ignores_identifiers(
    shape: ContainerView,
    first: EnvView,
    second: EnvView,
)
    requires
        shape.arity_ok(),
        first.scope.dom() == second.scope.dom(),
        first.bytes == second.bytes,
    ensures
        annotation_of(shape, first) == annotation_of(shape, second),
{
    match shape.data {
        DataView::Struct { style, members } => {
            lemma_members_ignore_identifiers(members, first, second);
            if style == Style::Newtype {
                assert(tokens_of(resolve_members(members, first))[0] == resolve_members(
                    members,
                    first,
                )[0].token);
                assert(tokens_of(resolve_members(members, second))[0] == resolve_members(
                    members,
                    second,
                )[0].token);
            }
        },
        DataView::Enum { variants } => {
            let a = variant_annotations(variants, first);
            let b = variant_annotations(variants, second);
            assert forall|i: int| 0 <= i < variants.len() implies a[i] == b[i] by {
                let v = variants[i];
                lemma_members_ignore_identifiers(v.members, first, second);
                if v.style == Style::Newtype {
                    assert(tokens_of(resolve_members(v.members, first))[0] == resolve_members(
                        v.members,
                        first,
                    )[0].token);
                    assert(tokens_of(resolve_members(v.members, second))[0] == resolve_members(
                        v.members,
                        second,
                    )[0].token);
                }
            }
            assert(a =~= b);
        },
    }
}

/// Deriving an unchanged shape a second time in the same session, after the
/// first run has registered it under `first_id`, gives the same annotation
/// and a node of the same outline; only identifiers may differ.
pub proof fn law_rerun_in_session(
    shape: ContainerView,
    scope: Map<Seq<char>, SchemaTypeId>,
    bytes: bool,
    first_id: SchemaTypeId,
    second_id: SchemaTypeId,
)
    requires
        shape.arity_ok(),
    ensures
        ({
            let first = own_env(shape, scope, first_id, bytes);
            let second = own_env(
                shape,
                scope.insert(shape.name.declared, first_id),
                second_id,
                bytes,
            );
            &&& node_of(shape, first).outline() == node_of(shape, second).outline()
            &&& annotation_of(shape, first) == annotation_of(shape, second)
        }),
{
    let first = own_env(shape, scope, first_id, bytes);
    let second = own_env(shape, scope.insert(shape.name.declared, first_id), second_id, bytes);
    assert(first.scope.dom() =~= second.scope.dom());
    law_rerun_keeps_outline(shape, first, second);
    law_annotation_ignores_identifiers(shape, first, second);
}

/// The annotation of a list of exactly one element is the element's token
/// alone; that of two or more elements is their tokens, separated by a
/// comma and a space, between `[` and `]`.
pub proof fn law_single_element_collapses(members: Seq<ResolvedView>)
    ensures
        members.len() == 1 ==> struct_annotation(Style::Tuple, members) == members[0].token,
        members.len() == 1 ==> variant_payload(Style::Tuple, members) == Some(members[0].token),
        members.len() >= 2 ==> ({
            let text = struct_annotation(Style::Tuple, members);
            &&& text == "["@ + joined(tokens_of(members), ", "@) + "]"@
            &&& variant_payload(Style::Tuple, members) == Some(text)
            &&& text.first() == '['
            &&& text.last() == ']'
        }),
{
    reveal_strlit("[");
    reveal_strlit("]");
}

} // verus!
