//! The four shapes of a struct: unit, newtype, tuple and named fields. Each
//! handler gives the annotation and the schema node of its shape.

use vstd::prelude::*;
use vstd::string::*;

use crate::builder::BuilderView;
use crate::error::{check_members, struct_error, DeriveError};
use crate::mapper::Env;
use crate::member::{
    brace_list, bracket_list, collapse_list_brace, collapse_list_bracket, derive_element,
    derive_field, derive_register_field_types, field_fragment, field_of, fields_of, fragments_of,
    ids_of, resolve_members, resolved_views, tokens_of, ResolvedMember, ResolvedView,
};
use crate::schema::{FieldView, SchemaNode, SchemaNodeView, SchemaTypeId};
use crate::shape::{arity_fits, member_views, Member, Style};
use crate::text::texts;

verus! {

/// The annotation of a struct of style `style` with the resolved members
/// `members`: `{}` for a unit, the member's token for a newtype, the list of
/// tokens for a tuple, the list of named members for named fields.
pub open spec fn struct_annotation(style: Style, members: Seq<ResolvedView>) -> Seq<char> {
    match style {
        Style::Unit => "{}"@,
        Style::Newtype => members[0].token,
        Style::Tuple => bracket_list(tokens_of(members)),
        Style::Struct => brace_list(fragments_of(members)),
    }
}

/// The schema node of a struct known as `name`, of style `style`, with the
/// resolved members `members`.
pub open spec fn struct_node(
    name: Seq<char>,
    style: Style,
    members: Seq<ResolvedView>,
) -> SchemaNodeView {
    match style {
        Style::Unit => SchemaNodeView::UnitStruct { name },
        Style::Newtype => SchemaNodeView::NewtypeStruct { name, inner: members[0].id },
        Style::Tuple => SchemaNodeView::TupleStruct { name, elements: ids_of(members) },
        Style::Struct => SchemaNodeView::Struct { name, fields: fields_of(members) },
    }
}

/// A struct without members.
pub fn derive_struct_unit(name: &str) -> (out: (String, SchemaNode))
    ensures
        out.0@ == struct_annotation(Style::Unit, Seq::empty()),
        out.1@ == struct_node(name@, Style::Unit, Seq::empty()),
{
    (String::from_str("{}"), SchemaNode::build().unit_struct_type(name))
}

/// A struct that wraps its one member.
pub fn derive_struct_newtype(name: &str, members: &Vec<ResolvedMember>) -> (out: (
    String,
    SchemaNode,
))
    requires
        members@.len() == 1,
    ensures
        out.0@ == struct_annotation(Style::Newtype, resolved_views(members@)),
        out.1@ == struct_node(name@, Style::Newtype, resolved_views(members@)),
{
    let (token, id) = derive_element(&members[0]);
    (token, SchemaNode::build().newtype_struct_type(name, id))
}

/// A struct with positional members.
pub fn derive_struct_tuple(name: &str, members: &Vec<ResolvedMember>) -> (out: (
    String,
    SchemaNode,
))
    ensures
        out.0@ == struct_annotation(Style::Tuple, resolved_views(members@)),
        out.1@ == struct_node(name@, Style::Tuple, resolved_views(members@)),
{
    let ghost views = resolved_views(members@);
    let len = members.len();
    let mut builder = SchemaNode::build().tuple_struct_type(name, len);
    let mut tokens: Vec<String> = Vec::new();
    let mut i: usize = 0;
    proof {
        assert(ids_of(views).take(0) =~= Seq::empty());
        assert(texts(tokens@) =~= tokens_of(views).take(0));
    }
    while i < len
        invariant
            i <= len,
            len == members@.len(),
            views == resolved_views(members@),
            builder@ == (BuilderView::<SchemaTypeId> {
                name: name@,
                expected: len as nat,
                items: ids_of(views).take(i as int),
            }),
            texts(tokens@) == tokens_of(views).take(i as int),
        decreases len - i,
    {
        let ghost before = tokens@;
        let (token, id) = derive_element(&members[i]);
        builder = builder.element(id);
        tokens.push(token);
        proof {
            assert(views[i as int] == members@[i as int]@);
            assert(ids_of(views).take(i as int + 1) =~= ids_of(views).take(i as int).push(id));
            assert(texts(tokens@) =~= texts(before).push(token@));
            assert(tokens_of(views).take(i as int + 1) =~= tokens_of(views).take(i as int).push(
                token@,
            ));
        }
        i += 1;
    }
    proof {
        assert(ids_of(views).take(len as int) =~= ids_of(views));
        assert(tokens_of(views).take(len as int) =~= tokens_of(views));
    }
    (collapse_list_bracket(&tokens), builder.end())
}

/// A struct with named fields.
pub fn derive_struct_named_fields(name: &str, members: &Vec<ResolvedMember>) -> (out: (
    String,
    SchemaNode,
))
    ensures
        out.0@ == struct_annotation(Style::Struct, resolved_views(members@)),
        out.1@ == struct_node(name@, Style::Struct, resolved_views(members@)),
{
    let ghost views = resolved_views(members@);
    let len = members.len();
    let mut builder = SchemaNode::build().struct_type(name, len);
    let mut fragments: Vec<String> = Vec::new();
    let mut i: usize = 0;
    proof {
        assert(fields_of(views).take(0) =~= Seq::empty());
        assert(texts(fragments@) =~= fragments_of(views).take(0));
    }
    while i < len
        invariant
            i <= len,
            len == members@.len(),
            views == resolved_views(members@),
            builder@ == (BuilderView::<FieldView> {
                name: name@,
                expected: len as nat,
                items: fields_of(views).take(i as int),
            }),
            texts(fragments@) == fragments_of(views).take(i as int),
        decreases len - i,
    {
        let ghost before = fragments@;
        let (fragment, field) = derive_field(&members[i]);
        builder = builder.field(field.name.as_str(), field.id);
        fragments.push(fragment);
        proof {
            assert(views[i as int] == members@[i as int]@);
            assert(fields_of(views).take(i as int + 1) =~= fields_of(views).take(i as int).push(
                field_of(views[i as int]),
            ));
            assert(texts(fragments@) =~= texts(before).push(fragment@));
            assert(fragments_of(views).take(i as int + 1) =~= fragments_of(views).take(
                i as int,
            ).push(field_fragment(views[i as int])));
        }
        i += 1;
    }
    proof {
        assert(fields_of(views).take(len as int) =~= fields_of(views));
        assert(fragments_of(views).take(len as int) =~= fragments_of(views));
    }
    (collapse_list_brace(&fragments), builder.end())
}

/// Derives both outputs for a struct known as `name`.
///
/// Two named fields with the same effective name are an error. Otherwise the
/// members are resolved once, in declaration order, and the handler of
/// `style` turns them into the annotation and the node.
pub fn derive_struct(name: &str, style: Style, members: &Vec<Member>, env: &Env) -> (out: Result<
    (String, SchemaNode),
    DeriveError,
>)
    requires
        arity_fits(style, members@.len()),
    ensures
        match out {
            Ok(pair) => {
                &&& struct_error(name@, style, member_views(members@)) is None
                &&& pair.0@ == struct_annotation(
                    style,
                    resolve_members(member_views(members@), env@),
                )
                &&& pair.1@ == struct_node(
                    name@,
                    style,
                    resolve_members(member_views(members@), env@),
                )
            },
            Err(e) => struct_error(name@, style, member_views(members@)) == Some(e@),
        },
{
    match style {
        Style::Struct => {
            match check_members(name, None, members) {
                Some(e) => {
                    return Err(e);
                },
                None => {},
            }
            let resolved = derive_register_field_types(members, env);
            Ok(derive_struct_named_fields(name, &resolved))
        },
        Style::Newtype => {
            let resolved = derive_register_field_types(members, env);
            assert(resolved@.len() == resolved_views(resolved@).len());
            Ok(derive_struct_newtype(name, &resolved))
        },
        Style::Tuple => {
            let resolved = derive_register_field_types(members, env);
            Ok(derive_struct_tuple(name, &resolved))
        },
        Style::Unit => Ok(derive_struct_unit(name)),
    }
}

} // verus!
