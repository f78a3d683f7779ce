//! Resolution of members: for each member its effective name, the identifier
//! of its type and the annotation token of its type, found in one pass and
//! then handed to both outputs.

use vstd::prelude::*;
use vstd::string::*;

use crate::mapper::{resolve, resolve_type, Env, EnvView};
use crate::schema::{FieldNode, FieldView, PrimitiveKind, SchemaTypeId};
use crate::shape::{member_views, Member, MemberView};
use crate::text::{join, joined, quote_name, quoted, same_text, texts};

verus! {

/// A member after resolution.
pub struct ResolvedMember {
    pub name: String,
    pub id: SchemaTypeId,
    pub token: String,
}

/// The model of a `ResolvedMember`.
pub struct ResolvedView {
    /// The effective name.
    pub name: Seq<char>,
    /// The identifier of the member's type.
    pub id: SchemaTypeId,
    /// The annotation token of the member's type.
    pub token: Seq<char>,
}

impl View for ResolvedMember {
    type V = ResolvedView;

    open spec fn view(&self) -> ResolvedView {
        ResolvedView { name: self.name@, id: self.id, token: self.token@ }
    }
}

impl ResolvedView {
    /// The member's type was not resolved: it has the unknown identifier and
    /// the token `any`.
    pub open spec fn is_unknown(self) -> bool {
        self.id == SchemaTypeId::unknown() && self.token == "any"@
    }
}

impl ResolvedMember {
    /// Tells whether the member's type was left unresolved, so that a caller
    /// can report what the outputs pass over in silence.
    pub fn is_unknown(&self) -> (yes: bool)
        ensures
            yes == self@.is_unknown(),
    {
        self.id == SchemaTypeId::Primitive(PrimitiveKind::Unit) && same_text(
            self.token.as_str(),
            "any",
        )
    }
}

/// The models of a list of resolved members, in order.
pub open spec fn resolved_views(members: Seq<ResolvedMember>) -> Seq<ResolvedView> {
    members.map_values(|m: ResolvedMember| m@)
}

/// What `member` resolves to in `env`: its override where it has one, else
/// its declared identifier, and the identifier and token of its type.
pub open spec fn resolve_member(member: MemberView, env: EnvView) -> ResolvedView {
    ResolvedView {
        name: member.name.effective(),
        id: resolve(member.ty, env).id,
        token: resolve(member.ty, env).token,
    }
}

/// What each of `members` resolves to, in their order.
pub open spec fn resolve_members(members: Seq<MemberView>, env: EnvView) -> Seq<ResolvedView> {
    members.map_values(|m: MemberView| resolve_member(m, env))
}

/// The identifiers of resolved members, in order.
pub open spec fn ids_of(members: Seq<ResolvedView>) -> Seq<SchemaTypeId> {
    members.map_values(|m: ResolvedView| m.id)
}

/// The tokens of resolved members, in order.
pub open spec fn tokens_of(members: Seq<ResolvedView>) -> Seq<Seq<char>> {
    members.map_values(|m: ResolvedView| m.token)
}

/// The schema field of a resolved member.
pub open spec fn field_of(member: ResolvedView) -> FieldView {
    FieldView { name: member.name, id: member.id }
}

/// The schema fields of resolved members, in order.
pub open spec fn fields_of(members: Seq<ResolvedView>) -> Seq<FieldView> {
    members.map_values(|m: ResolvedView| field_of(m))
}

/// The annotation of one named member: its quoted name, a colon and a space,
/// and its token.
pub open spec fn field_fragment(member: ResolvedView) -> Seq<char> {
    quoted(member.name) + ": "@ + member.token
}

/// The annotations of named members, in order.
pub open spec fn fragments_of(members: Seq<ResolvedView>) -> Seq<Seq<char>> {
    members.map_values(|m: ResolvedView| field_fragment(m))
}

/// The annotation of a list of elements: the one element alone where there
/// is exactly one, else the elements in square brackets, separated by a comma
/// and a space.
pub open spec fn bracket_list(body: Seq<Seq<char>>) -> Seq<char> {
    if body.len() == 1 {
        body[0]
    } else {
        "["@ + joined(body, ", "@) + "]"@
    }
}

/// The annotation of a list of named members: the members in braces,
/// separated by a comma and a space.
pub open spec fn brace_list(body: Seq<Seq<char>>) -> Seq<char> {
    "{"@ + joined(body, ", "@) + "}"@
}

/// Resolves one member.
pub fn resolve_one(member: &Member, env: &Env) -> (resolved: ResolvedMember)
    ensures
        resolved@ == resolve_member(member@, env@),
{
    let ty = resolve_type(&member.ty, env);
    ResolvedMember { name: String::from_str(member.name.effective()), id: ty.id, token: ty.token }
}

/// Resolves every member, in declaration order.
pub fn derive_register_field_types(members: &Vec<Member>, env: &Env) -> (resolved: Vec<
    ResolvedMember,
>)
    ensures
        resolved_views(resolved@) == resolve_members(member_views(members@), env@),
{
    let mut resolved: Vec<ResolvedMember> = Vec::new();
    let mut i: usize = 0;
    while i < members.len()
        invariant
            i <= members.len(),
            resolved@.len() == i,
            forall|k: int|
                0 <= k < i ==> (#[trigger] resolved@[k])@ == resolve_member(members@[k]@, env@),
        decreases members.len() - i,
    {
        let one = resolve_one(&members[i], env);
        resolved.push(one);
        i += 1;
    }
    assert(resolved_views(resolved@) =~= resolve_members(member_views(members@), env@));
    resolved
}

/// What a named member contributes: its annotation and its schema field.
pub fn derive_field(member: &ResolvedMember) -> (out: (String, FieldNode))
    ensures
        out.0@ == field_fragment(member@),
        out.1@ == field_of(member@),
{
    let mut fragment = quote_name(member.name.as_str());
    fragment.append(": ");
    fragment.append(member.token.as_str());
    (fragment, FieldNode { name: member.name.clone(), id: member.id })
}

/// What a positional member contributes: its annotation token and the
/// identifier of its type.
pub fn derive_element(member: &ResolvedMember) -> (out: (String, SchemaTypeId))
    ensures
        out.0@ == member@.token,
        out.1 == member@.id,
{
    (member.token.clone(), member.id)
}

/// Renders a list of elements.
pub fn collapse_list_bracket(body: &Vec<String>) -> (out: String)
    ensures
        out@ == bracket_list(texts(body@)),
{
    if body.len() == 1 {
        body[0].clone()
    } else {
        let mut out = String::from_str("[");
        let inner = join(body, ", ");
        out.append(inner.as_str());
        out.append("]");
        out
    }
}

/// Renders a list of named members.
pub fn collapse_list_brace(body: &Vec<String>) -> (out: String)
    ensures
        out@ == brace_list(texts(body@)),
{
    let mut out = String::from_str("{");
    let inner = join(body, ", ");
    out.append(inner.as_str());
    out.append("}");
    out
}

} // verus!
