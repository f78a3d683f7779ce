//! The normalized description of a composite type: its style, its members and
//! the names they are known by.

use vstd::prelude::*;
use vstd::string::*;

verus! {

/// The four forms a container or an enum variant can take.
#[derive(Clone, Copy, Debug, PartialEq, Eq, Structural)]
pub enum Style {
    Unit,
    Newtype,
    Tuple,
    Struct,
}

/// Whether `count` members are an admissible number for `style`.
pub open spec fn arity_fits(style: Style, count: nat) -> bool {
    match style {
        Style::Unit => count == 0,
        Style::Newtype => count == 1,
        Style::Tuple => true,
        Style::Struct => true,
    }
}

/// Decides `arity_fits` for a concrete member count.
pub fn check_arity(style: Style, count: usize) -> (ok: bool)
    ensures
        ok == arity_fits(style, count as nat),
{
    match style {
        Style::Unit => count == 0,
        Style::Newtype => count == 1,
        Style::Tuple => true,
        Style::Struct => true,
    }
}

/// A declared identifier together with the override that may replace it.
#[derive(Clone, Debug, PartialEq, Eq)]
pub struct Name {
    pub declared: String,
    pub rename: Option<String>,
}

/// The model of a `Name`.
pub struct NameView {
    pub declared: Seq<char>,
    pub rename: Option<Seq<char>>,
}

impl NameView {
    /// The name under which the item is known: the override where there is
    /// one, the declared identifier otherwise.
    pub open spec fn effective(self) -> Seq<char> {
        match self.rename {
            Some(r) => r,
            None => self.declared,
        }
    }
}

impl View for Name {
    type V = NameView;

    open spec fn view(&self) -> NameView {
        NameView {
            declared: self.declared@,
            rename: match self.rename {
                Some(r) => Some(r@),
                None => None,
            },
        }
    }
}

impl Name {
    /// A name without an override.
    pub fn plain(declared: &str) -> (name: Name)
        ensures
            name@ == (NameView { declared: declared@, rename: None }),
    {
        Name { declared: String::from_str(declared), rename: None }
    }

    /// A name with an override.
    pub fn renamed(declared: &str, rename: &str) -> (name: Name)
        ensures
            name@ == (NameView { declared: declared@, rename: Some(rename@) }),
    {
        Name { declared: String::from_str(declared), rename: Some(String::from_str(rename)) }
    }

    /// The effective name.
    pub fn effective(&self) -> (text: &str)
        ensures
            text@ == self@.effective(),
    {
        match &self.rename {
            Some(r) => r.as_str(),
            None => self.declared.as_str(),
        }
    }
}

/// A native type expression, reduced to what the mapping from types to
/// schema kinds and annotation tokens reads.
#[derive(Debug, PartialEq, Eq)]
pub enum TypeRef {
    /// `[T]`
    Slice(Box<TypeRef>),
    /// `[T; n]`
    Array(Box<TypeRef>),
    /// `*const T`, `*mut T`
    Ptr,
    /// `&T`, `&mut T`
    Reference(Box<TypeRef>),
    /// `fn(..) -> ..`
    BareFn,
    /// `!`
    Never,
    /// `(A, B, ..)`
    Tuple,
    /// A path: the identifier of its last segment, and the first type among
    /// that segment's generic arguments, if it has one.
    Path { name: String, arg: Option<Box<TypeRef>> },
    /// `dyn Trait`
    TraitObject,
    /// `impl Trait`
    ImplTrait,
    /// `(T)`
    Paren,
    /// A type inside invisible delimiters.
    Group,
    /// `_`
    Infer,
    /// A macro in type position.
    Macro,
    /// Tokens that were not interpreted.
    Verbatim,
}

/// The model of a `TypeRef`.
pub enum TypeRefView {
    Slice(Box<TypeRefView>),
    Array(Box<TypeRefView>),
    Ptr,
    Reference(Box<TypeRefView>),
    BareFn,
    Never,
    Tuple,
    Path { name: Seq<char>, arg: Option<Box<TypeRefView>> },
    TraitObject,
    ImplTrait,
    Paren,
    Group,
    Infer,
    Macro,
    Verbatim,
}

impl View for TypeRef {
    type V = TypeRefView;

    open spec fn view(&self) -> TypeRefView
        decreases self,
    {
        match self {
            TypeRef::Slice(t) => TypeRefView::Slice(Box::new((**t).view())),
            TypeRef::Array(t) => TypeRefView::Array(Box::new((**t).view())),
            TypeRef::Ptr => TypeRefView::Ptr,
            TypeRef::Reference(t) => TypeRefView::Reference(Box::new((**t).view())),
            TypeRef::BareFn => TypeRefView::BareFn,
            TypeRef::Never => TypeRefView::Never,
            TypeRef::Tuple => TypeRefView::Tuple,
            TypeRef::Path { name, arg } => TypeRefView::Path {
                name: name@,
                arg: match arg {
                    Some(t) => Some(Box::new((**t).view())),
                    None => None,
                },
            },
            TypeRef::TraitObject => TypeRefView::TraitObject,
            TypeRef::ImplTrait => TypeRefView::ImplTrait,
            TypeRef::Paren => TypeRefView::Paren,
            TypeRef::Group => TypeRefView::Group,
            TypeRef::Infer => TypeRefView::Infer,
            TypeRef::Macro => TypeRefView::Macro,
            TypeRef::Verbatim => TypeRefView::Verbatim,
        }
    }
}

impl TypeRef {
    /// A path without generic arguments.
    pub fn named(name: &str) -> (ty: TypeRef)
        ensures
            ty@ == (TypeRefView::Path { name: name@, arg: None }),
    {
        TypeRef::Path { name: String::from_str(name), arg: None }
    }

    /// A path whose last segment has `arg` as its first generic type argument.
    pub fn generic(name: &str, arg: TypeRef) -> (ty: TypeRef)
        ensures
            ty@ == (TypeRefView::Path { name: name@, arg: Some(Box::new(arg@)) }),
    {
        TypeRef::Path { name: String::from_str(name), arg: Some(Box::new(arg)) }
    }
}

/// One field of a container or of a variant.
#[derive(Debug, PartialEq, Eq)]
pub struct Member {
    pub name: Name,
    pub ty: TypeRef,
}

/// The model of a `Member`.
pub struct MemberView {
    pub name: NameView,
    pub ty: TypeRefView,
}

impl View for Member {
    type V = MemberView;

    open spec fn view(&self) -> MemberView {
        MemberView { name: self.name@, ty: self.ty@ }
    }
}

impl Member {
    /// A member known by its declared identifier.
    pub fn new(declared: &str, ty: TypeRef) -> (member: Member)
        ensures
            member@ == (MemberView {
                name: NameView { declared: declared@, rename: None },
                ty: ty@,
            }),
    {
        Member { name: Name::plain(declared), ty }
    }

    /// A member known by an override.
    pub fn renamed(declared: &str, rename: &str, ty: TypeRef) -> (member: Member)
        ensures
            member@ == (MemberView {
                name: NameView { declared: declared@, rename: Some(rename@) },
                ty: ty@,
            }),
    {
        Member { name: Name::renamed(declared, rename), ty }
    }
}

/// The models of a list of members, in order.
pub open spec fn member_views(members: Seq<Member>) -> Seq<MemberView> {
    members.map_values(|m: Member| m@)
}

/// The effective names of a list of members, in order.
pub open spec fn effective_names(members: Seq<MemberView>) -> Seq<Seq<char>> {
    members.map_values(|m: MemberView| m.name.effective())
}

/// One variant of an enum.
#[derive(Debug, PartialEq, Eq)]
pub struct VariantShape {
    pub name: Name,
    pub style: Style,
    pub members: Vec<Member>,
}

/// The model of a `VariantShape`.
pub struct VariantView {
    pub name: NameView,
    pub style: Style,
    pub members: Seq<MemberView>,
}

impl View for VariantShape {
    type V = VariantView;

    open spec fn view(&self) -> VariantView {
        VariantView { name: self.name@, style: self.style, members: member_views(self.members@) }
    }
}

/// The models of a list of variants, in order.
pub open spec fn variant_views(variants: Seq<VariantShape>) -> Seq<VariantView> {
    variants.map_values(|v: VariantShape| v@)
}

/// What a container holds: members of its own, or variants.
#[derive(Debug, PartialEq, Eq)]
pub enum ShapeData {
    Struct { style: Style, members: Vec<Member> },
    Enum { variants: Vec<VariantShape> },
}

/// The model of a `ShapeData`.
pub enum DataView {
    Struct { style: Style, members: Seq<MemberView> },
    Enum { variants: Seq<VariantView> },
}

impl View for ShapeData {
    type V = DataView;

    open spec fn view(&self) -> DataView {
        match self {
            ShapeData::Struct { style, members } => DataView::Struct {
                style: *style,
                members: member_views(members@),
            },
            ShapeData::Enum { variants } => DataView::Enum { variants: variant_views(variants@) },
        }
    }
}

/// A composite type as the derivation receives it.
#[derive(Debug, PartialEq, Eq)]
pub struct ContainerShape {
    pub name: Name,
    pub data: ShapeData,
}

/// The model of a `ContainerShape`.
pub struct ContainerView {
    pub name: NameView,
    pub data: DataView,
}

impl View for ContainerShape {
    type V = ContainerView;

    open spec fn view(&self) -> ContainerView {
        ContainerView { name: self.name@, data: self.data@ }
    }
}

/// The models of a list of containers, in order.
pub open spec fn container_views(shapes: Seq<ContainerShape>) -> Seq<ContainerView> {
    shapes.map_values(|s: ContainerShape| s@)
}

/// Every variant has a number of members that its style admits.
pub open spec fn variants_fit(variants: Seq<VariantView>) -> bool {
    forall|i: int|
        0 <= i < variants.len() ==> arity_fits(
            (#[trigger] variants[i]).style,
            variants[i].members.len(),
        )
}

impl ContainerView {
    /// How many members the container declares: fields or elements of a
    /// struct, variants of an enum.
    pub open spec fn declared_arity(self) -> nat {
        match self.data {
            DataView::Struct { members, .. } => members.len(),
            DataView::Enum { variants } => variants.len(),
        }
    }

    /// The container, and each of its variants, has a number of members that
    /// its style admits: none for a unit, one for a newtype.
    pub open spec fn arity_ok(self) -> bool {
        match self.data {
            DataView::Struct { style, members } => arity_fits(style, members.len()),
            DataView::Enum { variants } => variants_fit(variants),
        }
    }
}

/// Decides `variants_fit` for a concrete list of variants.
pub fn check_variants(variants: &Vec<VariantShape>) -> (ok: bool)
    ensures
        ok == variants_fit(variant_views(variants@)),
{
    let ghost views = variant_views(variants@);
    let mut i: usize = 0;
    while i < variants.len()
        invariant
            i <= variants.len(),
            views == variant_views(variants@),
            forall|k: int|
                0 <= k < i ==> arity_fits((#[trigger] views[k]).style, views[k].members.len()),
        decreases variants.len() - i,
    {
        assert(views[i as int] == variants@[i as int]@);
        if !check_arity(variants[i].style, variants[i].members.len()) {
            return false;
        }
        i += 1;
    }
    true
}

impl ContainerShape {
    /// Decides whether the member counts agree with the styles.
    pub fn has_valid_arity(&self) -> (ok: bool)
        ensures
            ok == self@.arity_ok(),
    {
        match &self.data {
            ShapeData::Struct { style, members } => check_arity(*style, members.len()),
            ShapeData::Enum { variants } => check_variants(variants),
        }
    }
}

} // verus!
