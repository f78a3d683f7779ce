//! Why a derivation is refused: two members of one struct shape that are
//! known by the same name.

use vstd::prelude::*;
use vstd::string::*;

use crate::shape::{
    effective_names, member_views, variant_views, Member, MemberView, Style, VariantShape,
    VariantView,
};
use crate::text::{quote_name, quoted, same_text};

verus! {

/// The reason for which a shape is rejected.
#[derive(Clone, Debug, PartialEq, Eq)]
pub enum DeriveError {
    /// Two named members of `container`, or of its variant `variant`, have
    /// the effective name `member`.
    DuplicateMember { container: String, variant: Option<String>, member: String },
}

/// The model of a `DeriveError`.
pub enum DeriveErrorView {
    DuplicateMember { container: Seq<char>, variant: Option<Seq<char>>, member: Seq<char> },
}

impl View for DeriveError {
    type V = DeriveErrorView;

    open spec fn view(&self) -> DeriveErrorView {
        match self {
            DeriveError::DuplicateMember { container, variant, member } => {
                DeriveErrorView::DuplicateMember {
                    container: container@,
                    variant: match variant {
                        Some(v) => Some(v@),
                        None => None,
                    },
                    member: member@,
                }
            },
        }
    }
}

/// The place of the error in words: the container, and after `::` the
/// variant where there is one.
pub open spec fn place_text(container: Seq<char>, variant: Option<Seq<char>>) -> Seq<char> {
    match variant {
        Some(v) => container + "::"@ + v,
        None => container,
    }
}

impl DeriveErrorView {
    /// The wording of the error.
    pub open spec fn message(self) -> Seq<char> {
        match self {
            DeriveErrorView::DuplicateMember { container, variant, member } => {
                "duplicate member name "@ + quoted(member) + " in "@ + place_text(
                    container,
                    variant,
                )
            },
        }
    }
}

impl DeriveError {
    /// Says which name collides, and in which container.
    pub fn message(&self) -> (text: String)
        ensures
            text@ == self@.message(),
    {
        match self {
            DeriveError::DuplicateMember { container, variant, member } => {
                let mut text = String::from_str("duplicate member name ");
                let key = quote_name(member.as_str());
                text.append(key.as_str());
                text.append(" in ");
                text.append(container.as_str());
                match variant {
                    Some(v) => {
                        text.append("::");
                        text.append(v.as_str());
                        assert(text@ =~= self@.message());
                    },
                    None => {},
                }
                text
            },
        }
    }
}

/// The name at `j` has occurred at an earlier place.
pub open spec fn repeats_at(names: Seq<Seq<char>>, j: int) -> bool {
    exists|i: int| 0 <= i < j && #[trigger] names[i] == names[j]
}

/// No name occurs twice.
pub open spec fn all_distinct(names: Seq<Seq<char>>) -> bool {
    forall|j: int| 0 <= j < names.len() ==> !repeats_at(names, j)
}

/// `j` is the first place that holds a name which occurred before.
pub open spec fn is_first_repeat(names: Seq<Seq<char>>, j: int) -> bool {
    &&& 0 <= j < names.len()
    &&& repeats_at(names, j)
    &&& forall|k: int| 0 <= k < j ==> !repeats_at(names, k)
}

/// The first place, in declaration order, at which a member is known by the
/// name of an earlier member; `None` where all effective names differ.
pub fn find_repeat(members: &Vec<Member>) -> (found: Option<usize>)
    ensures
        match found {
            Some(j) => is_first_repeat(effective_names(member_views(members@)), j as int),
            None => all_distinct(effective_names(member_views(members@))),
        },
{
    let ghost names = effective_names(member_views(members@));
    let mut j: usize = 0;
    while j < members.len()
        invariant
            j <= members.len(),
            names == effective_names(member_views(members@)),
            forall|k: int| 0 <= k < j ==> !repeats_at(names, k),
        decreases members.len() - j,
    {
        let mut i: usize = 0;
        while i < j
            invariant
                i <= j < members.len(),
                names == effective_names(member_views(members@)),
                forall|k: int| 0 <= k < j ==> !repeats_at(names, k),
                forall|h: int| 0 <= h < i ==> #[trigger] names[h] != names[j as int],
            decreases j - i,
        {
            if same_text(members[i].name.effective(), members[j].name.effective()) {
                assert(names[i as int] == names[j as int]);
                return Some(j);
            }
            i += 1;
        }
        j += 1;
    }
    None
}

/// Where a name repeats, the first place of a repeat is the only one.
pub proof fn lemma_first_repeat_unique(names: Seq<Seq<char>>, j: int)
    requires
        is_first_repeat(names, j),
    ensures
        !all_distinct(names),
        (choose|c: int| is_first_repeat(names, c)) == j,
{
    let c = choose|c: int| is_first_repeat(names, c);
    assert(is_first_repeat(names, c));
    if c < j {
        assert(!repeats_at(names, c));
    }
    if j < c {
        assert(!repeats_at(names, j));
    }
}

/// The error that the named members of one struct shape give rise to: none
/// where their effective names differ, else the error that names the first
/// name, in declaration order, that an earlier member has too.
pub open spec fn members_error(
    container: Seq<char>,
    variant: Option<Seq<char>>,
    members: Seq<MemberView>,
) -> Option<DeriveErrorView> {
    let names = effective_names(members);
    if all_distinct(names) {
        None
    } else {
        Some(
            DeriveErrorView::DuplicateMember {
                container,
                variant,
                member: names[choose|j: int| is_first_repeat(names, j)],
            },
        )
    }
}

/// The error of a container's own members: only a struct with named fields
/// can have one.
pub open spec fn struct_error(
    container: Seq<char>,
    style: Style,
    members: Seq<MemberView>,
) -> Option<DeriveErrorView> {
    if style == Style::Struct {
        members_error(container, None, members)
    } else {
        None
    }
}

/// The error of one variant: only a variant with named fields can have one.
pub open spec fn variant_error(container: Seq<char>, variant: VariantView) -> Option<
    DeriveErrorView,
> {
    if variant.style == Style::Struct {
        members_error(container, Some(variant.name.effective()), variant.members)
    } else {
        None
    }
}

/// The first error of a list of outcomes, in their order.
pub open spec fn first_error(outcomes: Seq<Option<DeriveErrorView>>) -> Option<DeriveErrorView>
    decreases outcomes.len(),
{
    if outcomes.len() == 0 {
        None
    } else {
        match first_error(outcomes.drop_last()) {
            Some(e) => Some(e),
            None => outcomes.last(),
        }
    }
}

/// An error among the first outcomes is the first error of the whole list.
pub proof fn lemma_first_error_prefix(outcomes: Seq<Option<DeriveErrorView>>, n: int)
    requires
        0 <= n <= outcomes.len(),
        first_error(outcomes.take(n)) is Some,
    ensures
        first_error(outcomes) == first_error(outcomes.take(n)),
    decreases outcomes.len() - n,
{
    if n == outcomes.len() {
        assert(outcomes.take(n) =~= outcomes);
    } else {
        assert(outcomes.take(n + 1).drop_last() =~= outcomes.take(n));
        lemma_first_error_prefix(outcomes, n + 1);
    }
}

/// Where there is no first error, no outcome is an error.
pub proof fn lemma_no_error(outcomes: Seq<Option<DeriveErrorView>>, k: int)
    requires
        first_error(outcomes) is None,
        0 <= k < outcomes.len(),
    ensures
        outcomes[k] is None,
    decreases outcomes.len(),
{
    if k < outcomes.len() - 1 {
        lemma_no_error(outcomes.drop_last(), k);
    }
}

/// The outcome of each variant, in declaration order.
pub open spec fn variant_errors(container: Seq<char>, variants: Seq<VariantView>) -> Seq<
    Option<DeriveErrorView>,
> {
    variants.map_values(|v: VariantView| variant_error(container, v))
}

/// The error of an enum: that of its first variant, in declaration order,
/// that has one.
pub open spec fn enum_error(container: Seq<char>, variants: Seq<VariantView>) -> Option<
    DeriveErrorView,
> {
    first_error(variant_errors(container, variants))
}

/// Checks the named members of one struct shape.
pub fn check_members(container: &str, variant: Option<&str>, members: &Vec<Member>) -> (found:
    Option<DeriveError>)
    ensures
        match found {
            Some(e) => Some(e@),
            None => None,
        } == members_error(
            container@,
            match variant {
                Some(v) => Some(v@),
                None => None,
            },
            member_views(members@),
        ),
{
    match find_repeat(members) {
        Some(j) => {
            proof {
                lemma_first_repeat_unique(effective_names(member_views(members@)), j as int);
            }
            Some(
                DeriveError::DuplicateMember {
                    container: String::from_str(container),
                    variant: match variant {
                        Some(v) => Some(String::from_str(v)),
                        None => None,
                    },
                    member: String::from_str(members[j].name.effective()),
                },
            )
        },
        None => None,
    }
}

/// Checks the variants of an enum, in declaration order.
pub fn check_variant_names(container: &str, variants: &Vec<VariantShape>) -> (found: Option<
    DeriveError,
>)
    ensures
        match found {
            Some(e) => Some(e@),
            None => None,
        } == enum_error(container@, variant_views(variants@)),
{
    let ghost outcomes = variant_errors(container@, variant_views(variants@));
    let mut i: usize = 0;
    while i < variants.len()
        invariant
            i <= variants.len(),
            outcomes == variant_errors(container@, variant_views(variants@)),
            first_error(outcomes.take(i as int)) is None,
        decreases variants.len() - i,
    {
        proof {
            assert(outcomes.take(i as int + 1).drop_last() =~= outcomes.take(i as int));
            assert(outcomes.take(i as int + 1).last() == variant_error(
                container@,
                variants@[i as int]@,
            ));
        }
        match variants[i].style {
            Style::Struct => {
                let found = check_members(
                    container,
                    Some(variants[i].name.effective()),
                    &variants[i].members,
                );
                if found.is_some() {
                    proof {
                        lemma_first_error_prefix(outcomes, i as int + 1);
                    }
                    return found;
                }
            },
            _ => {},
        }
        i += 1;
    }
    proof {
        assert(outcomes.take(variants.len() as int) =~= outcomes);
    }
    None
}

} // verus!
