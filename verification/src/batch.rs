//! Derivation of several types that may refer to one another. Every type of
//! the batch is made known under the identifier it will receive before any
//! of them is derived, so that a reference to a later type, or a cycle of
//! references, resolves to an identifier and never unfolds the type referred
//! to.

use vstd::prelude::*;

use crate::error::{
    first_error, lemma_first_error_prefix, lemma_no_error, DeriveError, DeriveErrorView,
};
use crate::mapper::EnvView;
use crate::schema::SchemaTypeId;
use crate::shape::{container_views, ContainerShape, ContainerView};
use crate::{
    annotation_of, check_shape, derive_schema_serialize, node_of, own_env, shape_error, Derived,
    DerivedView, Session,
};

verus! {

/// The scope in which each of `shapes`, in their order, is known by its
/// declared name under the identifiers `base`, `base + 1` and so on.
pub open spec fn declared_scope(
    scope: Map<Seq<char>, SchemaTypeId>,
    shapes: Seq<ContainerView>,
    base: int,
) -> Map<Seq<char>, SchemaTypeId>
    decreases shapes.len(),
{
    if shapes.len() == 0 {
        scope
    } else {
        declared_scope(scope, shapes.drop_last(), base).insert(
            shapes.last().name.declared,
            SchemaTypeId::Custom((base + shapes.len() - 1) as usize),
        )
    }
}

/// The environment in which the type at `i` of a batch is derived: all types
/// of the batch are known, and those before `i` have been registered.
pub open spec fn batch_env(
    scope: Map<Seq<char>, SchemaTypeId>,
    shapes: Seq<ContainerView>,
    base: int,
    i: int,
    bytes: bool,
) -> EnvView {
    own_env(
        shapes[i],
        declared_scope(declared_scope(scope, shapes, base), shapes.take(i), base),
        SchemaTypeId::Custom((base + i) as usize),
        bytes,
    )
}

/// What the type at `i` of a batch gives: the identifier `base + i`, and its
/// annotation in the environment of its place.
pub open spec fn batch_derived(
    scope: Map<Seq<char>, SchemaTypeId>,
    shapes: Seq<ContainerView>,
    base: int,
    i: int,
    bytes: bool,
) -> DerivedView {
    DerivedView {
        id: SchemaTypeId::Custom((base + i) as usize),
        annotation: annotation_of(shapes[i], batch_env(scope, shapes, base, i, bytes)),
    }
}

/// No two shapes of the list are declared under the same name.
pub open spec fn declared_names_differ(shapes: Seq<ContainerView>) -> bool {
    forall|i: int, j: int|
        0 <= i < j < shapes.len() ==> (#[trigger] shapes[i]).name.declared != (
        #[trigger] shapes[j]).name.declared
}

/// Where the declared names differ, the scope of a batch knows the type at
/// `k` under the identifier `base + k`.
pub proof fn lemma_declared_scope_at(
    scope: Map<Seq<char>, SchemaTypeId>,
    shapes: Seq<ContainerView>,
    base: int,
    k: int,
)
    requires
        declared_names_differ(shapes),
        0 <= k < shapes.len(),
    ensures
        declared_scope(scope, shapes, base).contains_key(shapes[k].name.declared),
        declared_scope(scope, shapes, base)[shapes[k].name.declared] == SchemaTypeId::Custom(
            (base + k) as usize,
        ),
    decreases shapes.len(),
{
    if k < shapes.len() - 1 {
        let shorter = shapes.drop_last();
        assert(shorter[k] == shapes[k]);
        assert(declared_names_differ(shorter)) by {
            assert forall|i: int, j: int| 0 <= i < j < shorter.len() implies (
            #[trigger] shorter[i]).name.declared != (#[trigger] shorter[j]).name.declared by {
                assert(shorter[i] == shapes[i] && shorter[j] == shapes[j]);
            }
        }
        lemma_declared_scope_at(scope, shorter, base, k);
        assert(shapes[k].name.declared != shapes[shapes.len() - 1].name.declared);
    }
}

/// Where the declared names differ, making the first `n` types of a batch
/// known again, under the same identifiers, changes nothing.
pub proof fn lemma_declared_scope_again(
    scope: Map<Seq<char>, SchemaTypeId>,
    shapes: Seq<ContainerView>,
    base: int,
    n: int,
)
    requires
        declared_names_differ(shapes),
        0 <= n <= shapes.len(),
    ensures
        declared_scope(declared_scope(scope, shapes, base), shapes.take(n), base)
            == declared_scope(scope, shapes, base),
    decreases n,
{
    let known = declared_scope(scope, shapes, base);
    if n > 0 {
        lemma_declared_scope_again(scope, shapes, base, n - 1);
        lemma_declared_scope_at(scope, shapes, base, n - 1);
        assert(shapes.take(n).drop_last() =~= shapes.take(n - 1));
        assert(shapes.take(n).last() == shapes[n - 1]);
        assert(known.insert(
            shapes[n - 1].name.declared,
            SchemaTypeId::Custom((base + n - 1) as usize),
        ) =~= known);
    }
}

/// In a batch of types with different declared names, every type is derived
/// in one and the same scope: the scope in which each type of the batch is
/// known under its identifier.
pub proof fn law_batch_scope_is_fixed(
    scope: Map<Seq<char>, SchemaTypeId>,
    shapes: Seq<ContainerView>,
    base: int,
    i: int,
    bytes: bool,
)
    requires
        declared_names_differ(shapes),
        0 <= i < shapes.len(),
    ensures
        batch_env(scope, shapes, base, i, bytes) == (EnvView {
            scope: declared_scope(scope, shapes, base),
            bytes,
        }),
{
    let known = declared_scope(scope, shapes, base);
    lemma_declared_scope_again(scope, shapes, base, i);
    lemma_declared_scope_at(scope, shapes, base, i);
    assert(known.insert(shapes[i].name.declared, SchemaTypeId::Custom((base + i) as usize))
        =~= known);
}

/// The outcome of the name check of each shape, in order.
pub open spec fn shape_errors(shapes: Seq<ContainerView>) -> Seq<Option<DeriveErrorView>> {
    shapes.map_values(|s: ContainerView| shape_error(s))
}

/// The error for which a batch is rejected: that of its first shape, in
/// order, that has one.
pub open spec fn batch_error(shapes: Seq<ContainerView>) -> Option<DeriveErrorView> {
    first_error(shape_errors(shapes))
}

/// Every shape of the list has member counts that agree with its styles.
pub open spec fn all_arity_ok(shapes: Seq<ContainerView>) -> bool {
    forall|i: int| 0 <= i < shapes.len() ==> (#[trigger] shapes[i]).arity_ok()
}

/// Checks the names of every shape of a batch, in order.
pub fn check_all(shapes: &Vec<ContainerShape>) -> (found: Option<DeriveError>)
    ensures
        match found {
            Some(e) => Some(e@),
            None => None,
        } == batch_error(container_views(shapes@)),
{
    let ghost outcomes = shape_errors(container_views(shapes@));
    let mut i: usize = 0;
    while i < shapes.len()
        invariant
            i <= shapes.len(),
            outcomes == shape_errors(container_views(shapes@)),
            first_error(outcomes.take(i as int)) is None,
        decreases shapes.len() - i,
    {
        proof {
            assert(outcomes.take(i as int + 1).drop_last() =~= outcomes.take(i as int));
            assert(outcomes.take(i as int + 1).last() == shape_error(shapes@[i as int]@));
        }
        let found = check_shape(&shapes[i]);
        if found.is_some() {
            proof {
                lemma_first_error_prefix(outcomes, i as int + 1);
            }
            return found;
        }
        i += 1;
    }
    proof {
        assert(outcomes.take(shapes.len() as int) =~= outcomes);
    }
    None
}

/// Derives and registers every type of `shapes`, in their order.
///
/// If one of the shapes is rejected, nothing is registered and the error of
/// the first such shape is returned. Otherwise the type at `i` receives the
/// identifier that follows those of the types before it, and its members
/// are resolved in a scope that knows every type of the batch.
pub fn derive_all(shapes: &Vec<ContainerShape>, session: &mut Session) -> (out: Result<
    Vec<Derived>,
    DeriveError,
>)
    requires
        all_arity_ok(container_views(shapes@)),
        old(session).registry@.len() + shapes@.len() <= usize::MAX,
    ensures
        final(session).bytes == old(session).bytes,
        match out {
            Ok(all) => {
                let views = container_views(shapes@);
                let base = old(session).registry@.len() as int;
                let scope = old(session).scope@;
                let bytes = old(session).bytes;
                &&& batch_error(views) is None
                &&& all@.len() == views.len()
                &&& forall|i: int|
                    0 <= i < views.len() ==> (#[trigger] all@[i])@ == batch_derived(
                        scope,
                        views,
                        base,
                        i,
                        bytes,
                    )
                &&& final(session).registry@.len() == base + views.len()
                &&& final(session).registry@.take(base) == old(session).registry@
                &&& forall|i: int|
                    0 <= i < views.len() ==> #[trigger] final(session).registry@[base + i]
                        == node_of(views[i], batch_env(scope, views, base, i, bytes))
                &&& final(session).scope@ == declared_scope(
                    declared_scope(scope, views, base),
                    views,
                    base,
                )
            },
            Err(e) => {
                &&& batch_error(container_views(shapes@)) == Some(e@)
                &&& final(session).registry@ == old(session).registry@
                &&& final(session).scope@ == old(session).scope@
            },
        },
{
    match check_all(shapes) {
        Some(e) => {
            return Err(e);
        },
        None => {},
    }
    let ghost views = container_views(shapes@);
    let ghost scope = session.scope@;
    let ghost nodes = session.registry@;
    let ghost bytes = session.bytes;
    let base = session.registry.len();
    let len = shapes.len();

    let mut i: usize = 0;
    while i < len
        invariant
            i <= len,
            len == shapes@.len(),
            base + len <= usize::MAX,
            views == container_views(shapes@),
            session.registry@ == nodes,
            session.bytes == bytes,
            session.scope@ == declared_scope(scope, views.take(i as int), base as int),
        decreases len - i,
    {
        proof {
            assert(views.take(i as int + 1).drop_last() =~= views.take(i as int));
            assert(views.take(i as int + 1).last() == shapes@[i as int]@);
        }
        session.scope.bind(shapes[i].name.declared.as_str(), SchemaTypeId::Custom(base + i));
        i += 1;
    }
    proof {
        assert(views.take(len as int) =~= views);
    }
    let ghost known = declared_scope(scope, views, base as int);

    let mut all: Vec<Derived> = Vec::new();
    let mut i: usize = 0;
    while i < len
        invariant
            i <= len,
            len == shapes@.len(),
            base == nodes.len(),
            base + len <= usize::MAX,
            views == container_views(shapes@),
            all_arity_ok(views),
            batch_error(views) is None,
            known == declared_scope(scope, views, base as int),
            session.bytes == bytes,
            session.scope@ == declared_scope(known, views.take(i as int), base as int),
            session.registry@.len() == base + i,
            session.registry@.take(base as int) == nodes,
            forall|k: int|
                0 <= k < i ==> #[trigger] session.registry@[base + k] == node_of(
                    views[k],
                    batch_env(scope, views, base as int, k, bytes),
                ),
            all@.len() == i,
            forall|k: int|
                0 <= k < i ==> (#[trigger] all@[k])@ == batch_derived(
                    scope,
                    views,
                    base as int,
                    k,
                    bytes,
                ),
        decreases len - i,
    {
        let ghost before = session.registry@;
        proof {
            assert(views[i as int] == shapes@[i as int]@);
            assert(views[i as int].arity_ok());
            lemma_no_error(shape_errors(views), i as int);
            assert(views.take(i as int + 1).drop_last() =~= views.take(i as int));
            assert(views.take(i as int + 1).last() == views[i as int]);
        }
        match derive_schema_serialize(&shapes[i], session) {
            Ok(derived) => {
                proof {
                    let env = batch_env(scope, views, base as int, i as int, bytes);
                    assert(session.registry@ == before.push(node_of(views[i as int], env)));
                    assert(session.registry@.take(base as int) =~= before.take(base as int));
                    assert forall|k: int| 0 <= k < i implies #[trigger] session.registry@[base + k]
                        == node_of(views[k], batch_env(scope, views, base as int, k, bytes)) by {
                        assert(session.registry@[base + k] == before[base + k]);
                    }
                }
                all.push(derived);
            },
            Err(e) => {
                return Err(e);
            },
        }
        i += 1;
    }
    proof {
        assert(views.take(len as int) =~= views);
    }
    Ok(all)
}

} // verus!
