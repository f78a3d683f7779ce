//! The registry that stores finished nodes and issues their identifiers, and
//! the scope that tells under which identifier a named type is known.

use vstd::prelude::*;
use vstd::string::*;

use crate::schema::{SchemaNode, SchemaNodeView, SchemaTypeId};
use crate::text::same_text;

verus! {

/// The nodes registered so far. The identifier of a node is its place in the
/// order of registration.
pub struct TypeRegistry {
    nodes: Vec<SchemaNode>,
}

impl View for TypeRegistry {
    type V = Seq<SchemaNodeView>;

    closed spec fn view(&self) -> Seq<SchemaNodeView> {
        self.nodes@.map_values(|n: SchemaNode| n@)
    }
}

/// The node that `id` refers to among `nodes`, if it refers to one.
pub open spec fn node_at(nodes: Seq<SchemaNodeView>, id: SchemaTypeId) -> Option<SchemaNodeView> {
    match id {
        SchemaTypeId::Custom(i) => if i < nodes.len() {
            Some(nodes[i as int])
        } else {
            None
        },
        SchemaTypeId::Primitive(_) => None,
    }
}

impl TypeRegistry {
    /// A registry without nodes.
    pub fn new() -> (registry: TypeRegistry)
        ensures
            registry@ == Seq::<SchemaNodeView>::empty(),
    {
        let registry = TypeRegistry { nodes: Vec::new() };
        assert(registry@ =~= Seq::empty());
        registry
    }

    /// How many nodes have been registered.
    pub fn len(&self) -> (n: usize)
        ensures
            n == self@.len(),
    {
        self.nodes.len()
    }

    /// The identifier that the next registration will issue.
    pub fn next_id(&self) -> (id: SchemaTypeId)
        ensures
            id == SchemaTypeId::Custom(self@.len() as usize),
            self@.len() <= usize::MAX,
    {
        SchemaTypeId::Custom(self.nodes.len())
    }

    /// Stores `node` and issues its identifier. The identifier is new, and
    /// the nodes registered earlier stay as they are, under their identifiers.
    pub fn register(&mut self, node: SchemaNode) -> (id: SchemaTypeId)
        ensures
            final(self)@ == old(self)@.push(node@),
            id == SchemaTypeId::Custom(old(self)@.len() as usize),
            node_at(old(self)@, id) is None,
            node_at(final(self)@, id) == Some(node@),
            forall|earlier: SchemaTypeId|
                node_at(old(self)@, earlier) is Some ==> #[trigger] node_at(final(self)@, earlier)
                    == node_at(old(self)@, earlier),
    {
        let id = SchemaTypeId::Custom(self.nodes.len());
        self.nodes.push(node);
        assert(self@ =~= old(self)@.push(node@));
        id
    }

    /// The node registered under `id`: there is one for every identifier that
    /// this registry has issued, and for no other.
    pub fn lookup(&self, id: SchemaTypeId) -> (found: Option<&SchemaNode>)
        ensures
            match found {
                Some(node) => node_at(self@, id) == Some(node@),
                None => node_at(self@, id) is None,
            },
    {
        match id {
            SchemaTypeId::Custom(i) => {
                if i < self.nodes.len() {
                    Some(&self.nodes[i])
                } else {
                    None
                }
            },
            SchemaTypeId::Primitive(_) => None,
        }
    }
}

/// One entry of a scope.
pub struct Binding {
    name: String,
    id: SchemaTypeId,
}

/// The named types that can be referred to, each with its identifier. The
/// name is the identifier under which the type was declared.
pub struct TypeScope {
    bindings: Vec<Binding>,
}

/// The map that a list of bindings stands for: a later binding of a name
/// replaces an earlier one.
pub closed spec fn bound(bindings: Seq<Binding>) -> Map<Seq<char>, SchemaTypeId>
    decreases bindings.len(),
{
    if bindings.len() == 0 {
        Map::empty()
    } else {
        bound(bindings.drop_last()).insert(bindings.last().name@, bindings.last().id)
    }
}

impl View for TypeScope {
    type V = Map<Seq<char>, SchemaTypeId>;

    closed spec fn view(&self) -> Map<Seq<char>, SchemaTypeId> {
        bound(self.bindings@)
    }
}

impl TypeScope {
    /// A scope without names.
    pub fn new() -> (scope: TypeScope)
        ensures
            scope@ == Map::<Seq<char>, SchemaTypeId>::empty(),
    {
        TypeScope { bindings: Vec::new() }
    }

    /// Makes `name` known under `id`, in place of what it was known under.
    pub fn bind(&mut self, name: &str, id: SchemaTypeId)
        ensures
            final(self)@ == old(self)@.insert(name@, id),
    {
        self.bindings.push(Binding { name: String::from_str(name), id });
        assert(self.bindings@.drop_last() =~= old(self).bindings@);
    }

    /// The identifier under which `name` is known, if it is.
    pub fn lookup(&self, name: &str) -> (found: Option<SchemaTypeId>)
        ensures
            match found {
                Some(id) => self@.contains_key(name@) && self@[name@] == id,
                None => !self@.contains_key(name@),
            },
    {
        let mut k: usize = self.bindings.len();
        assert(self.bindings@.take(k as int) =~= self.bindings@);
        while k > 0
            invariant
                k <= self.bindings.len(),
                bound(self.bindings@).contains_key(name@) <==> bound(
                    self.bindings@.take(k as int),
                ).contains_key(name@),
                bound(self.bindings@).contains_key(name@) ==> bound(self.bindings@)[name@]
                    == bound(self.bindings@.take(k as int))[name@],
            decreases k,
        {
            proof {
                let prefix = self.bindings@.take(k as int);
                assert(prefix.drop_last() =~= self.bindings@.take(k as int - 1));
                assert(prefix.last() == self.bindings@[k as int - 1]);
            }
            k -= 1;
            if same_text(self.bindings[k].name.as_str(), name) {
                return Some(self.bindings[k].id);
            }
        }
        None
    }
}

} // verus!
