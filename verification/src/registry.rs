//! The name registry: a bidirectional mapping between textual definition
//! names and compact integer identifiers, with fresh-identifier allocation.
//!
//! The backing store is an outside bidirectional hash map; every call into
//! it goes through a trusted wrapper whose contract states what the call
//! does to the map's pairs.

use bimap::BiHashMap;
use vstd::prelude::*;

verus! {

/// A bidirectional hash map of an outside crate: the registry's backing
/// store.
#[verifier::external_type_specification]
#[verifier::external_body]
#[verifier::reject_recursive_types(L)]
#[verifier::reject_recursive_types(R)]
#[verifier::reject_recursive_types(LS)]
#[verifier::reject_recursive_types(RS)]
pub struct ExBiHashMap<L, R, LS, RS>(BiHashMap<L, R, LS, RS>);

/// The pairs held by a bidirectional map from identifiers to names, read as
/// a map from each left value to the characters of its right value.
pub uninterp spec fn bimap_pairs(m: BiHashMap<u64, String>) -> Map<u64, Seq<char>>;

/// Relies on bimap::BiHashMap::new: the new map holds no pairs.
#[verifier::external_body]
fn bimap_new() -> (m: BiHashMap<u64, String>)
    ensures
        (bimap_pairs(m) == Map::<u64, Seq<char>>::empty()),
{
    BiHashMap::new()
}

/// Relies on bimap::BiHashMap::insert: inserting a pair whose left and right
/// values are both absent adds exactly that pair and keeps all others.
#[verifier::external_body]
fn bimap_insert(m: &mut BiHashMap<u64, String>, id: u64, name: String)
    requires
        !bimap_pairs(*old(m)).contains_key(id),
        forall|i: u64| #[trigger]
            bimap_pairs(*old(m)).contains_key(i) ==> bimap_pairs(*old(m))[i] != name@,
    ensures
        bimap_pairs(*final(m)) == bimap_pairs(*old(m)).insert(id, name@),
{
    let _ = m.insert(id, name);
}

/// Relies on bimap::BiHashMap::get_by_left: returns the right value paired
/// with the given left value, if any.
#[verifier::external_body]
fn bimap_get_by_left(m: &BiHashMap<u64, String>, id: u64) -> (r: Option<String>)
    ensures
        match r {
            Some(n) => bimap_pairs(*m).contains_key(id) && n@ == bimap_pairs(*m)[id],
            None => !bimap_pairs(*m).contains_key(id),
        },
{
    m.get_by_left(&id).cloned()
}

/// Relies on bimap::BiHashMap::get_by_right: returns the left value paired
/// with the given right value, if any.
#[verifier::external_body]
fn bimap_get_by_right(m: &BiHashMap<u64, String>, name: &String) -> (r: Option<u64>)
    ensures
        match r {
            Some(id) => bimap_pairs(*m).contains_key(id) && bimap_pairs(*m)[id] == name@,
            None => forall|i: u64| #[trigger]
                bimap_pairs(*m).contains_key(i) ==> bimap_pairs(*m)[i] != name@,
        },
{
    m.get_by_right(name).copied()
}

/// Relies on bimap::BiHashMap::contains_left: whether some pair has the
/// given left value.
#[verifier::external_body]
fn bimap_contains_left(m: &BiHashMap<u64, String>, id: u64) -> (r: bool)
    ensures
        r == bimap_pairs(*m).contains_key(id),
{
    m.contains_left(&id)
}

/// Relies on bimap::BiHashMap::contains_right: whether some pair has the
/// given right value.
#[verifier::external_body]
fn bimap_contains_right(m: &BiHashMap<u64, String>, name: &String) -> (r: bool)
    ensures
        r == (exists|i: u64| #[trigger] bimap_pairs(*m).contains_key(i) && bimap_pairs(*m)[i]
            == name@),
{
    m.contains_right(name)
}

/// Whether some identifier of the registry model maps to `name`.
pub open spec fn registry_has_name(m: Map<u64, Seq<char>>, name: Seq<char>) -> bool {
    exists|i: u64| #[trigger] m.contains_key(i) && m[i] == name
}

/// The registry invariant: identifiers are exactly those below the
/// allocation counter, and no two identifiers map to the same name.
pub open spec fn registry_inv(m: Map<u64, Seq<char>>, next: nat) -> bool {
    &&& forall|i: u64| #[trigger] m.contains_key(i) <==> (i as nat) < next
    &&& forall|i: u64, j: u64|
        #![trigger m[i], m[j]]
        m.contains_key(i) && m.contains_key(j) && m[i] == m[j] ==> i == j
}

/// The global name registry. Identifier-to-name pairs are never mutated or
/// removed once inserted; both directions are unique.
pub struct DefNames {
    map: BiHashMap<u64, String>,
    id_count: u64,
}

impl View for DefNames {
    type V = Map<u64, Seq<char>>;

    closed spec fn view(&self) -> Map<u64, Seq<char>> {
        bimap_pairs(self.map)
    }
}

impl DefNames {
    /// The identifier the next insertion will return.
    pub closed spec fn next_id(&self) -> nat {
        self.id_count as nat
    }

    /// Well-formedness: the registry invariant on the model.
    pub open spec fn wf(&self) -> bool {
        registry_inv(self@, self.next_id())
    }

    /// Creates an empty registry.
    pub fn new() -> (r: DefNames)
        ensures
            r.wf(),
            r@ == Map::<u64, Seq<char>>::empty(),
            r.next_id() == 0,
    {
        DefNames { map: bimap_new(), id_count: 0 }
    }

    /// Total lookup of the name registered for an identifier.
    pub fn name(&self, def_id: u64) -> (r: Option<String>)
        ensures
            match r {
                Some(n) => self@.contains_key(def_id) && n@ == self@[def_id],
                None => !self@.contains_key(def_id),
            },
    {
        bimap_get_by_left(&self.map, def_id)
    }

    /// Total lookup of the identifier registered for a name.
    pub fn def_id(&self, name: &String) -> (r: Option<u64>)
        ensures
            match r {
                Some(id) => self@.contains_key(id) && self@[id] == name@,
                None => !registry_has_name(self@, name@),
            },
    {
        bimap_get_by_right(&self.map, name)
    }

    /// Whether the name is registered.
    pub fn contains_name(&self, name: &String) -> (r: bool)
        ensures
            r == registry_has_name(self@, name@),
    {
        bimap_contains_right(&self.map, name)
    }

    /// Whether the identifier is registered.
    pub fn contains_def_id(&self, def_id: u64) -> (r: bool)
        ensures
            r == self@.contains_key(def_id),
    {
        bimap_contains_left(&self.map, def_id)
    }

    /// Allocates the next unused identifier, records the pair, and returns
    /// the identifier. Inserting a name twice is a logic error upstream, so
    /// a fresh name is required, as is room for one more identifier.
    pub fn insert(&mut self, name: String) -> (r: u64)
        requires
            old(self).wf(),
            !registry_has_name(old(self)@, name@),
            old(self).next_id() < u64::MAX,
        ensures
            final(self).wf(),
            r == old(self).next_id(),
            final(self).next_id() == old(self).next_id() + 1,
            final(self)@ == old(self)@.insert(r, name@),
    {
        let def_id = self.id_count;
        self.id_count = self.id_count + 1;
        bimap_insert(&mut self.map, def_id, name);
        def_id
    }
}

/// Inserting a fresh name into a well-formed registry keeps it well-formed,
/// maps the returned identifier to that name and to nothing else, and the
/// returned identifier is strictly greater than every identifier already
/// present.
pub proof fn lemma_registry_insert(m: Map<u64, Seq<char>>, next: nat, name: Seq<char>)
    requires
        registry_inv(m, next),
        !registry_has_name(m, name),
        next < u64::MAX,
    ensures
        registry_inv(m.insert(next as u64, name), next + 1),
        m.insert(next as u64, name)[next as u64] == name,
        forall|i: u64|
            m.insert(next as u64, name).contains_key(i) && #[trigger] m.insert(
                next as u64,
                name,
            )[i] == name ==> i == next as u64,
        forall|i: u64| #[trigger] m.contains_key(i) ==> (i as nat) < next,
{
}

} // verus!
