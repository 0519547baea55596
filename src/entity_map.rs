//! A keyed collection of entities, and the load step shared by every store:
//! building such a collection from the rows of a backing table.
use crate::error::{EntityKind, RepositoryError};
use crate::models::{Monitor, Network, Trigger};
use vstd::hash_map::StringHashMap;
use vstd::prelude::*;

verus! {

/// An entity that a store can hand out as an independent copy.
pub trait Entity: View + Sized {
    fn duplicate(&self) -> (r: Self)
        ensures
            r@ == self@,
    ;
}

impl Entity for Network {
    fn duplicate(&self) -> (r: Self) {
        self.clone()
    }
}

impl Entity for Trigger {
    fn duplicate(&self) -> (r: Self) {
        self.clone()
    }
}

impl Entity for Monitor {
    fn duplicate(&self) -> (r: Self) {
        self.clone()
    }
}

/// What a lookup by `key` in a collection with contents `m` must return.
pub open spec fn lookup_result<E: View>(m: Map<Seq<char>, E::V>, key: Seq<char>, r: Option<E>) -> bool {
    match r {
        Some(e) => m.contains_key(key) && e@ == m[key],
        None => !m.contains_key(key),
    }
}

/// Entities by key. Keys are unique; inserting an existing key replaces its entity.
#[verifier::reject_recursive_types(E)]
pub struct EntityMap<E> {
    entries: StringHashMap<E>,
    keys: Vec<String>,
}

impl<E: View> View for EntityMap<E> {
    type V = Map<Seq<char>, E::V>;

    closed spec fn view(&self) -> Map<Seq<char>, E::V> {
        self.entries@.map_values(|e: E| e@)
    }
}

impl<E: View> EntityMap<E> {
    /// The key list names each entry of the map exactly once.
    pub closed spec fn wf(&self) -> bool {
        &&& forall|i: int, j: int|
            0 <= i < j < self.keys@.len() ==> self.keys@[i]@ != self.keys@[j]@
        &&& forall|k: Seq<char>|
            self.entries@.contains_key(k) <==> exists|i: int|
                0 <= i < self.keys@.len() && self.keys@[i]@ == k
    }

    /// An empty collection.
    pub fn new() -> (r: Self)
        ensures
            r.wf(),
            r@ == Map::<Seq<char>, E::V>::empty(),
    {
        let r = EntityMap { entries: StringHashMap::new(), keys: Vec::new() };
        assert(r@ =~= Map::<Seq<char>, E::V>::empty());
        r
    }

    /// Stores `entity` under `key`, replacing what was stored there.
    pub fn insert(&mut self, key: String, entity: E)
        requires
            old(self).wf(),
        ensures
            final(self).wf(),
            final(self)@ == old(self)@.insert(key@, entity@),
    {
        if !self.entries.contains_key(key.as_str()) {
            self.keys.push(key.clone());
        }
        self.entries.insert(key, entity);
        proof {
            let ks = self.keys@;
            assert forall|k: Seq<char>|
                self.entries@.contains_key(k) <==> exists|i: int|
                    0 <= i < ks.len() && ks[i]@ == k by {
                if k == key@ && !old(self).entries@.contains_key(k) {
                    assert(ks[ks.len() - 1]@ == k);
                }
                if k != key@ && self.entries@.contains_key(k) {
                    assert(old(self).entries@.contains_key(k));
                    let i = choose|i: int| 0 <= i < old(self).keys@.len() && old(self).keys@[i]@ == k;
                    assert(ks[i]@ == k);
                }
                if exists|i: int| 0 <= i < ks.len() && ks[i]@ == k {
                    let i = choose|i: int| 0 <= i < ks.len() && ks[i]@ == k;
                    if i < old(self).keys@.len() {
                        assert(old(self).keys@[i]@ == k);
                    }
                }
            }
            assert(self@ =~= old(self)@.insert(key@, entity@));
        }
    }

    /// The keys of the collection, each once.
    pub fn keys(&self) -> (r: &Vec<String>)
        requires
            self.wf(),
        ensures
            forall|i: int, j: int| 0 <= i < j < r@.len() ==> r@[i]@ != r@[j]@,
            forall|k: Seq<char>|
                self@.contains_key(k) <==> exists|i: int| 0 <= i < r@.len() && r@[i]@ == k,
    {
        &self.keys
    }

    /// The entity stored under `key`, if any, borrowed.
    pub fn get_ref(&self, key: &str) -> (r: Option<&E>)
        ensures
            match r {
                Some(e) => self@.contains_key(key@) && e@ == self@[key@],
                None => !self@.contains_key(key@),
            },
    {
        self.entries.get(key)
    }

    /// Whether an entity is stored under `key`.
    pub fn contains_key(&self, key: &str) -> (r: bool)
        ensures
            r == self@.contains_key(key@),
    {
        self.entries.contains_key(key)
    }

    /// The number of entities.
    pub fn len(&self) -> (r: usize)
        ensures
            r == self@.len(),
    {
        assert(self@.dom() =~= self.entries@.dom());
        self.entries.len()
    }

    /// Whether the collection holds no entity.
    pub fn is_empty(&self) -> (r: bool)
        ensures
            r == (self@.len() == 0),
    {
        assert(self@.dom() =~= self.entries@.dom());
        self.entries.len() == 0
    }
}

impl<E: Entity> EntityMap<E> {
    /// A copy of the entity stored under `key`, if any.
    pub fn get(&self, key: &str) -> (r: Option<E>)
        ensures
            lookup_result(self@, key@, r),
    {
        match self.entries.get(key) {
            Some(e) => Some(e.duplicate()),
            None => None,
        }
    }

    /// An independent copy of the whole collection.
    pub fn duplicate(&self) -> (r: Self)
        requires
            self.wf(),
        ensures
            r.wf(),
            r@ == self@,
    {
        let mut r = EntityMap::new();
        let mut i: usize = 0;
        while i < self.keys.len()
            invariant
                self.wf(),
                r.wf(),
                i <= self.keys@.len(),
                forall|k: Seq<char>|
                    r@.contains_key(k) <==> exists|j: int| 0 <= j < i && self.keys@[j]@ == k,
                forall|k: Seq<char>| r@.contains_key(k) ==> self@.contains_key(k) && r@[k] == self@[k],
            decreases self.keys@.len() - i,
        {
            let key = &self.keys[i];
            assert(self.entries@.contains_key(key@));
            match self.entries.get(key.as_str()) {
                Some(e) => {
                    let copy = e.duplicate();
                    r.insert(key.clone(), copy);
                },
                None => {},
            }
            proof {
                assert forall|k: Seq<char>|
                    r@.contains_key(k) <==> exists|j: int| 0 <= j < i + 1 && self.keys@[j]@ == k by {
                    if exists|j: int| 0 <= j < i + 1 && self.keys@[j]@ == k {
                        let j = choose|j: int| 0 <= j < i + 1 && self.keys@[j]@ == k;
                        if j < i {
                            assert(exists|j: int| 0 <= j < i && self.keys@[j]@ == k);
                        }
                    }
                    if r@.contains_key(k) && k != key@ {
                        assert(exists|j: int| 0 <= j < i && self.keys@[j]@ == k);
                    }
                }
            }
            i = i + 1;
        }
        proof {
            assert forall|k: Seq<char>| self@.contains_key(k) implies r@.contains_key(k) by {
                assert(self.entries@.contains_key(k));
            }
            assert(r@ =~= self@);
        }
        r
    }
}

/// A row of a backing table: its key, and its payload decoded as an entity,
/// or the reason the payload could not be decoded.
pub struct PayloadRow<E> {
    pub key: String,
    pub payload: Result<E, String>,
}

/// The collection that rows give when each is inserted in turn, later rows
/// replacing earlier ones with the same key.
pub open spec fn rows_view<E: View>(rows: Seq<PayloadRow<E>>) -> Map<Seq<char>, E::V>
    decreases rows.len(),
{
    if rows.len() == 0 {
        Map::empty()
    } else {
        let last = rows.last();
        match last.payload {
            Ok(e) => rows_view(rows.drop_last()).insert(last.key@, e@),
            Err(_) => rows_view(rows.drop_last()),
        }
    }
}

/// Every row's payload was decoded.
pub open spec fn all_decoded<E>(rows: Seq<PayloadRow<E>>) -> bool {
    forall|i: int| 0 <= i < rows.len() ==> rows[i].payload is Ok
}

/// Row `i` is the first whose payload could not be decoded.
pub open spec fn first_undecoded<E>(rows: Seq<PayloadRow<E>>, i: int) -> bool {
    &&& 0 <= i < rows.len()
    &&& rows[i].payload is Err
    &&& forall|j: int| 0 <= j < i ==> rows[j].payload is Ok
}

/// The error that the first undecodable row gives.
pub open spec fn parse_error_of<E>(kind: EntityKind, row: PayloadRow<E>) -> RepositoryError {
    RepositoryError::ParseError { kind, key: row.key, reason: row.payload->Err_0 }
}

/// A table without rows loads as an empty collection, not as an error.
pub proof fn lemma_no_rows_load_empty<E: View>(rows: Seq<PayloadRow<E>>)
    requires
        rows.len() == 0,
    ensures
        all_decoded(rows),
        rows_view(rows) == Map::<Seq<char>, E::V>::empty(),
{
}

/// Builds the collection of entities of kind `kind` from the rows of their
/// table. One undecodable row fails the whole load.
pub fn from_rows<E: Entity>(kind: EntityKind, rows: &Vec<PayloadRow<E>>) -> (r: Result<
    EntityMap<E>,
    RepositoryError,
>)
    ensures
        r is Ok <==> all_decoded(rows@),
        match r {
            Ok(m) => all_decoded(rows@) && m.wf() && m@ == rows_view(rows@),
            Err(e) => exists|i: int|
                first_undecoded(rows@, i) && e == parse_error_of(kind, rows@[i]),
        },
{
    let mut m = EntityMap::new();
    let mut i: usize = 0;
    while i < rows.len()
        invariant
            i <= rows@.len(),
            m.wf(),
            all_decoded(rows@.subrange(0, i as int)),
            m@ == rows_view(rows@.subrange(0, i as int)),
        decreases rows@.len() - i,
    {
        let row = &rows[i];
        assert(rows@.subrange(0, i + 1).drop_last() =~= rows@.subrange(0, i as int));
        match &row.payload {
            Ok(e) => {
                m.insert(row.key.clone(), e.duplicate());
            },
            Err(cause) => {
                assert forall|j: int| 0 <= j < i implies rows@[j].payload is Ok by {
                    assert(rows@.subrange(0, i as int)[j] == rows@[j]);
                }
                assert(first_undecoded(rows@, i as int));
                return Err(RepositoryError::ParseError { kind, key: row.key.clone(), reason: cause.clone() });
            },
        }
        i = i + 1;
    }
    assert(rows@.subrange(0, i as int) =~= rows@);
    Ok(m)
}

} // verus!
