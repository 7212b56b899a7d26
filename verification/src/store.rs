//! Id-keyed entity stores.
//!
//! Two variants back the aggregates: `Storage` behaves like a keyed map with
//! stable insertion order (adding an entity whose id is already present
//! replaces it in place), and `SortableStorage` is a plain order-stable list
//! that supports the priority sort used by the power cutback. Lookup always
//! resolves to the first entry carrying the id.

use crate::crew::CrewMember;
use crate::ids::Id;
use vstd::prelude::*;

verus! {

use vstd::pervasive::VecAdditionalExecFns;

/// A long-lived entity carrying an opaque id, assigned at construction and
/// immutable thereafter.
pub trait Entity: Sized {
    /// The id at the specification level.
    spec fn eid(&self) -> Seq<char>;

    fn id(&self) -> (r: &Id)
        ensures
            r@ == self.eid(),
    ;
}

/// Index of the first entry with the given id, or -1 when absent.
pub open spec fn find_id<T: Entity>(s: Seq<T>, id: Seq<char>) -> int
    decreases s.len(),
{
    if s.len() == 0 {
        -1
    } else if s[0].eid() == id {
        0
    } else {
        let r = find_id(s.drop_first(), id);
        if r == -1 {
            -1
        } else {
            r + 1
        }
    }
}

/// Whether some entry carries the given id.
pub open spec fn contains_id<T: Entity>(s: Seq<T>, id: Seq<char>) -> bool {
    find_id(s, id) >= 0
}

/// What `find_id` returns: either -1 and no entry matches, or the index of
/// the first matching entry.
pub proof fn lemma_find_id_props<T: Entity>(s: Seq<T>, id: Seq<char>)
    ensures
        find_id(s, id) >= -1,
        find_id(s, id) == -1 ==> forall|j: int| 0 <= j < s.len() ==> (#[trigger] s[j]).eid() != id,
        find_id(s, id) >= 0 ==> {
            &&& find_id(s, id) < s.len()
            &&& s[find_id(s, id)].eid() == id
            &&& forall|j: int| 0 <= j < find_id(s, id) ==> (#[trigger] s[j]).eid() != id
        },
    decreases s.len(),
{
    if s.len() > 0 {
        let d = s.drop_first();
        lemma_find_id_props(d, id);
        assert(forall|j: int| 1 <= j < s.len() ==> (#[trigger] s[j]).eid() == d[j - 1].eid());
        if s[0].eid() != id {
            let r = find_id(d, id);
            if r == -1 {
                assert forall|j: int| 0 <= j < s.len() implies (#[trigger] s[j]).eid() != id by {
                    if j > 0 {
                        assert(s[j].eid() == d[j - 1].eid());
                        assert(d[j - 1].eid() != id);
                    }
                };
            } else {
                assert(0 <= r < d.len());
                assert(d[r].eid() == id);
                assert(find_id(s, id) == r + 1);
                assert(s[r + 1].eid() == d[r].eid());
                assert forall|j: int| 0 <= j < r + 1 implies (#[trigger] s[j]).eid() != id by {
                    if j > 0 {
                        assert(s[j].eid() == d[j - 1].eid());
                        assert(d[j - 1].eid() != id);
                    }
                };
            }
        }
    }
}

/// `find_id` finds exactly the first match known from a scan.
pub proof fn lemma_find_id_hit<T: Entity>(s: Seq<T>, id: Seq<char>, i: int)
    requires
        0 <= i < s.len(),
        s[i].eid() == id,
        forall|j: int| 0 <= j < i ==> (#[trigger] s[j]).eid() != id,
    ensures
        find_id(s, id) == i,
    decreases s.len(),
{
    if i > 0 {
        assert(s[0].eid() != id);
        lemma_find_id_hit(s.drop_first(), id, i - 1);
    }
}

/// A keyed entity store with stable insertion order.
pub struct Storage<T: Entity> {
    data: Vec<T>,
}

impl<T: Entity> View for Storage<T> {
    type V = Seq<T>;

    closed spec fn view(&self) -> Seq<T> {
        self.data@
    }
}

impl<T: Entity> Storage<T> {
    pub fn new() -> (r: Storage<T>)
        ensures
            r@ == Seq::<T>::empty(),
    {
        Storage { data: Vec::new() }
    }

    /// Wrap an entry list as a store.
    pub fn from_entries(entries: Vec<T>) -> (r: Storage<T>)
        ensures
            r@ == entries@,
    {
        Storage { data: entries }
    }

    pub fn len(&self) -> (r: usize)
        ensures
            r == self@.len(),
    {
        self.data.len()
    }

    /// Index of the first entry with this id, if any.
    pub fn index_of(&self, id: &Id) -> (r: Option<usize>)
        ensures
            match r {
                Some(i) => i == find_id(self@, id@),
                None => !contains_id(self@, id@),
            },
    {
        let n = self.data.len();
        let mut i: usize = 0;
        while i < n
            invariant
                0 <= i <= n,
                n == self@.len(),
                forall|j: int| 0 <= j < i ==> (#[trigger] self@[j]).eid() != id@,
            decreases n - i,
        {
            if self.data[i].id().eq_id(id) {
                proof {
                    lemma_find_id_hit(self@, id@, i as int);
                }
                return Some(i);
            }
            i = i + 1;
        }
        proof {
            lemma_find_id_props(self@, id@);
            if find_id(self@, id@) >= 0 {
                assert(self@[find_id(self@, id@)].eid() == id@);
            }
        }
        None
    }

    /// Insert an entity; an entry already carrying the same id is replaced
    /// in place, otherwise the entity is appended.
    pub fn add(&mut self, entity: T)
        ensures
            final(self)@ == if contains_id(old(self)@, entity.eid()) {
                old(self)@.update(find_id(old(self)@, entity.eid()), entity)
            } else {
                old(self)@.push(entity)
            },
    {
        let pos = self.index_of(entity.id());
        match pos {
            Some(i) => {
                proof {
                    lemma_find_id_props(self@, entity.eid());
                }
                self.data.set(i, entity);
            },
            None => {
                self.data.push(entity);
            },
        }
    }

    /// Append an entity at the end unconditionally.
    pub fn append(&mut self, entity: T)
        ensures
            final(self)@ == old(self)@.push(entity),
    {
        self.data.push(entity);
    }

    /// Remove and return the first entry with this id.
    pub fn remove(&mut self, id: &Id) -> (r: Option<T>)
        ensures
            match r {
                Some(t) => {
                    &&& contains_id(old(self)@, id@)
                    &&& t == old(self)@[find_id(old(self)@, id@)]
                    &&& final(self)@ == old(self)@.remove(find_id(old(self)@, id@))
                },
                None => {
                    &&& !contains_id(old(self)@, id@)
                    &&& final(self)@ == old(self)@
                },
            },
    {
        let pos = self.index_of(id);
        match pos {
            Some(i) => {
                proof {
                    lemma_find_id_props(self@, id@);
                }
                Some(self.data.remove(i))
            },
            None => None,
        }
    }

    /// Borrow the first entry with this id.
    pub fn get(&self, id: &Id) -> (r: Option<&T>)
        ensures
            match r {
                Some(t) => contains_id(self@, id@) && *t == self@[find_id(self@, id@)],
                None => !contains_id(self@, id@),
            },
    {
        let pos = self.index_of(id);
        match pos {
            Some(i) => {
                proof {
                    lemma_find_id_props(self@, id@);
                }
                Some(&self.data[i])
            },
            None => None,
        }
    }

    /// Borrow the entry at a position.
    pub fn get_at(&self, i: usize) -> (r: &T)
        requires
            i < self@.len(),
        ensures
            *r == self@[i as int],
    {
        &self.data[i]
    }

    /// Replace the entry at a position.
    pub fn set_at(&mut self, i: usize, entity: T)
        requires
            i < old(self)@.len(),
        ensures
            final(self)@ == old(self)@.update(i as int, entity),
    {
        self.data.set(i, entity);
    }

    /// The id at a position, valid only for the current order.
    pub fn id_by_index(&self, index: usize) -> (r: Option<Id>)
        ensures
            match r {
                Some(id) => index < self@.len() && id@ == self@[index as int].eid(),
                None => index >= self@.len(),
            },
    {
        if index < self.data.len() {
            Some(self.data[index].id().clone())
        } else {
            None
        }
    }
}

impl Storage<CrewMember> {
    /// Drop every member whose health has reached zero.
    pub fn retain_alive(&mut self)
        ensures
            final(self)@ == old(self)@.filter(crate::crew::alive_pred()),
    {
        let ghost p = crate::crew::alive_pred();
        let n = self.data.len();
        let mut kept: Vec<CrewMember> = Vec::new();
        let mut i: usize = 0;
        proof {
            reveal(Seq::filter);
            assert(self@.subrange(0, 0) =~= Seq::<CrewMember>::empty());
            assert(self@.subrange(0, 0).filter(p) =~= Seq::<CrewMember>::empty());
        }
        while i < n
            invariant
                0 <= i <= n,
                n == self@.len(),
                kept@ == self@.subrange(0, i as int).filter(p),
                p == crate::crew::alive_pred(),
            decreases n - i,
        {
            let c = self.data[i].clone();
            proof {
                reveal(Seq::filter);
                assert(self@.subrange(0, i + 1).drop_last() =~= self@.subrange(0, i as int));
                assert(self@.subrange(0, i + 1).last() == self@[i as int]);
            }
            if c.is_alive() {
                kept.push(c);
            }
            i = i + 1;
        }
        proof {
            assert(self@.subrange(0, n as int) =~= self@);
        }
        self.data = kept;
    }
}

/// An order-stable entity list with index addressing and a custom sort.
pub struct SortableStorage<T: Entity> {
    data: Vec<T>,
}

impl<T: Entity> View for SortableStorage<T> {
    type V = Seq<T>;

    closed spec fn view(&self) -> Seq<T> {
        self.data@
    }
}

impl<T: Entity> SortableStorage<T> {
    pub fn new() -> (r: SortableStorage<T>)
        ensures
            r@ == Seq::<T>::empty(),
    {
        SortableStorage { data: Vec::new() }
    }

    /// Append an entity at the end.
    pub fn add(&mut self, entity: T)
        ensures
            final(self)@ == old(self)@.push(entity),
    {
        self.data.push(entity);
    }

    pub fn len(&self) -> (r: usize)
        ensures
            r == self@.len(),
    {
        self.data.len()
    }

    /// Index of the first entry with this id, if any.
    pub fn index_of(&self, id: &Id) -> (r: Option<usize>)
        ensures
            match r {
                Some(i) => i == find_id(self@, id@),
                None => !contains_id(self@, id@),
            },
    {
        let n = self.data.len();
        let mut i: usize = 0;
        while i < n
            invariant
                0 <= i <= n,
                n == self@.len(),
                forall|j: int| 0 <= j < i ==> (#[trigger] self@[j]).eid() != id@,
            decreases n - i,
        {
            if self.data[i].id().eq_id(id) {
                proof {
                    lemma_find_id_hit(self@, id@, i as int);
                }
                return Some(i);
            }
            i = i + 1;
        }
        proof {
            lemma_find_id_props(self@, id@);
            if find_id(self@, id@) >= 0 {
                assert(self@[find_id(self@, id@)].eid() == id@);
            }
        }
        None
    }

    /// Borrow the entry at a position.
    pub fn get_at(&self, i: usize) -> (r: &T)
        requires
            i < self@.len(),
        ensures
            *r == self@[i as int],
    {
        &self.data[i]
    }

    /// Replace the entry at a position.
    pub fn set_at(&mut self, i: usize, entity: T)
        requires
            i < old(self)@.len(),
        ensures
            final(self)@ == old(self)@.update(i as int, entity),
    {
        self.data.set(i, entity);
    }

    /// Borrow the entry at a position mutably; the store afterwards holds
    /// whatever value the borrow was left with.
    pub fn get_at_mut(&mut self, i: usize) -> (r: &mut T)
        requires
            i < old(self)@.len(),
        ensures
            *r == old(self)@[i as int],
            final(self)@ == old(self)@.update(i as int, *final(r)),
    {
        &mut self.data[i]
    }

    /// Take the whole entry list out, leaving the store empty; used by the
    /// sorting pass.
    pub fn take_entries(&mut self) -> (r: Vec<T>)
        ensures
            r@ == old(self)@,
            final(self)@ == Seq::<T>::empty(),
    {
        let mut entries: Vec<T> = Vec::new();
        core::mem::swap(&mut entries, &mut self.data);
        entries
    }

    /// Put an entry list back.
    pub fn put_entries(&mut self, entries: Vec<T>)
        ensures
            final(self)@ == entries@,
    {
        self.data = entries;
    }

    /// The id at a position, valid only for the current order.
    pub fn id_by_index(&self, index: usize) -> (r: Option<Id>)
        ensures
            match r {
                Some(id) => index < self@.len() && id@ == self@[index as int].eid(),
                None => index >= self@.len(),
            },
    {
        if index < self.data.len() {
            Some(self.data[index].id().clone())
        } else {
            None
        }
    }
}

} // verus!
