//! The registry: which identifier names which native handle.
//!
//! A registry is a sequence of entries in the order of their insertion. An
//! identifier occurs in at most one entry. Looking one up by identifier or by
//! handle gives the first entry that answers.

use vstd::prelude::*;
use crate::controls::{fits, kind_fits, AnyHandle, Kind};
use crate::error::Error;

verus! {

/// What the registry asks of an identifier: that two of them can be told
/// apart, and that one can be copied.
pub trait Identifier: Sized {
    /// Whether the two identifiers are the same value.
    fn same(&self, other: &Self) -> (r: bool)
        ensures
            r == (*self == *other),
    ;

    /// A copy of the identifier.
    fn duplicate(&self) -> (r: Self)
        ensures
            r == *self,
    ;
}

impl Identifier for u64 {
    fn same(&self, other: &Self) -> (r: bool) {
        *self == *other
    }

    fn duplicate(&self) -> (r: Self) {
        *self
    }
}

impl Identifier for u32 {
    fn same(&self, other: &Self) -> (r: bool) {
        *self == *other
    }

    fn duplicate(&self) -> (r: Self) {
        *self
    }
}

impl Identifier for usize {
    fn same(&self, other: &Self) -> (r: bool) {
        *self == *other
    }

    fn duplicate(&self) -> (r: Self) {
        *self
    }
}

impl Identifier for i32 {
    fn same(&self, other: &Self) -> (r: bool) {
        *self == *other
    }

    fn duplicate(&self) -> (r: Self) {
        *self
    }
}

impl Identifier for i64 {
    fn same(&self, other: &Self) -> (r: bool) {
        *self == *other
    }

    fn duplicate(&self) -> (r: Self) {
        *self
    }
}

impl Identifier for char {
    fn same(&self, other: &Self) -> (r: bool) {
        *self == *other
    }

    fn duplicate(&self) -> (r: Self) {
        *self
    }
}

/// One registered handle.
#[derive(Debug, PartialEq, Eq)]
pub struct Entry<ID> {
    pub id: ID,
    pub handle: AnyHandle,
    pub kind: Kind,
}

/// What an entry is looked up by.
#[derive(Debug, PartialEq, Eq)]
pub enum Key<ID> {
    Id(ID),
    Handle(AnyHandle),
}

/// The entry is the one that the key asks for.
pub open spec fn answers<ID>(e: Entry<ID>, key: Key<ID>) -> bool {
    match key {
        Key::Id(id) => e.id == id,
        Key::Handle(h) => e.handle == h,
    }
}

/// No entry of `s` answers the key.
pub open spec fn absent<ID>(s: Seq<Entry<ID>>, key: Key<ID>) -> bool {
    forall|j: int| 0 <= j < s.len() ==> !answers(#[trigger] s[j], key)
}

/// The entry at `i` answers the key, and none before it does.
pub open spec fn first_at<ID>(s: Seq<Entry<ID>>, key: Key<ID>, i: int) -> bool {
    &&& 0 <= i < s.len()
    &&& answers(s[i], key)
    &&& absent(s.take(i), key)
}

/// The first entry that answers the key, if there is one.
pub open spec fn lookup<ID>(s: Seq<Entry<ID>>, key: Key<ID>) -> Option<Entry<ID>> {
    if exists|i: int| first_at(s, key, i) {
        Some(s[choose|i: int| first_at(s, key, i)])
    } else {
        None
    }
}

/// The entries without the first one that answers the key.
pub open spec fn without<ID>(s: Seq<Entry<ID>>, key: Key<ID>) -> Seq<Entry<ID>> {
    if exists|i: int| first_at(s, key, i) {
        s.remove(choose|i: int| first_at(s, key, i))
    } else {
        s
    }
}

/// No identifier occurs twice, and every entry's kind fits its handle.
pub open spec fn well_formed<ID>(s: Seq<Entry<ID>>) -> bool {
    &&& forall|i: int, j: int|
        0 <= i < j < s.len() ==> (#[trigger] s[i]).id != (#[trigger] s[j]).id
    &&& forall|i: int| 0 <= i < s.len() ==> kind_fits((#[trigger] s[i]).handle, s[i].kind)
}

/// What `insert` answers on the entries `s`.
pub open spec fn insert_outcome<ID>(s: Seq<Entry<ID>>, id: ID, handle: AnyHandle, kind: Kind) -> Result<
    (),
    Error,
> {
    if lookup(s, Key::Id(id)) is Some {
        Err(Error::DuplicateId)
    } else if !kind_fits(handle, kind) {
        Err(Error::BadResource(Some(handle)))
    } else {
        Ok(())
    }
}

/// Two positions that both hold the first answer are the same position.
pub proof fn lemma_first_unique<ID>(s: Seq<Entry<ID>>, key: Key<ID>, i: int, k: int)
    requires
        first_at(s, key, i),
        first_at(s, key, k),
    ensures
        i == k,
{
    if i < k {
        assert(s.take(k)[i] == s[i]);
    } else if k < i {
        assert(s.take(i)[k] == s[k]);
    }
}

/// Where the first answer is at `i`, the lookup gives that entry.
pub proof fn lemma_lookup_hit<ID>(s: Seq<Entry<ID>>, key: Key<ID>, i: int)
    requires
        first_at(s, key, i),
    ensures
        lookup(s, key) == Some(s[i]),
        without(s, key) == s.remove(i),
{
    let k = choose|k: int| first_at(s, key, k);
    lemma_first_unique(s, key, i, k);
}

/// Where nothing answers, the lookup gives nothing.
pub proof fn lemma_lookup_miss<ID>(s: Seq<Entry<ID>>, key: Key<ID>)
    requires
        absent(s, key),
    ensures
        lookup(s, key) is None,
        without(s, key) == s,
{
    if exists|i: int| first_at(s, key, i) {
        let i = choose|i: int| first_at(s, key, i);
        assert(!answers(s[i], key));
    }
}

/// Where the entry at `n` answers, some entry is the first to answer.
pub proof fn lemma_some_first<ID>(s: Seq<Entry<ID>>, key: Key<ID>, n: int)
    requires
        0 <= n < s.len(),
        answers(s[n], key),
    ensures
        exists|i: int| first_at(s, key, i) && i <= n,
    decreases n,
{
    if absent(s.take(n), key) {
        assert(first_at(s, key, n));
    } else {
        let j = choose|j: int| 0 <= j < s.take(n).len() && answers(#[trigger] s.take(n)[j], key);
        assert(s.take(n)[j] == s[j]);
        lemma_some_first(s, key, j);
    }
}

/// A lookup gives nothing exactly where nothing answers; what it gives
/// answers the key and is an entry of the registry.
pub proof fn lemma_lookup_sound<ID>(s: Seq<Entry<ID>>, key: Key<ID>)
    ensures
        lookup(s, key) is None <==> absent(s, key),
        lookup(s, key) is Some ==> answers(lookup(s, key).unwrap(), key) && s.contains(
            lookup(s, key).unwrap(),
        ),
{
    if absent(s, key) {
        lemma_lookup_miss(s, key);
    } else {
        let n = choose|n: int| 0 <= n < s.len() && answers(#[trigger] s[n], key);
        lemma_some_first(s, key, n);
    }
}

/// The registry.
pub struct Ui<ID> {
    entries: Vec<Entry<ID>>,
}

impl<ID> View for Ui<ID> {
    type V = Seq<Entry<ID>>;

    closed spec fn view(&self) -> Seq<Entry<ID>> {
        self.entries@
    }
}

impl<ID: Identifier> Ui<ID> {
    /// The registry's invariant.
    pub open spec fn wf(&self) -> bool {
        well_formed(self@)
    }

    /// A registry without entries.
    pub fn new() -> (r: Ui<ID>)
        ensures
            r@ == Seq::<Entry<ID>>::empty(),
            r.wf(),
    {
        Ui { entries: Vec::new() }
    }

    /// The number of entries.
    pub fn len(&self) -> (r: usize)
        ensures
            r == self@.len(),
    {
        self.entries.len()
    }

    fn position_of_id(&self, id: &ID) -> (r: Option<usize>)
        ensures
            match r {
                Some(i) => first_at(self@, Key::Id(*id), i as int),
                None => absent(self@, Key::Id(*id)),
            },
    {
        let ghost key = Key::Id(*id);
        let mut i: usize = 0;
        while i < self.entries.len()
            invariant
                0 <= i <= self.entries.len(),
                key == Key::Id(*id),
                absent(self@.take(i as int), key),
            decreases self.entries.len() - i,
        {
            if self.entries[i].id.same(id) {
                return Some(i);
            }
            proof {
                assert(self@.take(i + 1) =~= self@.take(i as int).push(self@[i as int]));
            }
            i += 1;
        }
        proof {
            assert(self@.take(i as int) =~= self@);
        }
        None
    }

    fn position_of_handle(&self, handle: AnyHandle) -> (r: Option<usize>)
        ensures
            match r {
                Some(i) => first_at(self@, Key::<ID>::Handle(handle), i as int),
                None => absent(self@, Key::<ID>::Handle(handle)),
            },
    {
        let ghost key = Key::<ID>::Handle(handle);
        let mut i: usize = 0;
        while i < self.entries.len()
            invariant
                0 <= i <= self.entries.len(),
                key == Key::<ID>::Handle(handle),
                absent(self@.take(i as int), key),
            decreases self.entries.len() - i,
        {
            if self.entries[i].handle == handle {
                return Some(i);
            }
            proof {
                assert(self@.take(i + 1) =~= self@.take(i as int).push(self@[i as int]));
            }
            i += 1;
        }
        proof {
            assert(self@.take(i as int) =~= self@);
        }
        None
    }

    fn find_id(&self, id: &ID) -> (r: Option<&Entry<ID>>)
        ensures
            match r {
                Some(e) => lookup(self@, Key::Id(*id)) == Some(*e),
                None => lookup(self@, Key::Id(*id)) is None,
            },
    {
        match self.position_of_id(id) {
            Some(i) => {
                proof {
                    lemma_lookup_hit(self@, Key::Id(*id), i as int);
                }
                Some(&self.entries[i])
            },
            None => {
                proof {
                    lemma_lookup_miss(self@, Key::Id(*id));
                }
                None
            },
        }
    }

    fn find_handle(&self, handle: AnyHandle) -> (r: Option<&Entry<ID>>)
        ensures
            match r {
                Some(e) => lookup(self@, Key::<ID>::Handle(handle)) == Some(*e),
                None => lookup(self@, Key::<ID>::Handle(handle)) is None,
            },
    {
        match self.position_of_handle(handle) {
            Some(i) => {
                proof {
                    lemma_lookup_hit(self@, Key::<ID>::Handle(handle), i as int);
                }
                Some(&self.entries[i])
            },
            None => {
                proof {
                    lemma_lookup_miss(self@, Key::<ID>::Handle(handle));
                }
                None
            },
        }
    }

    /// The handle registered under `id`; `KeyNotFound` where there is none.
    pub fn handle_of(&self, id: &ID) -> (r: Result<AnyHandle, Error>)
        ensures
            r == match lookup(self@, Key::Id(*id)) {
                Some(e) => Ok::<AnyHandle, Error>(e.handle),
                None => Err(Error::KeyNotFound),
            },
    {
        match self.find_id(id) {
            Some(e) => Ok(e.handle),
            None => Err(Error::KeyNotFound),
        }
    }

    /// What the handle registered under `id` is; `KeyNotFound` where there
    /// is none.
    pub fn kind_of(&self, id: &ID) -> (r: Result<Kind, Error>)
        ensures
            r == match lookup(self@, Key::Id(*id)) {
                Some(e) => Ok::<Kind, Error>(e.kind),
                None => Err(Error::KeyNotFound),
            },
    {
        match self.find_id(id) {
            Some(e) => Ok(e.kind),
            None => Err(Error::KeyNotFound),
        }
    }

    /// The identifier under which `handle` was registered first;
    /// `KeyNotFound` where it is not registered.
    pub fn id_from_handle(&self, handle: &AnyHandle) -> (r: Result<ID, Error>)
        ensures
            r == match lookup(self@, Key::<ID>::Handle(*handle)) {
                Some(e) => Ok::<ID, Error>(e.id),
                None => Err(Error::KeyNotFound),
            },
    {
        match self.find_handle(*handle) {
            Some(e) => Ok(e.id.duplicate()),
            None => Err(Error::KeyNotFound),
        }
    }

    /// Whether `handle` is registered.
    pub fn has_handle(&self, handle: &AnyHandle) -> (r: bool)
        ensures
            r == (lookup(self@, Key::<ID>::Handle(*handle)) is Some),
    {
        self.position_of_handle(*handle).is_some()
    }

    /// Registers `handle` under `id` as the last entry.
    ///
    /// Refused with `DuplicateId` where `id` is registered already, else with
    /// `BadResource` and the handle where the kind does not fit the handle's
    /// tag. A refusal leaves the registry as it was.
    pub fn insert(&mut self, id: ID, handle: AnyHandle, kind: Kind) -> (r: Result<(), Error>)
        ensures
            r == insert_outcome(old(self)@, id, handle, kind),
            r is Ok ==> final(self)@ == old(self)@.push(Entry { id, handle, kind }),
            r is Err ==> final(self)@ == old(self)@,
            old(self).wf() ==> final(self).wf(),
    {
        match self.position_of_id(&id) {
            Some(i) => {
                proof {
                    lemma_lookup_hit(self@, Key::Id(id), i as int);
                }
                Err(Error::DuplicateId)
            },
            None => {
                proof {
                    lemma_lookup_miss(self@, Key::Id(id));
                }
                if !fits(handle, kind) {
                    return Err(Error::BadResource(Some(handle)));
                }
                self.entries.push(Entry { id, handle, kind });
                Ok(())
            },
        }
    }

    /// Takes the entry of `id` out and returns it; where there is none, the
    /// registry stays as it was and nothing is returned.
    pub fn remove(&mut self, id: &ID) -> (r: Option<Entry<ID>>)
        ensures
            r == lookup(old(self)@, Key::Id(*id)),
            final(self)@ == without(old(self)@, Key::Id(*id)),
            old(self).wf() ==> final(self).wf(),
    {
        match self.position_of_id(id) {
            Some(i) => {
                proof {
                    lemma_lookup_hit(self@, Key::Id(*id), i as int);
                    lemma_remove_keeps_well_formed(self@, i as int);
                }
                Some(self.entries.remove(i))
            },
            None => {
                proof {
                    lemma_lookup_miss(self@, Key::Id(*id));
                }
                None
            },
        }
    }
}

/// Taking one entry out of a well-formed registry leaves a well-formed one.
pub proof fn lemma_remove_keeps_well_formed<ID>(s: Seq<Entry<ID>>, i: int)
    requires
        0 <= i < s.len(),
    ensures
        well_formed(s) ==> well_formed(s.remove(i)),
{
    let t = s.remove(i);
    if well_formed(s) {
        assert forall|a: int, b: int| 0 <= a < b < t.len() implies (#[trigger] t[a]).id != (
        #[trigger] t[b]).id by {
            let a0 = if a < i { a } else { a + 1 };
            let b0 = if b < i { b } else { b + 1 };
            assert(t[a] == s[a0]);
            assert(t[b] == s[b0]);
        }
        assert forall|a: int| 0 <= a < t.len() implies kind_fits((#[trigger] t[a]).handle, t[a].kind) by {
            let a0 = if a < i { a } else { a + 1 };
            assert(t[a] == s[a0]);
        }
    }
}

/// An identifier that was not registered is found, right after its
/// insertion, with the entry that was inserted.
pub proof fn law_inserted_is_found<ID>(s: Seq<Entry<ID>>, e: Entry<ID>)
    requires
        lookup(s, Key::Id(e.id)) is None,
    ensures
        lookup(s.push(e), Key::Id(e.id)) == Some(e),
{
    let key = Key::Id(e.id);
    lemma_lookup_sound(s, key);
    let t = s.push(e);
    assert(t.take(s.len() as int) =~= s);
    assert(first_at(t, key, s.len() as int));
    lemma_lookup_hit(t, key, s.len() as int);
}

/// What a lookup finds, by identifier or by handle, it still finds after any
/// later insertion.
pub proof fn law_insert_keeps_found<ID>(s: Seq<Entry<ID>>, e: Entry<ID>, key: Key<ID>)
    requires
        lookup(s, key) is Some,
    ensures
        lookup(s.push(e), key) == lookup(s, key),
{
    let i = choose|i: int| first_at(s, key, i);
    let t = s.push(e);
    assert(t.take(i) =~= s.take(i));
    assert(t[i] == s[i]);
    assert(first_at(t, key, i));
    lemma_lookup_hit(t, key, i);
    lemma_lookup_hit(s, key, i);
}

/// Removing the identifier `other` changes no lookup that the entry of
/// `other` does not answer: every other identifier keeps its handle.
pub proof fn law_remove_keeps_others<ID>(s: Seq<Entry<ID>>, other: ID, key: Key<ID>)
    requires
        match lookup(s, Key::Id(other)) {
            Some(x) => !answers(x, key),
            None => true,
        },
    ensures
        lookup(without(s, Key::Id(other)), key) == lookup(s, key),
{
    let gone = Key::Id(other);
    if exists|k: int| first_at(s, gone, k) {
        let k = choose|k: int| first_at(s, gone, k);
        let t = s.remove(k);
        lemma_lookup_sound(s, key);
        if lookup(s, key) is None {
            assert forall|j: int| 0 <= j < t.len() implies !answers(#[trigger] t[j], key) by {
                let j0 = if j < k { j } else { j + 1 };
                assert(t[j] == s[j0]);
            }
            lemma_lookup_miss(t, key);
        } else {
            let i = choose|i: int| first_at(s, key, i);
            lemma_lookup_hit(s, key, i);
            assert(i != k);
            let i1 = if i < k { i } else { i - 1 };
            assert(t[i1] == s[i]);
            assert forall|j: int| 0 <= j < t.take(i1).len() implies !answers(
                #[trigger] t.take(i1)[j],
                key,
            ) by {
                let j0 = if j < k { j } else { j + 1 };
                assert(t.take(i1)[j] == t[j]);
                assert(t[j] == s[j0]);
                if j0 < i {
                    assert(s.take(i)[j0] == s[j0]);
                } else {
                    assert(j0 == k);
                }
            }
            assert(first_at(t, key, i1));
            lemma_lookup_hit(t, key, i1);
        }
    }
}

/// From an identifier to its handle and back: where no entry of another
/// identifier holds the same handle, the handle that is registered under
/// `id` leads back to `id`.
pub proof fn law_handle_round_trip<ID>(s: Seq<Entry<ID>>, id: ID)
    requires
        lookup(s, Key::Id(id)) is Some,
        forall|j: int|
            0 <= j < s.len() && (#[trigger] s[j]).handle == lookup(s, Key::Id(id)).unwrap().handle
                ==> s[j].id == id,
    ensures
        lookup(s, Key::Handle(lookup(s, Key::Id(id)).unwrap().handle)) == lookup(s, Key::Id(id)),
{
    let by_id = Key::Id(id);
    let i = choose|i: int| first_at(s, by_id, i);
    lemma_lookup_hit(s, by_id, i);
    let by_handle = Key::Handle(s[i].handle);
    lemma_some_first(s, by_handle, i);
    let k = choose|k: int| first_at(s, by_handle, k) && k <= i;
    if k < i {
        assert(s.take(i)[k] == s[k]);
    }
    lemma_lookup_hit(s, by_handle, k);
}

/// In a well-formed registry an identifier that was removed is found no
/// more.
pub proof fn law_removed_is_gone<ID>(s: Seq<Entry<ID>>, id: ID)
    requires
        well_formed(s),
    ensures
        lookup(without(s, Key::Id(id)), Key::Id(id)) is None,
{
    let key = Key::Id(id);
    if exists|k: int| first_at(s, key, k) {
        let k = choose|k: int| first_at(s, key, k);
        let t = s.remove(k);
        assert forall|j: int| 0 <= j < t.len() implies !answers(#[trigger] t[j], key) by {
            let j0 = if j < k { j } else { j + 1 };
            assert(t[j] == s[j0]);
            assert(s[j0].id != s[k].id);
        }
        lemma_lookup_miss(t, key);
    }
}


} // verus!
