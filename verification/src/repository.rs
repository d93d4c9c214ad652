//! The storage capability: a contract over insert / fetch-one / fetch-all /
//! delete with conflict detection, and the in-memory implementation that
//! keeps at most one record per number and preserves insertion order.
//!
//! `Unknown` stands for an opaque storage fault unrelated to the input; the
//! in-memory implementation exposes it through a forced-failure mode that
//! makes every operation fail without touching storage.

use vstd::prelude::*;

use crate::entities::{Pokemon, PokemonName, PokemonNumber, PokemonTypes, PokemonView};

verus! {

/// How an insert can fail: the number is already taken, or storage failed.
#[derive(Debug)]
pub enum InsertError {
    Conflict,
    Unknown,
}

/// How a single fetch can fail: the number is absent, or storage failed.
#[derive(Debug)]
pub enum FetchOneError {
    NotFound,
    Unknown,
}

/// How fetching every record can fail: only by a storage failure.
#[derive(Debug)]
pub enum FetchAllError {
    Unknown,
}

/// How a delete can fail: the number is absent, or storage failed.
#[derive(Debug)]
pub enum DeleteError {
    NotFound,
    Unknown,
}

/// The mathematical contents of a sequence of stored records.
pub open spec fn views_of(s: Seq<Pokemon>) -> Seq<PokemonView> {
    s.map_values(|p: Pokemon| p@)
}

/// Whether some record in `s` has number `n`.
pub open spec fn contains_number(s: Seq<PokemonView>, n: u16) -> bool {
    exists|i: int| 0 <= i < s.len() && (#[trigger] s[i]).number == n
}

/// The position of the record with number `n` (meaningful only when
/// `contains_number(s, n)` holds; unique under `unique_numbers`).
pub open spec fn index_of_number(s: Seq<PokemonView>, n: u16) -> int {
    choose|i: int| 0 <= i < s.len() && (#[trigger] s[i]).number == n
}

/// The record in `s` with number `n` (meaningful only when present).
pub open spec fn lookup_number(s: Seq<PokemonView>, n: u16) -> PokemonView {
    s[index_of_number(s, n)]
}

/// At most one record per number: the repository invariant.
pub open spec fn unique_numbers(s: Seq<PokemonView>) -> bool {
    forall|i: int, j: int|
        0 <= i < j < s.len() ==> (#[trigger] s[i]).number != (#[trigger] s[j]).number
}

/// The storage capability. `records()` is the stored contents in insertion
/// order, `faulty()` whether the implementation is in a failing state, and
/// `inv()` its well-formedness; every operation keeps `inv()` and never
/// changes `faulty()`.
pub trait Repository: Sized {
    /// Well-formedness of the implementation; includes `unique_numbers`.
    spec fn inv(&self) -> bool;

    /// The stored records, in insertion order.
    spec fn records(&self) -> Seq<PokemonView>;

    /// Whether every operation currently fails with `Unknown`.
    spec fn faulty(&self) -> bool;

    /// A well-formed repository never holds two records with one number.
    proof fn inv_implies_unique(&self)
        requires
            self.inv(),
        ensures
            unique_numbers(self.records()),
    ;

    /// Stores a new record built from the three validated values and returns
    /// it, unless the number is already taken (`Conflict`) or storage fails
    /// (`Unknown`); on failure the contents are unchanged.
    fn insert(&mut self, number: PokemonNumber, name: PokemonName, types: PokemonTypes) -> (r:
        Result<Pokemon, InsertError>)
        requires
            old(self).inv(),
        ensures
            final(self).inv(),
            final(self).faulty() == old(self).faulty(),
            old(self).faulty() ==> {
                &&& r matches Err(e) && e is Unknown
                &&& final(self).records() == old(self).records()
            },
            !old(self).faulty() && contains_number(old(self).records(), number@) ==> {
                &&& r matches Err(e) && e is Conflict
                &&& final(self).records() == old(self).records()
            },
            !old(self).faulty() && !contains_number(old(self).records(), number@) ==> {
                &&& r matches Ok(p)
                    && p@ == (PokemonView { number: number@, name: name@, types: types@ })
                    && final(self).records() == old(self).records().push(p@)
            },
    ;

    /// Returns the record with the given number, `NotFound` if absent,
    /// `Unknown` if storage fails.
    fn fetch_one(&self, number: PokemonNumber) -> (r: Result<Pokemon, FetchOneError>)
        requires
            self.inv(),
        ensures
            self.faulty() ==> (r matches Err(e) && e is Unknown),
            !self.faulty() && !contains_number(self.records(), number@) ==> (r matches Err(e)
                && e is NotFound),
            !self.faulty() && contains_number(self.records(), number@) ==> (r matches Ok(p) && p@
                == lookup_number(self.records(), number@)),
    ;

    /// Returns every stored record in insertion order, or `Unknown` if
    /// storage fails.
    fn fetch_all(&self) -> (r: Result<Vec<Pokemon>, FetchAllError>)
        requires
            self.inv(),
        ensures
            self.faulty() ==> (r matches Err(e) && e is Unknown),
            !self.faulty() ==> (r matches Ok(v) && views_of(v@) == self.records()),
    ;

    /// Removes the record with the given number, `NotFound` if absent,
    /// `Unknown` if storage fails; the order of the remaining records is
    /// kept, and the number is no longer present afterwards.
    fn delete(&mut self, number: PokemonNumber) -> (r: Result<(), DeleteError>)
        requires
            old(self).inv(),
        ensures
            final(self).inv(),
            final(self).faulty() == old(self).faulty(),
            old(self).faulty() ==> {
                &&& r matches Err(e) && e is Unknown
                &&& final(self).records() == old(self).records()
            },
            !old(self).faulty() && !contains_number(old(self).records(), number@) ==> {
                &&& r matches Err(e) && e is NotFound
                &&& final(self).records() == old(self).records()
            },
            !old(self).faulty() && contains_number(old(self).records(), number@) ==> {
                &&& r is Ok
                &&& final(self).records() == old(self).records().remove(
                    index_of_number(old(self).records(), number@),
                )
                &&& !contains_number(final(self).records(), number@)
            },
    ;
}

/// Two inserts of one number never both succeed: after a successful insert
/// of record `p`, the contents hold `p.number`, so by `insert`'s contract a
/// second fault-free insert of that number returns `Conflict`.
pub proof fn lemma_insert_then_insert_conflicts(s: Seq<PokemonView>, p: PokemonView)
    ensures
        contains_number(s.push(p), p.number),
{
    assert(s.push(p)[s.len() as int] == p);
}

/// Delete-then-fetch: removing the record at `n`'s position leaves no record
/// with number `n`, so by `fetch_one`'s contract a fault-free fetch of `n`
/// after a successful delete returns `NotFound`.
pub proof fn lemma_delete_then_fetch_not_found(s: Seq<PokemonView>, n: u16)
    requires
        unique_numbers(s),
        contains_number(s, n),
    ensures
        !contains_number(s.remove(index_of_number(s, n)), n),
{
    let k = index_of_number(s, n);
    assert(0 <= k < s.len() && s[k].number == n);
    let t = s.remove(k);
    assert forall|j: int| 0 <= j < t.len() implies (#[trigger] t[j]).number != n by {
        if j < k {
            assert(t[j] == s[j]);
        } else {
            assert(t[j] == s[j + 1]);
        }
    }
}

/// The concrete repository: records in insertion order behind a single
/// store, plus a forced-failure mode in which every operation returns its
/// `Unknown` error without touching storage.
pub struct InMemoryRepository {
    error: bool,
    storage: Vec<Pokemon>,
}

impl InMemoryRepository {
    /// An empty, fault-free repository.
    pub fn new() -> (r: Self)
        ensures
            r.inv(),
            !r.faulty(),
            r.records() == Seq::<PokemonView>::empty(),
    {
        let r = InMemoryRepository { error: false, storage: Vec::new() };
        proof {
            assert(views_of(r.storage@) =~= Seq::<PokemonView>::empty());
        }
        r
    }

    /// The same contents, with every later operation forced to fail.
    pub fn with_error(self) -> (r: Self)
        ensures
            r.faulty(),
            r.records() == self.records(),
            r.inv() == self.inv(),
    {
        InMemoryRepository { error: true, storage: self.storage }
    }
}

impl Repository for InMemoryRepository {
    closed spec fn inv(&self) -> bool {
        unique_numbers(views_of(self.storage@))
    }

    closed spec fn records(&self) -> Seq<PokemonView> {
        views_of(self.storage@)
    }

    closed spec fn faulty(&self) -> bool {
        self.error
    }

    proof fn inv_implies_unique(&self) {
    }

    fn insert(&mut self, number: PokemonNumber, name: PokemonName, types: PokemonTypes) -> (r:
        Result<Pokemon, InsertError>)
    {
        if self.error {
            return Err(InsertError::Unknown);
        }
        let n = number.value();
        let mut i: usize = 0;
        while i < self.storage.len()
            invariant
                0 <= i <= self.storage.len(),
                n == number@,
                self.inv(),
                !self.faulty(),
                *self == *old(self),
                forall|j: int|
                    0 <= j < i ==> (#[trigger] self.storage@[j])@.number != number@,
            decreases self.storage.len() - i,
        {
            if self.storage[i].number.value() == n {
                assert(contains_number(self.records(), number@)) by {
                    assert(self.records()[i as int] == self.storage@[i as int]@);
                }
                return Err(InsertError::Conflict);
            }
            i = i + 1;
        }
        assert(!contains_number(self.records(), number@)) by {
            assert forall|j: int|
                0 <= j < self.records().len() implies (#[trigger] self.records()[j]).number
                != number@ by {
                assert(self.records()[j] == self.storage@[j]@);
            }
        }
        let stored = Pokemon::new(number, name.duplicate(), types.duplicate());
        let ret = Pokemon::new(number, name, types);
        self.storage.push(stored);
        proof {
            let pre = views_of(old(self).storage@);
            let post = views_of(self.storage@);
            assert(post =~= pre.push(ret@));
            assert forall|a: int, b: int|
                0 <= a < b < post.len() implies (#[trigger] post[a]).number
                != (#[trigger] post[b]).number by {
                if b == post.len() - 1 {
                    assert(post[a] == pre[a]);
                }
            }
        }
        Ok(ret)
    }

    fn fetch_one(&self, number: PokemonNumber) -> (r: Result<Pokemon, FetchOneError>) {
        if self.error {
            return Err(FetchOneError::Unknown);
        }
        let n = number.value();
        let mut i: usize = 0;
        while i < self.storage.len()
            invariant
                0 <= i <= self.storage.len(),
                n == number@,
                self.inv(),
                !self.faulty(),
                forall|j: int|
                    0 <= j < i ==> (#[trigger] self.storage@[j])@.number != number@,
            decreases self.storage.len() - i,
        {
            if self.storage[i].number.value() == n {
                let found = self.storage[i].duplicate();
                proof {
                    let s = self.records();
                    assert(s[i as int] == self.storage@[i as int]@);
                    assert(contains_number(s, number@));
                    let k = index_of_number(s, number@);
                    assert(0 <= k < s.len() && s[k].number == number@);
                    if k != i {
                        assert(s[k].number != s[i as int].number);
                    }
                    assert(found@ == lookup_number(s, number@));
                }
                return Ok(found);
            }
            i = i + 1;
        }
        assert(!contains_number(self.records(), number@)) by {
            assert forall|j: int|
                0 <= j < self.records().len() implies (#[trigger] self.records()[j]).number
                != number@ by {
                assert(self.records()[j] == self.storage@[j]@);
            }
        }
        Err(FetchOneError::NotFound)
    }

    fn fetch_all(&self) -> (r: Result<Vec<Pokemon>, FetchAllError>) {
        if self.error {
            return Err(FetchAllError::Unknown);
        }
        let mut out: Vec<Pokemon> = Vec::new();
        let mut i: usize = 0;
        while i < self.storage.len()
            invariant
                0 <= i <= self.storage.len(),
                out@.len() == i,
                forall|j: int| 0 <= j < i ==> (#[trigger] out@[j])@ == self.storage@[j]@,
            decreases self.storage.len() - i,
        {
            let p = self.storage[i].duplicate();
            out.push(p);
            i = i + 1;
        }
        assert(views_of(out@) =~= views_of(self.storage@));
        Ok(out)
    }

    fn delete(&mut self, number: PokemonNumber) -> (r: Result<(), DeleteError>) {
        if self.error {
            return Err(DeleteError::Unknown);
        }
        let n = number.value();
        let mut i: usize = 0;
        while i < self.storage.len()
            invariant
                0 <= i <= self.storage.len(),
                n == number@,
                self.inv(),
                !self.faulty(),
                *self == *old(self),
                forall|j: int|
                    0 <= j < i ==> (#[trigger] self.storage@[j])@.number != number@,
            decreases self.storage.len() - i,
        {
            if self.storage[i].number.value() == n {
                self.storage.remove(i);
                proof {
                    let s = views_of(old(self).storage@);
                    assert(s[i as int] == old(self).storage@[i as int]@);
                    assert(contains_number(s, number@));
                    let k = index_of_number(s, number@);
                    assert(0 <= k < s.len() && s[k].number == number@);
                    if k != i {
                        assert(s[k].number != s[i as int].number);
                    }
                    assert(views_of(self.storage@) =~= s.remove(i as int));
                    lemma_delete_then_fetch_not_found(s, number@);
                    let t = s.remove(i as int);
                    assert forall|a: int, b: int|
                        0 <= a < b < t.len() implies (#[trigger] t[a]).number
                        != (#[trigger] t[b]).number by {
                        let a0 = if a < i as int { a } else { a + 1 };
                        let b0 = if b < i as int { b } else { b + 1 };
                        assert(t[a] == s[a0] && t[b] == s[b0]);
                    }
                }
                return Ok(());
            }
            i = i + 1;
        }
        assert(!contains_number(self.records(), number@)) by {
            assert forall|j: int|
                0 <= j < self.records().len() implies (#[trigger] self.records()[j]).number
                != number@ by {
                assert(self.records()[j] == self.storage@[j]@);
            }
        }
        Err(DeleteError::NotFound)
    }
}

} // verus!
