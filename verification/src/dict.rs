//! Dictionaries: maps from names to values that keep the order in which the
//! names were first bound.

use crate::text::same_text;
use vstd::prelude::*;

verus! {

/// The first position at which `key` is bound in `bindings`.
pub open spec fn position<T>(bindings: Seq<(Seq<char>, T)>, key: Seq<char>) -> Option<int>
    decreases bindings.len(),
{
    if bindings.len() == 0 {
        None
    } else if bindings.last().0 == key && position(bindings.drop_last(), key) is None {
        Some(bindings.len() - 1)
    } else {
        position(bindings.drop_last(), key)
    }
}

/// What `key` is bound to in `bindings`: the value of its first binding.
pub open spec fn lookup<T>(bindings: Seq<(Seq<char>, T)>, key: Seq<char>) -> Option<T> {
    match position(bindings, key) {
        Some(i) => Some(bindings[i].1),
        None => None,
    }
}

/// Whether `key` is bound in `bindings`.
pub open spec fn bound<T>(bindings: Seq<(Seq<char>, T)>, key: Seq<char>) -> bool {
    position(bindings, key) is Some
}

/// `bindings` with `key` bound to `value`: in the place of its first binding
/// if it has one, at the end if it has none.
pub open spec fn with_binding<T>(bindings: Seq<(Seq<char>, T)>, key: Seq<char>, value: T) -> Seq<
    (Seq<char>, T),
> {
    match position(bindings, key) {
        Some(i) => bindings.update(i, (key, value)),
        None => bindings.push((key, value)),
    }
}

/// Whether no name is bound twice in `bindings`.
pub open spec fn distinct<T>(bindings: Seq<(Seq<char>, T)>) -> bool {
    forall|i: int, j: int|
        0 <= i < j < bindings.len() ==> (#[trigger] bindings[i]).0 != (#[trigger] bindings[j]).0
}

/// The bindings with each value replaced by what `f` makes of it.
pub open spec fn mapped<T, U>(bindings: Seq<(Seq<char>, T)>, f: spec_fn(T) -> U) -> Seq<
    (Seq<char>, U),
> {
    Seq::new(bindings.len(), |i: int| (bindings[i].0, f(bindings[i].1)))
}

/// The position found is that of the first binding of the name.
pub proof fn position_is_first<T>(bindings: Seq<(Seq<char>, T)>, key: Seq<char>)
    ensures
        match position(bindings, key) {
            Some(i) => 0 <= i < bindings.len() && bindings[i].0 == key && forall|j: int|
                0 <= j < i ==> (#[trigger] bindings[j]).0 != key,
            None => forall|j: int| 0 <= j < bindings.len() ==> (#[trigger] bindings[j]).0 != key,
        },
    decreases bindings.len(),
{
    if bindings.len() > 0 {
        position_is_first(bindings.drop_last(), key);
        assert forall|j: int| 0 <= j < bindings.len() - 1 implies (#[trigger] bindings[j])
            == bindings.drop_last()[j] by {}
    }
}

/// A name that is bound at `i` and nowhere before `i` is found at `i`.
pub proof fn position_found<T>(bindings: Seq<(Seq<char>, T)>, key: Seq<char>, i: int)
    requires
        0 <= i < bindings.len(),
        bindings[i].0 == key,
        forall|j: int| 0 <= j < i ==> (#[trigger] bindings[j]).0 != key,
    ensures
        position(bindings, key) == Some(i),
{
    position_is_first(bindings, key);
}

/// A name that is bound nowhere is not found.
pub proof fn position_missing<T>(bindings: Seq<(Seq<char>, T)>, key: Seq<char>)
    requires
        forall|j: int| 0 <= j < bindings.len() ==> (#[trigger] bindings[j]).0 != key,
    ensures
        position(bindings, key) is None,
{
    position_is_first(bindings, key);
}

/// Mapping the values leaves every name where it was.
pub proof fn position_of_mapped<T, U>(
    bindings: Seq<(Seq<char>, T)>,
    f: spec_fn(T) -> U,
    key: Seq<char>,
)
    ensures
        position(mapped(bindings, f), key) == position(bindings, key),
        lookup(mapped(bindings, f), key) == match lookup(bindings, key) {
            Some(v) => Some(f(v)),
            None => None,
        },
{
    position_is_first(bindings, key);
    position_is_first(mapped(bindings, f), key);
    let m = mapped(bindings, f);
    match position(bindings, key) {
        Some(i) => {
            assert(m[i].0 == key);
            assert forall|j: int| 0 <= j < i implies (#[trigger] m[j]).0 != key by {
                assert(bindings[j].0 != key);
            }
            position_found(m, key, i);
        },
        None => {
            assert forall|j: int| 0 <= j < m.len() implies (#[trigger] m[j]).0 != key by {
                assert(bindings[j].0 != key);
            }
            position_missing(m, key);
        },
    }
}

/// Binding a name and mapping the values can be done in either order.
pub proof fn binding_of_mapped<T, U>(
    bindings: Seq<(Seq<char>, T)>,
    f: spec_fn(T) -> U,
    key: Seq<char>,
    value: T,
)
    ensures
        mapped(with_binding(bindings, key, value), f) == with_binding(
            mapped(bindings, f),
            key,
            f(value),
        ),
{
    position_of_mapped(bindings, f, key);
    position_is_first(bindings, key);
    assert(mapped(with_binding(bindings, key, value), f) =~= with_binding(
        mapped(bindings, f),
        key,
        f(value),
    ));
}

/// After a name is bound, looking it up gives the new value, and every other
/// name is bound as before.
pub proof fn lookup_after_binding<T>(
    bindings: Seq<(Seq<char>, T)>,
    key: Seq<char>,
    value: T,
    other: Seq<char>,
)
    ensures
        lookup(with_binding(bindings, key, value), key) == Some(value),
        other != key ==> lookup(with_binding(bindings, key, value), other) == lookup(
            bindings,
            other,
        ),
        with_binding(bindings, key, value).len() == if bound(bindings, key) {
            bindings.len()
        } else {
            bindings.len() + 1
        },
{
    let after = with_binding(bindings, key, value);
    position_is_first(bindings, key);
    position_is_first(bindings, other);
    match position(bindings, key) {
        Some(i) => {
            assert forall|j: int| 0 <= j < i implies (#[trigger] after[j]).0 != key by {
                assert(bindings[j].0 != key);
            }
            position_found(after, key, i);
        },
        None => {
            assert forall|j: int| 0 <= j < bindings.len() implies (#[trigger] after[j]).0
                != key by {
                assert(bindings[j].0 != key);
            }
            position_found(after, key, bindings.len() as int);
        },
    }
    if other != key {
        match position(bindings, other) {
            Some(k) => {
                assert(after[k] == bindings[k]);
                assert forall|j: int| 0 <= j < k implies (#[trigger] after[j]).0 != other by {
                    assert(bindings[j].0 != other);
                }
                position_found(after, other, k);
            },
            None => {
                assert forall|j: int| 0 <= j < after.len() implies (#[trigger] after[j]).0
                    != other by {
                    if j < bindings.len() {
                        assert(bindings[j].0 != other);
                    }
                }
                position_missing(after, other);
            },
        }
    }
}

/// One binding of a dictionary.
#[derive(Clone, Debug)]
pub struct Entry<V> {
    pub key: String,
    pub value: V,
}

/// A map from names to values. The names are distinct, and they stay in the
/// order in which they were first bound.
#[derive(Debug)]
pub struct Dict<V> {
    entries: Vec<Entry<V>>,
}

impl<V> Dict<V> {
    #[verifier::type_invariant]
    spec fn well_formed(self) -> bool {
        forall|i: int, j: int|
            0 <= i < j < self.entries@.len() ==> (#[trigger] self.entries@[i]).key@ != (
            #[trigger] self.entries@[j]).key@
    }

    /// The entries, in the order in which their names were first bound.
    pub closed spec fn entries(self) -> Seq<Entry<V>> {
        self.entries@
    }

    /// The bindings: each name with its value, in the order of the entries.
    pub open spec fn bindings(self) -> Seq<(Seq<char>, V)> {
        Seq::new(
            self.entries().len(),
            |i: int| (self.entries()[i].key@, self.entries()[i].value),
        )
    }

    /// A dictionary is a larger datum than the sequence of its entries.
    pub proof fn entries_decrease(self)
        ensures
            decreases_to!(self => self.entries()),
    {
    }

    /// The empty dictionary.
    pub fn new() -> (d: Self)
        ensures
            d.entries().len() == 0,
            d.bindings() == Seq::<(Seq<char>, V)>::empty(),
    {
        let d = Dict { entries: Vec::new() };
        assert(d.bindings() =~= Seq::<(Seq<char>, V)>::empty());
        d
    }

    /// The number of names bound. No name is bound twice.
    pub fn len(&self) -> (n: usize)
        ensures
            n == self.entries().len(),
            n == self.bindings().len(),
            distinct(self.bindings()),
    {
        proof {
            use_type_invariant(self);
            let b = self.bindings();
            assert forall|i: int, j: int| 0 <= i < j < b.len() implies (#[trigger] b[i]).0 != (
            #[trigger] b[j]).0 by {
                assert(self.entries@[i].key@ != self.entries@[j].key@);
            }
        }
        self.entries.len()
    }

    /// Whether no name is bound.
    pub fn is_empty(&self) -> (r: bool)
        ensures
            r == (self.bindings().len() == 0),
    {
        self.entries.len() == 0
    }

    /// The entry at position `i`.
    pub fn entry(&self, i: usize) -> (e: &Entry<V>)
        requires
            i < self.entries().len(),
        ensures
            *e == self.entries()[i as int],
            e.key@ == self.bindings()[i as int].0,
            e.value == self.bindings()[i as int].1,
    {
        &self.entries[i]
    }

    /// The position at which `key` is bound.
    fn find(&self, key: &str) -> (r: Option<usize>)
        ensures
            match r {
                Some(i) => position(self.bindings(), key@) == Some(i as int) && i
                    < self.entries().len(),
                None => position(self.bindings(), key@) is None,
            },
    {
        let mut i: usize = 0;
        while i < self.entries.len()
            invariant
                i <= self.entries@.len(),
                forall|j: int| 0 <= j < i ==> (#[trigger] self.bindings()[j]).0 != key@,
            decreases self.entries@.len() - i,
        {
            if same_text(self.entries[i].key.as_str(), key) {
                proof {
                    position_found(self.bindings(), key@, i as int);
                }
                return Some(i);
            }
            i += 1;
        }
        proof {
            position_missing(self.bindings(), key@);
        }
        None
    }

    /// Whether `key` is bound.
    pub fn contains_key(&self, key: &str) -> (r: bool)
        ensures
            r == bound(self.bindings(), key@),
    {
        self.find(key).is_some()
    }

    /// What `key` is bound to.
    pub fn get(&self, key: &str) -> (r: Option<&V>)
        ensures
            match r {
                Some(v) => lookup(self.bindings(), key@) == Some(*v),
                None => lookup(self.bindings(), key@) is None,
            },
    {
        match self.find(key) {
            Some(i) => Some(&self.entries[i].value),
            None => None,
        }
    }

    /// Takes every binding out.
    pub fn clear(&mut self)
        ensures
            final(self).bindings() == Seq::<(Seq<char>, V)>::empty(),
    {
        let mut entries: Vec<Entry<V>> = Vec::new();
        core::mem::swap(&mut self.entries, &mut entries);
        assert(self.bindings() =~= Seq::<(Seq<char>, V)>::empty());
    }

    /// Binds `key`, which is not bound yet, to `value`.
    pub(crate) fn push_new(&mut self, key: String, value: V)
        requires
            !bound(old(self).bindings(), key@),
        ensures
            final(self).bindings() == old(self).bindings().push((key@, value)),
    {
        proof {
            use_type_invariant(&*self);
            position_is_first(self.bindings(), key@);
        }
        let ghost before = self.bindings();
        let ghost name = key@;
        let ghost held = self.entries@;
        let mut entries: Vec<Entry<V>> = Vec::new();
        core::mem::swap(&mut self.entries, &mut entries);
        entries.push(Entry { key, value });
        proof {
            assert forall|i: int, j: int| 0 <= i < j < entries@.len() implies (
            #[trigger] entries@[i]).key@ != (#[trigger] entries@[j]).key@ by {
                if j < held.len() {
                    assert(held[i].key@ != held[j].key@);
                } else {
                    assert(before[i].0 != name);
                }
            }
        }
        core::mem::swap(&mut self.entries, &mut entries);
        assert(self.bindings() =~= before.push((name, value)));
    }

    /// Binds `key` to `value`: in the place of its earlier binding if it has
    /// one, else at the end.
    pub fn insert(&mut self, key: String, value: V)
        ensures
            final(self).bindings() == with_binding(old(self).bindings(), key@, value),
    {
        proof {
            use_type_invariant(&*self);
            position_is_first(self.bindings(), key@);
        }
        let ghost before = self.bindings();
        let found = self.find(key.as_str());
        let ghost name = key@;
        let ghost held = self.entries@;
        let mut entries: Vec<Entry<V>> = Vec::new();
        core::mem::swap(&mut self.entries, &mut entries);
        match found {
            Some(i) => {
                entries[i].value = value;
            },
            None => {
                entries.push(Entry { key, value });
            },
        }
        proof {
            assert forall|i: int, j: int| 0 <= i < j < entries@.len() implies (
            #[trigger] entries@[i]).key@ != (#[trigger] entries@[j]).key@ by {
                if j < held.len() {
                    assert(held[i].key@ != held[j].key@);
                } else {
                    assert(before[i].0 != name);
                }
            }
        }
        core::mem::swap(&mut self.entries, &mut entries);
        proof {
            match found {
                Some(i) => {
                    assert(self.bindings() =~= before.update(i as int, (name, value)));
                },
                None => {
                    assert(self.bindings() =~= before.push((name, value)));
                },
            }
        }
    }
}

impl<V: Clone> Clone for Dict<V> {
    /// A dictionary that binds the same names, in the same order, to copies
    /// of the values.
    fn clone(&self) -> (copy: Self)
        ensures
            copy.bindings().len() == self.bindings().len(),
            forall|i: int|
                0 <= i < self.bindings().len() ==> (#[trigger] copy.bindings()[i]).0
                    == self.bindings()[i].0 && cloned::<V>(
                    self.bindings()[i].1,
                    copy.bindings()[i].1,
                ),
    {
        proof {
            use_type_invariant(self);
        }
        let mut entries: Vec<Entry<V>> = Vec::new();
        let mut i: usize = 0;
        while i < self.entries.len()
            invariant
                i <= self.entries@.len(),
                entries@.len() == i,
                forall|j: int|
                    0 <= j < i ==> (#[trigger] entries@[j]).key@ == self.entries@[j].key@
                        && cloned::<V>(self.entries@[j].value, entries@[j].value),
            decreases self.entries@.len() - i,
        {
            let e = &self.entries[i];
            entries.push(Entry { key: e.key.clone(), value: e.value.clone() });
            i += 1;
        }
        proof {
            assert forall|i: int, j: int| 0 <= i < j < entries@.len() implies (
            #[trigger] entries@[i]).key@ != (#[trigger] entries@[j]).key@ by {
                assert(self.entries@[i].key@ != self.entries@[j].key@);
            }
        }
        Dict { entries }
    }
}

} // verus!
