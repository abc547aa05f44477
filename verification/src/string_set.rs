//! A set of strings, compared by their characters.
use vstd::prelude::*;
use crate::text::str_equal;

verus! {

/// A finite set of strings.
pub struct StringSet {
    items: Vec<String>,
}

/// The set of the views of the strings in `items`.
pub open spec fn set_of(items: Seq<String>) -> Set<Seq<char>> {
    Set::new(|k: Seq<char>| exists|i: int| 0 <= i < items.len() && #[trigger] items[i]@ == k)
}

impl View for StringSet {
    type V = Set<Seq<char>>;

    closed spec fn view(&self) -> Set<Seq<char>> {
        set_of(self.items@)
    }
}

impl StringSet {
    /// The empty set.
    pub fn new() -> (r: StringSet)
        ensures
            r@ == Set::<Seq<char>>::empty(),
    {
        let r = StringSet { items: Vec::new() };
        assert(r@ =~= Set::<Seq<char>>::empty());
        r
    }

    /// Whether `key` is in the set.
    pub fn contains(&self, key: &str) -> (r: bool)
        ensures
            r == self@.contains(key@),
    {
        let mut i: usize = 0;
        while i < self.items.len()
            invariant
                i <= self.items.len(),
                forall|j: int| 0 <= j < i ==> #[trigger] self.items@[j]@ != key@,
            decreases self.items.len() - i,
        {
            if str_equal(self.items[i].as_str(), key) {
                assert(self.items@[i as int]@ == key@);
                return true;
            }
            i = i + 1;
        }
        false
    }

    /// Adds `key` to the set.
    pub fn insert(&mut self, key: String)
        ensures
            final(self)@ == old(self)@.insert(key@),
    {
        let ghost before = self.items@;
        self.items.push(key);
        assert forall|k: Seq<char>| #[trigger] set_of(self.items@).contains(k) implies set_of(
            before,
        ).insert(key@).contains(k) by {
            let i = choose|i: int| 0 <= i < self.items@.len() && #[trigger] self.items@[i]@ == k;
            if i < before.len() {
                assert(before[i]@ == k);
            }
        }
        assert forall|k: Seq<char>| #[trigger] set_of(before).insert(key@).contains(k) implies set_of(
            self.items@,
        ).contains(k) by {
            if k == key@ {
                assert(self.items@[before.len() as int]@ == k);
            } else {
                let i = choose|i: int| 0 <= i < before.len() && #[trigger] before[i]@ == k;
                assert(self.items@[i]@ == k);
            }
        }
        assert(set_of(self.items@) =~= set_of(before).insert(key@));
    }

    /// Removes `key` from the set.
    pub fn remove(&mut self, key: &str)
        ensures
            final(self)@ == old(self)@.remove(key@),
    {
        let ghost before = self.items@;
        let mut kept: Vec<String> = Vec::new();
        let mut i: usize = 0;
        while i < self.items.len()
            invariant
                before == self.items@,
                i <= self.items.len(),
                forall|k: Seq<char>|
                    #[trigger] set_of(kept@).contains(k) <==> (k != key@ && exists|j: int|
                        0 <= j < i && #[trigger] before[j]@ == k),
            decreases self.items.len() - i,
        {
            if !str_equal(self.items[i].as_str(), key) {
                let ghost prev = kept@;
                kept.push(self.items[i].clone());
                assert forall|k: Seq<char>| #[trigger] set_of(kept@).contains(k) <==> (k != key@
                    && exists|j: int| 0 <= j < i + 1 && #[trigger] before[j]@ == k) by {
                    if set_of(kept@).contains(k) {
                        let m = choose|m: int| 0 <= m < kept@.len() && #[trigger] kept@[m]@ == k;
                        if m < prev.len() {
                            assert(set_of(prev).contains(k));
                        }
                    }
                    if k != key@ && exists|j: int| 0 <= j < i + 1 && #[trigger] before[j]@ == k {
                        let j = choose|j: int| 0 <= j < i + 1 && #[trigger] before[j]@ == k;
                        if j < i {
                            assert(set_of(prev).contains(k));
                            let m = choose|m: int| 0 <= m < prev.len() && #[trigger] prev[m]@ == k;
                            assert(kept@[m]@ == k);
                        } else {
                            assert(kept@[prev.len() as int]@ == k);
                        }
                    }
                }
            } else {
                assert forall|k: Seq<char>| #[trigger] set_of(kept@).contains(k) <==> (k != key@
                    && exists|j: int| 0 <= j < i + 1 && #[trigger] before[j]@ == k) by {
                    if k != key@ && exists|j: int| 0 <= j < i + 1 && #[trigger] before[j]@ == k {
                        let j = choose|j: int| 0 <= j < i + 1 && #[trigger] before[j]@ == k;
                        assert(j < i);
                    }
                }
            }
            i = i + 1;
        }
        self.items = kept;
        assert(set_of(self.items@) =~= set_of(before).remove(key@));
    }

    /// Removes every element.
    pub fn clear(&mut self)
        ensures
            final(self)@ == Set::<Seq<char>>::empty(),
    {
        self.items = Vec::new();
        assert(set_of(self.items@) =~= Set::<Seq<char>>::empty());
    }
}

} // verus!
