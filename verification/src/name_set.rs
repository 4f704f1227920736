//! A set of extension names, not restricted to the names this library knows.
//!
//! The names are held in a `Vec` in which no name occurs twice; the view is
//! the set of the names' characters.
use vstd::prelude::*;

use vstd::std_specs::iter::IteratorSpec;

verus! {

/// The characters of each string of `s`, in order.
pub open spec fn string_views(s: Seq<String>) -> Seq<Seq<char>> {
    s.map_values(|x: String| x@)
}

/// The characters of each string that `s` refers to, in order.
pub open spec fn ref_views(s: Seq<&String>) -> Seq<Seq<char>> {
    s.map_values(|x: &String| x@)
}

/// The set of the names that occur in `s`.
pub open spec fn name_set(s: Seq<Seq<char>>) -> Set<Seq<char>> {
    Set::new(|x: Seq<char>| s.contains(x))
}

/// No name occurs twice in `names`.
pub open spec fn names_distinct(names: Seq<Seq<char>>) -> bool {
    forall|i: int, j: int|
        0 <= i < names.len() && 0 <= j < names.len() && i != j ==> #[trigger] names[i]
            != #[trigger] names[j]
}

/// Adding a name at the end of a list adds it to the list's set.
pub proof fn lemma_name_set_push(s: Seq<Seq<char>>, x: Seq<char>)
    ensures
        name_set(s.push(x)) == name_set(s).insert(x),
{
    assert forall|y: Seq<char>| #[trigger] name_set(s.push(x)).contains(y) == name_set(s).insert(
        x,
    ).contains(y) by {
        if y != x && s.push(x).contains(y) {
            let k = choose|k: int| 0 <= k < s.push(x).len() && s.push(x)[k] == y;
            assert(s[k] == y);
        }
        if s.contains(y) {
            let k = choose|k: int| 0 <= k < s.len() && s[k] == y;
            assert(s.push(x)[k] == y);
        }
        assert(s.push(x)[s.len() as int] == x);
    }
    assert(name_set(s.push(x)) =~= name_set(s).insert(x));
}

/// Whether `already` holds or the characters of `name` are those of `known`.
pub fn already_or_is(already: bool, name: &String, known: &str) -> (r: bool)
    ensures
        r == (already || name@ == known@),
{
    let m = text_is(name, known);
    already || m
}

/// Whether the characters of `a` are those of `b`.
pub fn text_is(a: &String, b: &str) -> (r: bool)
    ensures
        r == (a@ == b@),
{
    *a == b.to_owned()
}

/// A set of extension names.
pub struct ExtensionNames {
    names: Vec<String>,
}

impl View for ExtensionNames {
    type V = Set<Seq<char>>;

    closed spec fn view(&self) -> Set<Seq<char>> {
        name_set(string_views(self.names@))
    }
}

impl ExtensionNames {
    /// No name is stored twice.
    #[verifier::type_invariant]
    spec fn no_repeats(self) -> bool {
        names_distinct(string_views(self.names@))
    }

    /// The empty set.
    pub fn empty() -> (s: Self)
        ensures
            s@ == Set::<Seq<char>>::empty(),
    {
        let s = ExtensionNames { names: Vec::new() };
        assert(s@ =~= Set::<Seq<char>>::empty());
        s
    }

    /// Whether `name` is in the set.
    pub fn contains(&self, name: &String) -> (b: bool)
        ensures
            b == self@.contains(name@),
    {
        let mut i: usize = 0;
        while i < self.names.len()
            invariant
                0 <= i <= self.names.len(),
                forall|j: int| 0 <= j < i ==> (#[trigger] self.names@[j])@ != name@,
            decreases self.names.len() - i,
        {
            if self.names[i] == *name {
                assert(string_views(self.names@)[i as int] == name@);
                return true;
            }
            i += 1;
        }
        assert(!string_views(self.names@).contains(name@)) by {
            if string_views(self.names@).contains(name@) {
                let k = choose|k: int|
                    0 <= k < string_views(self.names@).len() && string_views(self.names@)[k]
                        == name@;
                assert(self.names@[k]@ == name@);
            }
        }
        false
    }

    /// The names, each once, in the order in which they are stored.
    pub fn names(&self) -> (v: &Vec<String>)
        ensures
            name_set(string_views(v@)) == self@,
            names_distinct(string_views(v@)),
    {
        proof {
            use_type_invariant(self);
        }
        &self.names
    }

    /// Adds `name` to the set; nothing changes where it is already there.
    pub fn insert(&mut self, name: String)
        ensures
            final(self)@ == old(self)@.insert(name@),
    {
        proof {
            use_type_invariant(&*self);
        }
        if self.contains(&name) {
            assert(self@.insert(name@) =~= self@);
        } else {
            let ghost old_views = string_views(self.names@);
            let mut names: Vec<String> = Vec::new();
            std::mem::swap(&mut names, &mut self.names);
            names.push(name);
            assert(string_views(names@) =~= old_views.push(name@));
            assert forall|x: Seq<char>|
                #[trigger] name_set(old_views.push(name@)).contains(x) == name_set(
                    old_views,
                ).insert(name@).contains(x) by {
                if x != name@ && old_views.push(name@).contains(x) {
                    let k = choose|k: int|
                        0 <= k < old_views.push(name@).len() && old_views.push(name@)[k] == x;
                    assert(old_views[k] == x);
                }
                if old_views.contains(x) {
                    let k = choose|k: int| 0 <= k < old_views.len() && old_views[k] == x;
                    assert(old_views.push(name@)[k] == x);
                }
                assert(old_views.push(name@)[old_views.len() as int] == name@);
            }
            assert(name_set(old_views.push(name@)) =~= name_set(old_views).insert(name@));
            assert(names_distinct(old_views.push(name@))) by {
                assert forall|i: int, j: int|
                    0 <= i < old_views.len() + 1 && 0 <= j < old_views.len() + 1 && i
                        != j implies #[trigger] old_views.push(name@)[i] != #[trigger] old_views.push(
                    name@,
                )[j] by {
                    if i < old_views.len() && j < old_views.len() {
                        assert(old_views[i] != old_views[j]);
                    } else if i < old_views.len() {
                        assert(old_views.contains(old_views[i]));
                    } else {
                        assert(old_views.contains(old_views[j]));
                    }
                }
            }
            self.names = names;
        }
    }

    /// Whether every name of `self` is in `other`.
    pub fn is_subset_of(&self, other: &Self) -> (b: bool)
        ensures
            b == self@.subset_of(other@),
    {
        let mut i: usize = 0;
        while i < self.names.len()
            invariant
                0 <= i <= self.names.len(),
                forall|j: int| 0 <= j < i ==> other@.contains((#[trigger] self.names@[j])@),
            decreases self.names.len() - i,
        {
            if !other.contains(&self.names[i]) {
                assert(string_views(self.names@)[i as int] == self.names@[i as int]@);
                assert(self@.contains(self.names@[i as int]@));
                return false;
            }
            i += 1;
        }
        assert forall|x: Seq<char>| self@.contains(x) implies other@.contains(x) by {
            let k = choose|k: int|
                0 <= k < string_views(self.names@).len() && string_views(self.names@)[k] == x;
            assert(self.names@[k]@ == x);
        }
        true
    }

    /// Whether both sets hold the same names.
    pub fn same_names(&self, other: &Self) -> (b: bool)
        ensures
            b == (self@ == other@),
    {
        let r = self.is_subset_of(other) && other.is_subset_of(self);
        if r {
            assert(self@ =~= other@);
        }
        r
    }

    /// The names of `self` that are in `other` where `keep` is true, or that
    /// are not in `other` where `keep` is false.
    fn filter_by(&self, other: &Self, keep: bool) -> (r: Self)
        ensures
            r@ == self@.filter(|x: Seq<char>| other@.contains(x) == keep),
    {
        proof {
            use_type_invariant(self);
        }
        let ghost src = string_views(self.names@);
        let mut out: Vec<String> = Vec::new();
        let mut i: usize = 0;
        while i < self.names.len()
            invariant
                0 <= i <= self.names.len(),
                src == string_views(self.names@),
                names_distinct(src),
                names_distinct(string_views(out@)),
                forall|x: Seq<char>|
                    #[trigger] string_views(out@).contains(x) <==> (src.take(i as int).contains(x)
                        && other@.contains(x) == keep),
            decreases self.names.len() - i,
        {
            let ghost before = string_views(out@);
            let n = &self.names[i];
            if other.contains(n) == keep {
                out.push(n.clone());
                assert(string_views(out@) =~= before.push(src[i as int]));
                assert(names_distinct(string_views(out@))) by {
                    assert forall|a: int, b: int|
                        0 <= a < before.len() + 1 && 0 <= b < before.len() + 1 && a
                            != b implies #[trigger] before.push(src[i as int])[a]
                        != #[trigger] before.push(src[i as int])[b] by {
                        if a < before.len() && b < before.len() {
                            assert(before[a] != before[b]);
                        } else if a < before.len() {
                            assert(before.contains(before[a]));
                            let k = choose|k: int| 0 <= k < src.take(i as int).len() && src.take(i as int)[k] == before[a];
                            assert(src[k] == before[a]);
                        } else {
                            assert(before.contains(before[b]));
                            let k = choose|k: int| 0 <= k < src.take(i as int).len() && src.take(i as int)[k] == before[b];
                            assert(src[k] == before[b]);
                        }
                    }
                }
            }
            let ghost t1 = src.take(i + 1);
            let ghost t0 = src.take(i as int);
            assert forall|x: Seq<char>|
                #[trigger] string_views(out@).contains(x) <==> (t1.contains(x)
                    && other@.contains(x) == keep) by {
                if t1.contains(x) {
                    let k = choose|k: int| 0 <= k < t1.len() && t1[k] == x;
                    if k < i {
                        assert(t0[k] == x);
                    } else if other@.contains(x) == keep {
                        assert(string_views(out@)[before.len() as int] == x);
                    }
                }
                if t0.contains(x) {
                    let k = choose|k: int| 0 <= k < t0.len() && t0[k] == x;
                    assert(t1[k] == x);
                }
                if string_views(out@).contains(x) && !before.contains(x) {
                    let k = choose|k: int|
                        0 <= k < string_views(out@).len() && string_views(out@)[k] == x;
                    if k < before.len() {
                        assert(before[k] == x);
                    }
                    assert(t1[i as int] == x);
                }
                if before.contains(x) {
                    let k = choose|k: int| 0 <= k < before.len() && before[k] == x;
                    assert(string_views(out@)[k] == x);
                }
            }
            i += 1;
        }
        assert(src.take(self.names.len() as int) =~= src);
        let r = ExtensionNames { names: out };
        assert(r@ =~= self@.filter(|x: Seq<char>| other@.contains(x) == keep));
        r
    }

    /// The names that are in both sets.
    pub fn intersection(&self, other: &Self) -> (r: Self)
        ensures
            r@ == self@.intersect(other@),
    {
        let r = self.filter_by(other, true);
        assert(r@ =~= self@.intersect(other@));
        r
    }

    /// The names of `self` that are not in `other`.
    pub fn difference(&self, other: &Self) -> (r: Self)
        ensures
            r@ == self@.difference(other@),
    {
        let r = self.filter_by(other, false);
        assert(r@ =~= self@.difference(other@));
        r
    }

    /// A set with the same names.
    pub fn duplicate(&self) -> (r: Self)
        ensures
            r@ == self@,
    {
        proof {
            use_type_invariant(self);
        }
        let mut out: Vec<String> = Vec::new();
        let mut i: usize = 0;
        while i < self.names.len()
            invariant
                0 <= i <= self.names.len(),
                out@ == self.names@.take(i as int),
            decreases self.names.len() - i,
        {
            out.push(self.names[i].clone());
            assert(out@ =~= self.names@.take(i + 1));
            i += 1;
        }
        assert(out@ =~= self.names@);
        ExtensionNames { names: out }
    }

    /// The names of `names`, each once.
    pub fn from_vec(names: Vec<String>) -> (r: Self)
        ensures
            r@ == name_set(string_views(names@)),
    {
        let mut r = Self::empty();
        let mut i: usize = 0;
        while i < names.len()
            invariant
                0 <= i <= names.len(),
                r@ == name_set(string_views(names@).take(i as int)),
            decreases names.len() - i,
        {
            let ghost before = r@;
            r.insert(names[i].clone());
            assert(name_set(string_views(names@).take(i + 1)) =~= before.insert(names@[i as int]@))
                by {
                let t = string_views(names@).take(i + 1);
                assert(t =~= string_views(names@).take(i as int).push(names@[i as int]@));
                assert forall|x: Seq<char>| #[trigger] t.contains(x) implies before.insert(
                    names@[i as int]@,
                ).contains(x) by {
                    let k = choose|k: int| 0 <= k < t.len() && t[k] == x;
                    if k < i {
                        assert(string_views(names@).take(i as int)[k] == x);
                    }
                }
                assert forall|x: Seq<char>|
                    before.insert(names@[i as int]@).contains(x) implies #[trigger] t.contains(
                    x,
                ) by {
                    if x == names@[i as int]@ {
                        assert(t[i as int] == x);
                    } else {
                        let u = string_views(names@).take(i as int);
                        let k = choose|k: int| 0 <= k < u.len() && u[k] == x;
                        assert(t[k] == x);
                    }
                }
            }
            i += 1;
        }
        assert(string_views(names@).take(names.len() as int) =~= string_views(names@));
        r
    }

    /// The names that are in either set.
    pub fn union(&self, other: &Self) -> (r: Self)
        ensures
            r@ == self@.union(other@),
    {
        proof {
            use_type_invariant(other);
        }
        let mut r = self.duplicate();
        let mut i: usize = 0;
        while i < other.names.len()
            invariant
                0 <= i <= other.names.len(),
                r@ == self@.union(name_set(string_views(other.names@).take(i as int))),
            decreases other.names.len() - i,
        {
            let ghost before = r@;
            r.insert(other.names[i].clone());
            assert(r@ =~= self@.union(name_set(string_views(other.names@).take(i + 1)))) by {
                let t = string_views(other.names@).take(i + 1);
                let u = string_views(other.names@).take(i as int);
                assert forall|x: Seq<char>| #[trigger] t.contains(x) implies r@.contains(x) by {
                    let k = choose|k: int| 0 <= k < t.len() && t[k] == x;
                    if k < i {
                        assert(u[k] == x);
                    }
                }
                assert forall|x: Seq<char>| #[trigger] u.contains(x) implies t.contains(x) by {
                    let k = choose|k: int| 0 <= k < u.len() && u[k] == x;
                    assert(t[k] == x);
                }
                assert(t[i as int] == other.names@[i as int]@);
            }
            i += 1;
        }
        assert(string_views(other.names@).take(other.names.len() as int) =~= string_views(
            other.names@,
        ));
        assert(r@ =~= self@.union(other@));
        r
    }

    /// An iterator over the names, each given once, in no particular order.
    pub fn iter(&self) -> (it: std::slice::Iter<'_, String>)
        ensures
            name_set(ref_views(it.remaining())) == self@,
            names_distinct(ref_views(it.remaining())),
    {
        proof {
            use_type_invariant(self);
            broadcast use vstd::std_specs::slice::group_slice_axioms;
        }
        let it = self.names.as_slice().iter();
        assert(ref_views(it.remaining()) =~= string_views(self.names@));
        it
    }
}

} // verus!
