//! What a list of flags says about a table of known extension names, and the
//! work that is the same for the instance and the device table: collecting
//! the names whose flag is on, as a set or as text.
use vstd::prelude::*;

use crate::name_set::{name_set, names_distinct, ExtensionNames};

verus! {

/// The names of `names` whose flag in `flags` is on.
pub closed spec fn chosen(names: Seq<Seq<char>>, flags: Seq<bool>) -> Set<Seq<char>> {
    Set::new(|s: Seq<char>| exists|i: int| 0 <= i < flags.len() && flags[i] && names[i] == s)
}

/// The flags that are on in both `a` and `b`.
pub open spec fn flags_and(a: Seq<bool>, b: Seq<bool>) -> Seq<bool> {
    Seq::new(a.len(), |i: int| a[i] && b[i])
}

/// The flags that are on in `a` and off in `b`.
pub open spec fn flags_and_not(a: Seq<bool>, b: Seq<bool>) -> Seq<bool> {
    Seq::new(a.len(), |i: int| a[i] && !b[i])
}

/// Where no name is listed twice, a name of the table is chosen exactly
/// where its own flag is on.
pub proof fn lemma_chosen_at(names: Seq<Seq<char>>, flags: Seq<bool>, k: int)
    requires
        names_distinct(names),
        flags.len() == names.len(),
        0 <= k < names.len(),
    ensures
        chosen(names, flags).contains(names[k]) == flags[k],
{
    if chosen(names, flags).contains(names[k]) {
        let i = choose|i: int| 0 <= i < flags.len() && flags[i] && names[i] == names[k];
        assert(i == k);
    }
}

/// Where no name is listed twice, the names chosen by the flags on in both
/// lists are those chosen by both lists.
pub proof fn lemma_chosen_and(names: Seq<Seq<char>>, a: Seq<bool>, b: Seq<bool>)
    requires
        names_distinct(names),
        a.len() == names.len(),
        b.len() == names.len(),
    ensures
        chosen(names, flags_and(a, b)) == chosen(names, a).intersect(chosen(names, b)),
{
    assert forall|s: Seq<char>|
        chosen(names, a).contains(s) && chosen(names, b).contains(s) implies #[trigger] chosen(
        names,
        flags_and(a, b),
    ).contains(s) by {
        let i = choose|i: int| 0 <= i < a.len() && a[i] && names[i] == s;
        let j = choose|j: int| 0 <= j < b.len() && b[j] && names[j] == s;
        assert(i == j);
        assert(flags_and(a, b)[i]);
    }
    assert(chosen(names, flags_and(a, b)) =~= chosen(names, a).intersect(chosen(names, b)));
}

/// Where no name is listed twice, the names chosen by the flags on in `a`
/// and off in `b` are those chosen by `a` and not by `b`.
pub proof fn lemma_chosen_and_not(names: Seq<Seq<char>>, a: Seq<bool>, b: Seq<bool>)
    requires
        names_distinct(names),
        a.len() == names.len(),
        b.len() == names.len(),
    ensures
        chosen(names, flags_and_not(a, b)) == chosen(names, a).difference(chosen(names, b)),
{
    assert forall|s: Seq<char>| #[trigger] chosen(names, flags_and_not(a, b)).contains(
        s,
    ) implies !chosen(names, b).contains(s) by {
        let i = choose|i: int|
            0 <= i < a.len() && flags_and_not(a, b)[i] && names[i] == s;
        if chosen(names, b).contains(s) {
            let j = choose|j: int| 0 <= j < b.len() && b[j] && names[j] == s;
            assert(i == j);
        }
    }
    assert forall|s: Seq<char>|
        chosen(names, a).contains(s) && !chosen(names, b).contains(s) implies #[trigger] chosen(
        names,
        flags_and_not(a, b),
    ).contains(s) by {
        let i = choose|i: int| 0 <= i < a.len() && a[i] && names[i] == s;
        if b[i] {
            assert(chosen(names, b).contains(s));
        }
        assert(flags_and_not(a, b)[i]);
    }
    assert(chosen(names, flags_and_not(a, b)) =~= chosen(names, a).difference(
        chosen(names, b),
    ));
}

/// Flags that are on exactly where their name is in `s` choose the names of
/// `s` that are in the table.
pub proof fn lemma_chosen_members(names: Seq<Seq<char>>, s: Set<Seq<char>>)
    ensures
        chosen(names, Seq::new(names.len(), |i: int| s.contains(names[i]))) == s.intersect(
            name_set(names),
        ),
{
    let flags = Seq::new(names.len(), |i: int| s.contains(names[i]));
    assert forall|x: Seq<char>| s.contains(x) && name_set(names).contains(x) implies #[trigger] chosen(
        names,
        flags,
    ).contains(x) by {
        let i = choose|i: int| 0 <= i < names.len() && names[i] == x;
        assert(flags[i]);
    }
    assert forall|x: Seq<char>| #[trigger] chosen(names, flags).contains(x) implies name_set(
        names,
    ).contains(x) by {
        let i = choose|i: int| 0 <= i < flags.len() && flags[i] && names[i] == x;
        assert(names[i] == x);
    }
    assert(chosen(names, flags) =~= s.intersect(name_set(names)));
}

/// With every flag off, no name is chosen.
pub proof fn lemma_chosen_none(names: Seq<Seq<char>>, flags: Seq<bool>)
    requires
        forall|i: int| 0 <= i < flags.len() ==> !(#[trigger] flags[i]),
    ensures
        chosen(names, flags) == Set::<Seq<char>>::empty(),
{
    assert(chosen(names, flags) =~= Set::<Seq<char>>::empty());
}

/// `list` with `x` added at the end where `on` holds.
pub open spec fn push_if(list: Seq<Seq<char>>, on: bool, x: Seq<char>) -> Seq<Seq<char>> {
    if on {
        list.push(x)
    } else {
        list
    }
}

/// The names among the first `n` of `names` whose flag is on, in order.
pub open spec fn selected_upto(names: Seq<Seq<char>>, flags: Seq<bool>, n: nat) -> Seq<Seq<char>>
    decreases n,
{
    if n == 0 {
        Seq::empty()
    } else {
        push_if(selected_upto(names, flags, (n - 1) as nat), flags[n - 1], names[n - 1])
    }
}

/// The names of `names` whose flag in `flags` is on, in order.
pub open spec fn selected(names: Seq<Seq<char>>, flags: Seq<bool>) -> Seq<Seq<char>> {
    selected_upto(names, flags, flags.len())
}

/// The names listed among the first `n` are those chosen among the first `n`
/// flags, and where no name of the table is listed twice, none is listed twice.
pub proof fn lemma_selected_upto(names: Seq<Seq<char>>, flags: Seq<bool>, n: nat)
    requires
        names_distinct(names),
        flags.len() == names.len(),
        n <= flags.len(),
    ensures
        name_set(selected_upto(names, flags, n)) == chosen(names, flags.take(n as int)),
        names_distinct(selected_upto(names, flags, n)),
        forall|x: Seq<char>| #[trigger] selected_upto(names, flags, n).contains(x) ==> exists|i: int|
            0 <= i < n && names[i] == x,
    decreases n,
{
    let l = selected_upto(names, flags, n);
    if n == 0 {
        assert(name_set(l) =~= chosen(names, flags.take(0)));
    } else {
        let m = (n - 1) as nat;
        lemma_selected_upto(names, flags, m);
        let p = selected_upto(names, flags, m);
        let t0 = flags.take(m as int);
        let t1 = flags.take(n as int);
        assert forall|x: Seq<char>| #[trigger] l.contains(x) implies exists|i: int|
            0 <= i < n && names[i] == x by {
            let k = choose|k: int| 0 <= k < l.len() && l[k] == x;
            if k < p.len() {
                assert(p.contains(x));
            } else {
                assert(names[m as int] == x);
            }
        }
        assert forall|x: Seq<char>| #[trigger] name_set(l).contains(x) == chosen(names, t1).contains(
            x,
        ) by {
            if l.contains(x) {
                let k = choose|k: int| 0 <= k < l.len() && l[k] == x;
                if k < p.len() {
                    assert(p.contains(x));
                    assert(name_set(p).contains(x));
                    let j = choose|j: int| 0 <= j < t0.len() && t0[j] && names[j] == x;
                    assert(t1[j]);
                } else {
                    assert(flags[m as int] && names[m as int] == x);
                    assert(t1[m as int]);
                }
            }
            if chosen(names, t1).contains(x) {
                let j = choose|j: int| 0 <= j < t1.len() && t1[j] && names[j] == x;
                if j < m {
                    assert(t0[j]);
                    assert(chosen(names, t0).contains(x));
                    assert(name_set(p).contains(x));
                    let k = choose|k: int| 0 <= k < p.len() && p[k] == x;
                    if flags[m as int] {
                        assert(l[k] == x);
                    }
                } else {
                    assert(j == m);
                    assert(l[l.len() - 1] == x);
                }
            }
        }
        assert(name_set(l) =~= chosen(names, t1));
        if flags[m as int] {
            assert forall|a: int, b: int|
                0 <= a < l.len() && 0 <= b < l.len() && a != b implies #[trigger] l[a]
                != #[trigger] l[b] by {
                if a < p.len() && b < p.len() {
                    assert(p[a] != p[b]);
                } else if a < p.len() {
                    assert(p.contains(p[a]));
                    let i = choose|i: int| 0 <= i < m && names[i] == p[a];
                    assert(names[i] != names[m as int]);
                } else {
                    assert(p.contains(p[b]));
                    let i = choose|i: int| 0 <= i < m && names[i] == p[b];
                    assert(names[i] != names[m as int]);
                }
            }
        }
    }
}

/// The listed names are exactly the chosen names, each once.
pub proof fn lemma_selected_names(names: Seq<Seq<char>>, flags: Seq<bool>)
    requires
        names_distinct(names),
        flags.len() == names.len(),
    ensures
        name_set(selected(names, flags)) == chosen(names, flags),
        names_distinct(selected(names, flags)),
{
    lemma_selected_upto(names, flags, flags.len());
    assert(flags.take(flags.len() as int) =~= flags);
}

/// The items of `items` with `sep` between each two.
pub open spec fn join(items: Seq<Seq<char>>, sep: Seq<char>) -> Seq<char>
    decreases items.len(),
{
    if items.len() == 0 {
        Seq::empty()
    } else if items.len() == 1 {
        items[0]
    } else {
        join(items.drop_last(), sep) + sep + items.last()
    }
}

/// The names of `list`, separated by a comma and a space, between square
/// brackets.
pub open spec fn bracketed_list(list: Seq<Seq<char>>) -> Seq<char> {
    "["@ + join(list, ", "@) + "]"@
}

/// A list of flags, one for each name of a fixed table of known extension
/// names; the view holds the flags in the order of the table.
pub trait KnownExtensions: View<V = Seq<bool>> + Sized {
    /// The known names, one per flag, in order.
    spec fn known_names() -> Seq<Seq<char>>;

    /// There is one flag per known name.
    proof fn lemma_one_flag_per_name(&self)
        ensures
            self@.len() == Self::known_names().len(),
    ;

    /// No known name is listed twice.
    proof fn lemma_known_names_distinct()
        ensures
            names_distinct(Self::known_names()),
    ;

    /// The number of known names.
    fn known_count() -> (n: usize)
        ensures
            n == Self::known_names().len(),
    ;

    /// The known name at position `i`.
    fn known_name(i: usize) -> (name: &'static str)
        requires
            i < Self::known_names().len(),
        ensures
            name@ == Self::known_names()[i as int],
    ;

    /// The flag at position `i`.
    fn flag(&self, i: usize) -> (b: bool)
        requires
            i < Self::known_names().len(),
        ensures
            b == self@[i as int],
    ;
}

/// The names of the extensions whose flag is on in `e`, in the order of the
/// table, separated by a comma and a space, between square brackets.
pub fn list_text<E: KnownExtensions>(e: &E) -> (text: String)
    ensures
        text@ == bracketed_list(selected(E::known_names(), e@)),
{
    proof {
        e.lemma_one_flag_per_name();
    }
    let ghost names = E::known_names();
    let n = E::known_count();
    let mut text = "[".to_owned();
    let mut first = true;
    let mut i: usize = 0;
    while i < n
        invariant
            names == E::known_names(),
            n == names.len(),
            e@.len() == n,
            0 <= i <= n,
            text@ == "["@ + join(selected_upto(names, e@, i as nat), ", "@),
            first == (selected_upto(names, e@, i as nat).len() == 0),
        decreases n - i,
    {
        let ghost listed = selected_upto(names, e@, i as nat);
        if e.flag(i) {
            if !first {
                text.append(", ");
            }
            let name = E::known_name(i);
            text.append(name);
            first = false;
            assert(listed.push(names[i as int]).drop_last() =~= listed);
            assert(text@ =~= "["@ + join(listed.push(names[i as int]), ", "@));
        }
        i += 1;
    }
    text.append("]");
    text
}

/// The set of the names of the extensions whose flag is on in `e`.
pub fn chosen_names<E: KnownExtensions>(e: &E) -> (r: ExtensionNames)
    ensures
        r@ == chosen(E::known_names(), e@),
{
    proof {
        e.lemma_one_flag_per_name();
    }
    let ghost names = E::known_names();
    let n = E::known_count();
    let mut r = ExtensionNames::empty();
    let mut i: usize = 0;
    while i < n
        invariant
            names == E::known_names(),
            n == names.len(),
            e@.len() == n,
            0 <= i <= n,
            r@ == chosen(names, e@.take(i as int)),
        decreases n - i,
    {
        let ghost before = r@;
        if e.flag(i) {
            r.insert(E::known_name(i).to_owned());
        }
        assert(r@ =~= chosen(names, e@.take(i + 1))) by {
            let t0 = e@.take(i as int);
            let t1 = e@.take(i + 1);
            assert forall|s: Seq<char>| #[trigger] chosen(names, t1).contains(s) implies r@.contains(
                s,
            ) by {
                let j = choose|j: int| 0 <= j < t1.len() && t1[j] && names[j] == s;
                if j < i {
                    assert(t0[j]);
                }
            }
            assert forall|s: Seq<char>| r@.contains(s) implies #[trigger] chosen(
                names,
                t1,
            ).contains(s) by {
                if before.contains(s) {
                    let j = choose|j: int| 0 <= j < t0.len() && t0[j] && names[j] == s;
                    assert(t1[j]);
                } else {
                    assert(t1[i as int] && names[i as int] == s);
                }
            }
        }
        i += 1;
    }
    assert(e@.take(n as int) =~= e@);
    r
}

} // verus!
