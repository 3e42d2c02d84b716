//! Character-level helpers for file names: ordinal ordering and extensions.

use vstd::prelude::*;
use vstd::relations::total_ordering;
use vstd::std_specs::iter::IteratorSpec;
use vstd::string::StrSliceExecFns;

verus! {

/// `a` and `b` hold the same characters at every position below `k`.
pub open spec fn agree_below(a: Seq<char>, b: Seq<char>, k: int) -> bool {
    forall|j: int| 0 <= j < k ==> a[j] == b[j]
}

/// `k` is a position that shows `a` to sort no later than `b`: the two agree
/// below `k`, and there `a` ends, or continues with the smaller character.
pub open spec fn decides_le(a: Seq<char>, b: Seq<char>, k: int) -> bool {
    &&& 0 <= k <= a.len()
    &&& k <= b.len()
    &&& agree_below(a, b, k)
    &&& (k == a.len() || (k < b.len() && a[k] < b[k]))
}

/// `a` sorts before or equal to `b` in case-sensitive ordinal order, the
/// order of the characters' code points.
pub open spec fn ordinal_le(a: Seq<char>, b: Seq<char>) -> bool {
    exists|k: int| decides_le(a, b, k)
}

/// `ordinal_le` as a relation, for use with sequence predicates.
pub open spec fn ordinal() -> spec_fn(Seq<char>, Seq<char>) -> bool {
    |a: Seq<char>, b: Seq<char>| ordinal_le(a, b)
}

/// The views of a sequence of strings.
pub open spec fn names(list: Seq<String>) -> Seq<Seq<char>> {
    list.map_values(|s: String| s@)
}

/// `name` is `stem.ext` with a non-empty stem, where `ext` holds no dot: the
/// part of `name` after its last dot is `ext`, and that dot is not the
/// first character.
pub open spec fn matches_extension(name: Seq<char>, ext: Seq<char>) -> bool {
    let stem = name.len() - ext.len() - 1;
    &&& stem > 0
    &&& name[stem] == '.'
    &&& name.skip(stem + 1) == ext
    &&& !ext.contains('.')
}

proof fn lemma_connected_from(a: Seq<char>, b: Seq<char>, i: int)
    requires
        0 <= i <= a.len(),
        i <= b.len(),
        agree_below(a, b, i),
    ensures
        ordinal_le(a, b) || ordinal_le(b, a),
    decreases a.len() - i,
{
    if i == a.len() {
        assert(decides_le(a, b, i));
    } else if i == b.len() {
        assert(decides_le(b, a, i));
    } else if a[i] == b[i] {
        lemma_connected_from(a, b, i + 1);
    } else if a[i] < b[i] {
        assert(decides_le(a, b, i));
    } else {
        assert(decides_le(b, a, i));
    }
}

/// Of any two names, one sorts no later than the other.
pub proof fn lemma_ordinal_connected(a: Seq<char>, b: Seq<char>)
    ensures
        ordinal_le(a, b) || ordinal_le(b, a),
{
    lemma_connected_from(a, b, 0);
}

/// Every name sorts no later than itself.
pub proof fn lemma_ordinal_reflexive(a: Seq<char>)
    ensures
        ordinal_le(a, a),
{
    assert(decides_le(a, a, a.len() as int));
}

/// Two names that each sort no later than the other are the same name.
pub proof fn lemma_ordinal_antisymmetric(a: Seq<char>, b: Seq<char>)
    requires
        ordinal_le(a, b),
        ordinal_le(b, a),
    ensures
        a == b,
{
    let k1 = choose|k: int| decides_le(a, b, k);
    let k2 = choose|k: int| decides_le(b, a, k);
    // A difference at `k1` or `k2` would be an agreement as well.
    if k1 < a.len() && k1 < k2 {
        assert(b[k1] == a[k1]);
    }
    if k2 < b.len() && k2 < k1 {
        assert(a[k2] == b[k2]);
    }
    assert(a =~= b);
}

/// The order is transitive.
pub proof fn lemma_ordinal_transitive(a: Seq<char>, b: Seq<char>, c: Seq<char>)
    requires
        ordinal_le(a, b),
        ordinal_le(b, c),
    ensures
        ordinal_le(a, c),
{
    let k1 = choose|k: int| decides_le(a, b, k);
    let k2 = choose|k: int| decides_le(b, c, k);
    if k1 <= k2 {
        assert(agree_below(a, c, k1)) by {
            assert forall|j: int| 0 <= j < k1 implies a[j] == c[j] by {
                assert(a[j] == b[j]);
                assert(b[j] == c[j]);
            }
        }
        if k1 < a.len() && k1 < k2 {
            assert(b[k1] == c[k1]);
        }
        assert(decides_le(a, c, k1));
    } else {
        assert(agree_below(a, c, k2)) by {
            assert forall|j: int| 0 <= j < k2 implies a[j] == c[j] by {
                assert(a[j] == b[j]);
                assert(b[j] == c[j]);
            }
        }
        assert(a[k2] == b[k2]);
        assert(decides_le(a, c, k2));
    }
}

/// Ordinal order is a total order on names.
pub proof fn lemma_ordinal_total()
    ensures
        total_ordering(ordinal()),
{
    let r = ordinal();
    assert forall|x: Seq<char>| #[trigger] r(x, x) by {
        lemma_ordinal_reflexive(x);
    }
    assert forall|x: Seq<char>, y: Seq<char>| #[trigger] r(x, y) && #[trigger] r(y, x) implies x
        == y by {
        lemma_ordinal_antisymmetric(x, y);
    }
    assert forall|x: Seq<char>, y: Seq<char>, z: Seq<char>| #[trigger]
        r(x, y) && #[trigger] r(y, z) implies r(x, z) by {
        lemma_ordinal_transitive(x, y, z);
    }
    assert forall|x: Seq<char>, y: Seq<char>| #[trigger] r(x, y) || #[trigger] r(y, x) by {
        lemma_ordinal_connected(x, y);
    }
}

/// The characters of `s`, in order.
pub fn chars_of(s: &str) -> (out: Vec<char>)
    ensures
        out@ == s@,
{
    broadcast use vstd::string::group_string_axioms;

    let n: usize = s.unicode_len();
    let mut out: Vec<char> = Vec::new();
    let mut rest = s.chars();
    let mut i: usize = 0;
    assert(s@.skip(0) =~= s@);
    while i < n
        invariant
            n == s@.len(),
            i <= n,
            rest.obeys_prophetic_iter_laws(),
            rest.remaining() == s@.skip(i as int),
            out@ == s@.take(i as int),
        decreases n - i,
    {
        match rest.next() {
            Some(c) => {
                out.push(c);
            },
            None => {},
        }
        assert(s@.skip(i as int).drop_first() =~= s@.skip(i + 1));
        assert(s@.take(i + 1) =~= s@.take(i as int).push(s@[i as int]));
        i = i + 1;
    }
    assert(s@.take(n as int) =~= s@);
    out
}

/// Whether `a` sorts before or equal to `b` in ordinal order.
pub fn sorts_no_later(a: &str, b: &str) -> (le: bool)
    ensures
        le == ordinal_le(a@, b@),
{
    let x: Vec<char> = chars_of(a);
    let y: Vec<char> = chars_of(b);
    let mut i: usize = 0;
    while i < x.len() && i < y.len() && x[i] == y[i]
        invariant
            i <= x.len(),
            i <= y.len(),
            agree_below(x@, y@, i as int),
        decreases x.len() - i,
    {
        i = i + 1;
    }
    if i == x.len() {
        assert(decides_le(x@, y@, i as int));
        true
    } else if i == y.len() {
        assert forall|k: int| !decides_le(x@, y@, k) by {
            if 0 <= k <= x.len() && k <= y.len() && k < i {
                assert(x@[k] == y@[k]);
            }
        }
        false
    } else if x[i] < y[i] {
        assert(decides_le(x@, y@, i as int));
        true
    } else {
        assert forall|k: int| !decides_le(x@, y@, k) by {
            if 0 <= k <= x.len() && k <= y.len() {
                if k < i {
                    assert(x@[k] == y@[k]);
                } else if k > i {
                    if agree_below(x@, y@, k) {
                        assert(x@[i as int] == y@[i as int]);
                    }
                }
            }
        }
        false
    }
}

/// Whether the file name `name` carries the extension `ext`.
pub fn has_extension(name: &str, ext: &str) -> (yes: bool)
    ensures
        yes == matches_extension(name@, ext@),
{
    let n: Vec<char> = chars_of(name);
    let e: Vec<char> = chars_of(ext);
    if n.len() < 2 || e.len() > n.len() - 2 {
        return false;
    }
    let stem: usize = n.len() - e.len() - 1;
    if n[stem] != '.' {
        return false;
    }
    let mut i: usize = 0;
    while i < e.len()
        invariant
            n@ == name@,
            e@ == ext@,
            i <= e.len(),
            stem + 1 + e.len() == n.len(),
            forall|j: int| 0 <= j < i ==> n@[stem + 1 + j] == e@[j] && e@[j] != '.',
        decreases e.len() - i,
    {
        if n[stem + 1 + i] != e[i] {
            assert(n@.skip(stem + 1)[i as int] != e@[i as int]);
            return false;
        }
        if e[i] == '.' {
            assert(e@.contains('.'));
            return false;
        }
        i = i + 1;
    }
    assert(n@.skip(stem + 1) =~= e@);
    true
}

} // verus!
