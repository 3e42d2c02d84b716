//! Script listings: the entries of a directory that carry a given
//! extension, in ordinal order.

use crate::text::{has_extension, matches_extension, names, ordinal, ordinal_le, sorts_no_later};
use crate::text::{lemma_ordinal_connected, lemma_ordinal_total, lemma_ordinal_transitive};
use vstd::prelude::*;
use vstd::relations::sorted_by;
use vstd::seq_lib::{lemma_multiset_commutative, lemma_sorted_unique};

verus! {

/// The test that a listing for `ext` applies to each entry.
pub open spec fn extension_filter(ext: Seq<char>) -> spec_fn(Seq<char>) -> bool {
    |name: Seq<char>| matches_extension(name, ext)
}

/// `listing` holds exactly the entries that carry `ext`, each as often as it
/// occurs among `entries`, in ordinal order.
pub open spec fn is_listing(
    listing: Seq<Seq<char>>,
    entries: Seq<Seq<char>>,
    ext: Seq<char>,
) -> bool {
    &&& sorted_by(listing, ordinal())
    &&& listing.to_multiset() == entries.filter(extension_filter(ext)).to_multiset()
}

/// There is one listing of given entries: two sequences that both are a
/// listing of the same entries for the same extension are equal.
pub proof fn lemma_listing_unique(
    first: Seq<Seq<char>>,
    second: Seq<Seq<char>>,
    entries: Seq<Seq<char>>,
    ext: Seq<char>,
)
    requires
        is_listing(first, entries, ext),
        is_listing(second, entries, ext),
    ensures
        first == second,
{
    lemma_ordinal_total();
    lemma_sorted_unique(first, second, ordinal());
}

/// The listing does not depend on the order in which the directory hands
/// out its entries: the same entries, in whatever order, have the same
/// listing.
pub proof fn lemma_listing_ignores_order(
    first: Seq<Seq<char>>,
    second: Seq<Seq<char>>,
    entries: Seq<Seq<char>>,
    shuffled: Seq<Seq<char>>,
    ext: Seq<char>,
)
    requires
        is_listing(first, entries, ext),
        is_listing(second, shuffled, ext),
        entries.to_multiset() == shuffled.to_multiset(),
    ensures
        first == second,
{
    let keep = extension_filter(ext);
    assert forall|name: Seq<char>|
        entries.filter(keep).to_multiset().count(name) == shuffled.filter(
            keep,
        ).to_multiset().count(name) by {
        lemma_filter_count(entries, keep, name);
        lemma_filter_count(shuffled, keep, name);
    }
    assert(entries.filter(keep).to_multiset() =~= shuffled.filter(keep).to_multiset());
    lemma_listing_unique(first, second, entries, ext);
}

/// Every name of a listing carries the extension, and every entry that
/// carries it is in the listing.
pub proof fn lemma_listing_members(
    listing: Seq<Seq<char>>,
    entries: Seq<Seq<char>>,
    ext: Seq<char>,
    name: Seq<char>,
)
    requires
        is_listing(listing, entries, ext),
    ensures
        listing.contains(name) <==> entries.contains(name) && matches_extension(name, ext),
{
    let kept = entries.filter(extension_filter(ext));
    broadcast use vstd::seq_lib::group_filter_ensures;

    assert(listing.contains(name) <==> kept.contains(name)) by {
        listing.to_multiset_ensures();
        kept.to_multiset_ensures();
        assert(listing.to_multiset().count(name) == kept.to_multiset().count(name));
    }
    if kept.contains(name) {
        let i = choose|i: int| 0 <= i < kept.len() && kept[i] == name;
        assert(extension_filter(ext)(kept[i]));
        lemma_filter_source(entries, extension_filter(ext), i);
    }
    if entries.contains(name) && matches_extension(name, ext) {
        let i = choose|i: int| 0 <= i < entries.len() && entries[i] == name;
        assert(extension_filter(ext)(entries[i]));
        assert(kept.contains(entries[i]));
    }
}

/// Each element of a filtered sequence occurs in the sequence it was
/// filtered from.
proof fn lemma_filter_source<A>(s: Seq<A>, pred: spec_fn(A) -> bool, i: int)
    requires
        0 <= i < s.filter(pred).len(),
    ensures
        s.contains(s.filter(pred)[i]),
    decreases s.len(),
{
    reveal(Seq::filter);
    if s.len() > 0 {
        let rest = s.drop_last().filter(pred);
        if i < rest.len() {
            lemma_filter_source(s.drop_last(), pred, i);
            let j = choose|j: int| 0 <= j < s.drop_last().len() && s.drop_last()[j] == rest[i];
            assert(s[j] == rest[i]);
        } else {
            assert(s[s.len() - 1] == s.last());
        }
    }
}

/// What a filter keeps holds each element that passes as often as the
/// sequence does, and no other.
proof fn lemma_filter_count<A>(s: Seq<A>, pred: spec_fn(A) -> bool, x: A)
    ensures
        s.filter(pred).to_multiset().count(x) == if pred(x) {
            s.to_multiset().count(x)
        } else {
            0
        },
    decreases s.len(),
{
    broadcast use vstd::seq_lib::group_to_multiset_ensures;

    if s.len() == 0 {
        reveal(Seq::filter);
        assert(s.filter(pred) =~= s);
        assert(s.to_multiset().len() == 0);
    } else {
        let rest = s.drop_last();
        lemma_filter_count(rest, pred, x);
        lemma_filter_push(rest, pred, s.last());
        assert(s =~= rest.push(s.last()));
    }
}

/// Filtering a sequence with one more element at its end.
proof fn lemma_filter_push<A>(s: Seq<A>, pred: spec_fn(A) -> bool, x: A)
    ensures
        s.push(x).filter(pred) == if pred(x) {
            s.filter(pred).push(x)
        } else {
            s.filter(pred)
        },
{
    reveal(Seq::filter);
    assert(s.push(x).drop_last() =~= s);
}

/// Inserting into a sequence adds one occurrence of the element.
proof fn lemma_insert_multiset<A>(s: Seq<A>, i: int, x: A)
    requires
        0 <= i <= s.len(),
    ensures
        s.insert(i, x).to_multiset() == s.to_multiset().insert(x),
{
    broadcast use vstd::seq_lib::group_to_multiset_ensures;

    let front = s.subrange(0, i);
    let back = s.subrange(i, s.len() as int);
    assert(s =~= front + back);
    lemma_multiset_commutative(front, back);
    lemma_multiset_commutative(front.push(x), back);
    assert(s.insert(i, x).to_multiset() =~= s.to_multiset().insert(x));
}

/// The entries that carry the extension `ext`, in the order given.
pub fn keep_extension(entries: &Vec<String>, ext: &str) -> (kept: Vec<String>)
    ensures
        names(kept@) == names(entries@).filter(extension_filter(ext@)),
{
    let mut kept: Vec<String> = Vec::new();
    let mut i: usize = 0;
    assert(names(entries@).take(0) =~= Seq::<Seq<char>>::empty());
    assert(names(kept@) =~= Seq::<Seq<char>>::empty());
    proof {
        reveal(Seq::filter);
    }
    while i < entries.len()
        invariant
            i <= entries.len(),
            names(kept@) == names(entries@).take(i as int).filter(extension_filter(ext@)),
        decreases entries.len() - i,
    {
        let ghost before = names(entries@).take(i as int);
        let ghost old_kept = kept@;
        proof {
            lemma_filter_push(before, extension_filter(ext@), entries@[i as int]@);
            assert(names(entries@).take(i + 1) =~= before.push(entries@[i as int]@));
        }
        if has_extension(entries[i].as_str(), ext) {
            kept.push(entries[i].clone());
            assert(names(kept@) =~= names(old_kept).push(entries@[i as int]@));
        }
        i = i + 1;
    }
    assert(names(entries@).take(entries.len() as int) =~= names(entries@));
    kept
}

/// The names of `list` in ordinal order.
pub fn sort_names(list: &Vec<String>) -> (sorted: Vec<String>)
    ensures
        sorted_by(names(sorted@), ordinal()),
        names(sorted@).to_multiset() == names(list@).to_multiset(),
{
    let mut sorted: Vec<String> = Vec::new();
    let mut i: usize = 0;
    assert(names(list@).take(0) =~= names(sorted@));
    while i < list.len()
        invariant
            i <= list.len(),
            sorted_by(names(sorted@), ordinal()),
            names(sorted@).to_multiset() == names(list@).take(i as int).to_multiset(),
        decreases list.len() - i,
    {
        let name: String = list[i].clone();
        let mut at: usize = 0;
        while at < sorted.len() && sorts_no_later(sorted[at].as_str(), name.as_str())
            invariant
                at <= sorted.len(),
                forall|j: int| 0 <= j < at ==> ordinal_le(#[trigger] sorted@[j]@, name@),
            decreases sorted.len() - at,
        {
            at = at + 1;
        }
        let ghost before = sorted@;
        sorted.insert(at, name);
        proof {
            let new_names = names(sorted@);
            let old_names = names(before);
            assert(new_names =~= old_names.insert(at as int, name@));
            assert forall|a: int, b: int| 0 <= a < b < new_names.len() implies ordinal()(
                #[trigger] new_names[a],
                #[trigger] new_names[b],
            ) by {
                if b < at {
                    assert(ordinal()(old_names[a], old_names[b]));
                } else if b == at {
                    assert(ordinal_le(before[a]@, name@));
                } else if a == at {
                    lemma_ordinal_connected(before[at as int]@, name@);
                    if b - 1 > at {
                        assert(ordinal()(old_names[at as int], old_names[b - 1]));
                        lemma_ordinal_transitive(name@, old_names[at as int], old_names[b - 1]);
                    }
                } else if a < at {
                    assert(ordinal()(old_names[a], old_names[b - 1]));
                } else {
                    assert(ordinal()(old_names[a - 1], old_names[b - 1]));
                }
            }
            lemma_insert_multiset(old_names, at as int, name@);
            let taken = names(list@).take(i as int);
            assert(names(list@).take(i + 1) =~= taken.push(name@));
            broadcast use vstd::seq_lib::group_to_multiset_ensures;

        }
        i = i + 1;
    }
    assert(names(list@).take(list.len() as int) =~= names(list@));
    sorted
}

/// The listing of a directory's entries for one extension.
pub fn list_scripts(entries: &Vec<String>, ext: &str) -> (listing: Vec<String>)
    ensures
        is_listing(names(listing@), names(entries@), ext@),
{
    let kept: Vec<String> = keep_extension(entries, ext);
    sort_names(&kept)
}

} // verus!
