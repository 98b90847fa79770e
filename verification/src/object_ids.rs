//! Ordered, duplicate-free lists of backend object ids.
//!
//! A list tests what it already holds itself, in place of a `BTreeSet<String>` of seen ids:
//! vstd states what `BTreeSet` holds only for key types whose order it models (`obeys_cmp`),
//! and `String` is not one of them.
use vstd::prelude::*;

verus! {

/// `ids` with `id` appended, unless it already holds `id`.
pub open spec fn push_unique(ids: Seq<Seq<char>>, id: Seq<char>) -> Seq<Seq<char>> {
    if ids.contains(id) {
        ids
    } else {
        ids.push(id)
    }
}

/// `ids` extended, in order, by every id of `incoming` that it does not hold yet.
pub open spec fn extend_unique(ids: Seq<Seq<char>>, incoming: Seq<Seq<char>>) -> Seq<Seq<char>>
    decreases incoming.len(),
{
    if incoming.len() == 0 {
        ids
    } else {
        push_unique(extend_unique(ids, incoming.drop_last()), incoming.last())
    }
}

/// The duplicate-free list of `ids`, in order of first occurrence.
pub open spec fn unique_ids(ids: Seq<Seq<char>>) -> Seq<Seq<char>> {
    extend_unique(Seq::empty(), ids)
}

/// Whether `v` holds a string with the characters `x`.
pub fn contains_string(v: &Vec<String>, x: &str) -> (found: bool)
    ensures
        found == v.deep_view().contains(x@),
{
    let mut i: usize = 0;
    while i < v.len()
        invariant
            i <= v.len(),
            forall|j: int| 0 <= j < i ==> v.deep_view()[j] != x@,
        decreases v.len() - i,
    {
        if crate::text::str_equal(v[i].as_str(), x) {
            assert(v.deep_view()[i as int] == x@);
            return true;
        }
        i = i + 1;
    }
    proof {
        if v.deep_view().contains(x@) {
            let j = choose|j: int| 0 <= j < v.deep_view().len() && v.deep_view()[j] == x@;
            assert(v.deep_view()[j] != x@);
        }
    }
    false
}

/// Appends `object_id` to `object_ids` unless it is already there.
pub fn push_unique_object_id(object_ids: &mut Vec<String>, object_id: &str)
    ensures
        final(object_ids).deep_view() == push_unique(old(object_ids).deep_view(), object_id@),
{
    if !contains_string(object_ids, object_id) {
        let ghost before = object_ids.deep_view();
        object_ids.push(crate::text::owned(object_id));
        assert(object_ids.deep_view() =~= before.push(object_id@));
    }
}

/// Appends, in order, each id of `incoming` that `object_ids` does not hold yet.
pub fn extend_unique_object_ids(object_ids: &mut Vec<String>, incoming: Vec<String>)
    ensures
        final(object_ids).deep_view() == extend_unique(old(object_ids).deep_view(), incoming.deep_view()),
{
    let ghost start = object_ids.deep_view();
    let mut i: usize = 0;
    while i < incoming.len()
        invariant
            i <= incoming.len(),
            object_ids.deep_view() == extend_unique(start, incoming.deep_view().take(i as int)),
        decreases incoming.len() - i,
    {
        proof {
            assert(incoming.deep_view().take(i + 1).drop_last() =~= incoming.deep_view().take(i as int));
        }
        push_unique_object_id(object_ids, incoming[i].as_str());
        i = i + 1;
    }
    assert(incoming.deep_view().take(incoming.len() as int) =~= incoming.deep_view());
}

/// Adding an id keeps a duplicate-free list duplicate-free, and the list then holds exactly its
/// former ids and the new one.
pub proof fn lemma_push_unique(ids: Seq<Seq<char>>, id: Seq<char>)
    ensures
        ids.no_duplicates() ==> push_unique(ids, id).no_duplicates(),
        forall|y: Seq<char>| #[trigger] push_unique(ids, id).contains(y) <==> (ids.contains(y) || y == id),
        ids.is_prefix_of(push_unique(ids, id)),
{
    if !ids.contains(id) {
        assert forall|y: Seq<char>| #[trigger] push_unique(ids, id).contains(y) <==> (ids.contains(y) || y == id) by {
            if push_unique(ids, id).contains(y) {
                let k = choose|k: int| 0 <= k < ids.len() + 1 && push_unique(ids, id)[k] == y;
                if k < ids.len() {
                    assert(ids[k] == y);
                }
            }
            if ids.contains(y) {
                let k = choose|k: int| 0 <= k < ids.len() && ids[k] == y;
                assert(push_unique(ids, id)[k] == y);
            }
            if y == id {
                assert(push_unique(ids, id)[ids.len() as int] == y);
            }
        }
    }
}

/// Extending an id list: a duplicate-free list stays duplicate-free, the former list stays its
/// prefix, and the result holds exactly the former ids and the incoming ones.
pub proof fn lemma_extend_unique(ids: Seq<Seq<char>>, incoming: Seq<Seq<char>>)
    ensures
        ids.no_duplicates() ==> extend_unique(ids, incoming).no_duplicates(),
        forall|y: Seq<char>| #[trigger] extend_unique(ids, incoming).contains(y) <==> (ids.contains(y) || incoming.contains(y)),
        ids.is_prefix_of(extend_unique(ids, incoming)),
    decreases incoming.len(),
{
    if incoming.len() > 0 {
        let rest = extend_unique(ids, incoming.drop_last());
        lemma_extend_unique(ids, incoming.drop_last());
        lemma_push_unique(rest, incoming.last());
        assert forall|y: Seq<char>| #[trigger] extend_unique(ids, incoming).contains(y) <==> (ids.contains(y) || incoming.contains(y)) by {
            assert(rest.contains(y) <==> (ids.contains(y) || incoming.drop_last().contains(y)));
            if incoming.contains(y) {
                let k = choose|k: int| 0 <= k < incoming.len() && incoming[k] == y;
                if k < incoming.len() - 1 {
                    assert(incoming.drop_last()[k] == y);
                }
            }
            if incoming.drop_last().contains(y) {
                let k = choose|k: int| 0 <= k < incoming.len() - 1 && incoming.drop_last()[k] == y;
                assert(incoming[k] == y);
            }
        }
        assert(ids.is_prefix_of(push_unique(rest, incoming.last())));
    }
}

/// The first-occurrence list of a sequence of ids holds no id twice and holds exactly the ids
/// of the sequence.
pub proof fn lemma_unique_ids(ids: Seq<Seq<char>>)
    ensures
        unique_ids(ids).no_duplicates(),
        forall|y: Seq<char>| #[trigger] unique_ids(ids).contains(y) <==> ids.contains(y),
{
    lemma_extend_unique(Seq::empty(), ids);
}


/// Extending by one list and then by another is extending by their concatenation.
pub proof fn lemma_extend_unique_concat(ids: Seq<Seq<char>>, first: Seq<Seq<char>>, second: Seq<Seq<char>>)
    ensures
        extend_unique(extend_unique(ids, first), second) == extend_unique(ids, first + second),
    decreases second.len(),
{
    if second.len() == 0 {
        assert(first + second =~= first);
    } else {
        lemma_extend_unique_concat(ids, first, second.drop_last());
        assert((first + second).drop_last() =~= first + second.drop_last());
        assert((first + second).last() == second.last());
    }
}

/// Extending by the first-occurrence list of some ids is extending by the ids themselves.
pub proof fn lemma_extend_unique_absorbs_unique_ids(ids: Seq<Seq<char>>, incoming: Seq<Seq<char>>)
    ensures
        extend_unique(ids, unique_ids(incoming)) == extend_unique(ids, incoming),
    decreases incoming.len(),
{
    if incoming.len() > 0 {
        let rest = incoming.drop_last();
        let x = incoming.last();
        lemma_extend_unique_absorbs_unique_ids(ids, rest);
        let u = unique_ids(rest);
        assert(unique_ids(incoming) == push_unique(u, x));
        lemma_unique_ids(rest);
        lemma_extend_unique(ids, rest);
        if u.contains(x) {
            assert(rest.contains(x));
            assert(extend_unique(ids, rest).contains(x));
        } else {
            assert(extend_unique(ids, u.push(x)) == push_unique(extend_unique(ids, u), x)) by {
                assert(u.push(x).drop_last() =~= u);
            }
        }
    }
}


/// Extending by a single id is adding it.
pub proof fn lemma_extend_unique_single(ids: Seq<Seq<char>>, id: Seq<char>)
    ensures
        extend_unique(ids, seq![id]) == push_unique(ids, id),
{
    let single = seq![id];
    assert(single.drop_last() =~= Seq::<Seq<char>>::empty());
    assert(single.last() == id);
    assert(extend_unique(ids, single.drop_last()) == ids);
}

/// Appends, in order, each id of `incoming` that `object_ids` does not hold yet.
pub fn extend_unique_object_ids_from(object_ids: &mut Vec<String>, incoming: &Vec<String>)
    ensures
        final(object_ids).deep_view() == extend_unique(old(object_ids).deep_view(), incoming.deep_view()),
{
    let ghost start = object_ids.deep_view();
    let mut i: usize = 0;
    while i < incoming.len()
        invariant
            i <= incoming.len(),
            object_ids.deep_view() == extend_unique(start, incoming.deep_view().take(i as int)),
        decreases incoming.len() - i,
    {
        proof {
            assert(incoming.deep_view().take(i + 1).drop_last() =~= incoming.deep_view().take(i as int));
        }
        push_unique_object_id(object_ids, incoming[i].as_str());
        i = i + 1;
    }
    assert(incoming.deep_view().take(incoming.len() as int) =~= incoming.deep_view());
}

} // verus!
