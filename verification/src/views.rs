//! Spec-level views of sequences, shared by the data types of this crate.

use vstd::prelude::*;

verus! {

broadcast use vstd::seq::group_seq_axioms;

/// The element-wise view of a sequence.
pub open spec fn seq_view<T: View>(s: Seq<T>) -> Seq<T::V>
    decreases s.len(),
{
    if s.len() == 0 {
        Seq::empty()
    } else {
        seq_view(s.drop_last()).push(s.last()@)
    }
}

/// `seq_view` keeps the length and views each element in place.
pub broadcast proof fn lemma_seq_view<T: View>(s: Seq<T>)
    ensures
        (#[trigger] seq_view(s)).len() == s.len(),
        forall|i: int| 0 <= i < s.len() ==> seq_view(s)[i] == s[i]@,
    decreases s.len(),
{
    if s.len() == 0 {
        assert(seq_view(s) == Seq::<T::V>::empty());
    } else {
        lemma_seq_view(s.drop_last());
        assert(seq_view(s) == seq_view(s.drop_last()).push(s.last()@));
    }
}

/// The pair-wise view of a sequence of string pairs.
pub open spec fn pairs_view(s: Seq<(String, String)>) -> Seq<(Seq<char>, Seq<char>)>
    decreases s.len(),
{
    if s.len() == 0 {
        Seq::empty()
    } else {
        pairs_view(s.drop_last()).push((s.last().0@, s.last().1@))
    }
}

/// `pairs_view` keeps the length and views both halves of each pair.
pub broadcast proof fn lemma_pairs_view(s: Seq<(String, String)>)
    ensures
        (#[trigger] pairs_view(s)).len() == s.len(),
        forall|i: int| 0 <= i < s.len() ==> pairs_view(s)[i] == (s[i].0@, s[i].1@),
    decreases s.len(),
{
    if s.len() == 0 {
        assert(pairs_view(s) == Seq::<(Seq<char>, Seq<char>)>::empty());
    } else {
        lemma_pairs_view(s.drop_last());
        assert(pairs_view(s) == pairs_view(s.drop_last()).push((s.last().0@, s.last().1@)));
    }
}

/// Viewing a sequence extended by one element extends the viewed sequence
/// by that element's view.
pub broadcast proof fn lemma_seq_view_push<T: View>(s: Seq<T>, x: T)
    ensures
        #[trigger] seq_view(s.push(x)) == seq_view(s).push(x@),
{
    assert(s.push(x).drop_last() =~= s);
    assert(s.push(x).last() == x);
}

/// Viewing a pair sequence extended by one pair extends the viewed
/// sequence by that pair's views.
pub broadcast proof fn lemma_pairs_view_push(s: Seq<(String, String)>, x: (String, String))
    ensures
        #[trigger] pairs_view(s.push(x)) == pairs_view(s).push((x.0@, x.1@)),
{
    assert(s.push(x).drop_last() =~= s);
    assert(s.push(x).last() == x);
}

} // verus!
