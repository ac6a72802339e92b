use vstd::prelude::*;

verus! {

/// The mathematical contents of a list of flag strings: each string as its
/// sequence of characters, in the same order.
pub open spec fn seq_views(v: Seq<String>) -> Seq<Seq<char>> {
    v.map_values(|s: String| s@)
}

pub proof fn lemma_seq_views_empty()
    ensures
        seq_views(Seq::<String>::empty()) == Seq::<Seq<char>>::empty(),
{
    assert(seq_views(Seq::<String>::empty()) =~= Seq::<Seq<char>>::empty());
}

pub proof fn lemma_seq_views_push(v: Seq<String>, s: String)
    ensures
        seq_views(v.push(s)) == seq_views(v).push(s@),
{
    assert(seq_views(v.push(s)) =~= seq_views(v).push(s@));
}

pub proof fn lemma_seq_views_concat(a: Seq<String>, b: Seq<String>)
    ensures
        seq_views(a + b) == seq_views(a) + seq_views(b),
{
    assert(seq_views(a + b) =~= seq_views(a) + seq_views(b));
}

} // verus!
