use vstd::prelude::*;

verus! {

/// The views of the items of a sequence, in order.
pub open spec fn views<T: View>(s: Seq<T>) -> Seq<T::V> {
    Seq::new(s.len(), |i: int| s[i]@)
}

/// Appending an item appends its view.
pub proof fn lemma_views_push<T: View>(s: Seq<T>, x: T)
    ensures
        views(s.push(x)) == views(s).push(x@),
{
    assert(views(s.push(x)) =~= views(s).push(x@));
}

/// Replacing the last item replaces the last view.
pub proof fn lemma_views_replace_last<T: View>(s: Seq<T>, x: T)
    requires
        s.len() > 0,
    ensures
        views(s.drop_last().push(x)) == views(s).update(s.len() - 1, x@),
{
    assert(views(s.drop_last().push(x)) =~= views(s).update(s.len() - 1, x@));
}

} // verus!
