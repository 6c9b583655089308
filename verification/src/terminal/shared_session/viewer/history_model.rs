//! The command history that a viewer of a shared session sees, in the order it arrived.

use vstd::prelude::*;

verus! {

/// The history entries of a shared session, oldest first.
pub struct SharedSessionHistoryModel<E> {
    entries: Vec<E>,
}

impl<E> View for SharedSessionHistoryModel<E> {
    type V = Seq<E>;

    closed spec fn view(&self) -> Seq<E> {
        self.entries@
    }
}

impl<E> SharedSessionHistoryModel<E> {
    /// An empty history.
    pub fn new() -> (r: Self)
        ensures
            r@ == Seq::<E>::empty(),
    {
        SharedSessionHistoryModel { entries: Vec::new() }
    }

    /// The entries, oldest first.
    pub fn entries(&self) -> (r: &[E])
        ensures
            r@ == self@,
    {
        self.entries.as_slice()
    }

    /// Appends an entry after all the others.
    pub fn push(&mut self, entry: E)
        ensures
            final(self)@ == old(self)@.push(entry),
    {
        self.entries.push(entry);
    }
}

impl<E> Default for SharedSessionHistoryModel<E> {
    fn default() -> (r: Self)
        ensures
            r@ == Seq::<E>::empty(),
    {
        Self::new()
    }
}

/// The history after pushing each of `pushed`, first to last, onto a history holding `start`.
pub open spec fn history_after_pushes<E>(start: Seq<E>, pushed: Seq<E>) -> Seq<E>
    decreases pushed.len(),
{
    if pushed.len() == 0 {
        start
    } else {
        history_after_pushes(start, pushed.drop_last()).push(pushed.last())
    }
}

/// Pushing any number of entries appends them in push order: a new history that was handed
/// `e1, ..., en` holds exactly `e1, ..., en`, and any history keeps what it held before them.
pub proof fn lemma_entries_in_push_order<E>(start: Seq<E>, pushed: Seq<E>)
    ensures
        history_after_pushes(start, pushed) == start + pushed,
        history_after_pushes(Seq::<E>::empty(), pushed) == pushed,
    decreases pushed.len(),
{
    if pushed.len() > 0 {
        lemma_entries_in_push_order(start, pushed.drop_last());
        assert(start + pushed =~= (start + pushed.drop_last()).push(pushed.last()));
    }
    lemma_empty_prefix(pushed);
}

proof fn lemma_empty_prefix<E>(pushed: Seq<E>)
    ensures
        history_after_pushes(Seq::<E>::empty(), pushed) == pushed,
    decreases pushed.len(),
{
    if pushed.len() > 0 {
        lemma_empty_prefix(pushed.drop_last());
        assert(pushed =~= pushed.drop_last().push(pushed.last()));
    }
}

} // verus!
