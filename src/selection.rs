use vstd::prelude::*;
use vstd::arithmetic::div_mod::{lemma_add_mod_noop, lemma_mod_self_0, lemma_small_mod};

verus! {

/// Where the selection moves on `next` in a list of `n` items.
pub open spec fn next_selection(sel: Option<usize>, n: nat) -> Option<usize> {
    if n == 0 {
        sel
    } else {
        match sel {
            None => Some(0usize),
            Some(i) => if i + 1 >= n { Some(0usize) } else { Some((i + 1) as usize) },
        }
    }
}

/// Where the selection moves on `previous` in a list of `n` items.
pub open spec fn previous_selection(sel: Option<usize>, n: nat) -> Option<usize> {
    if n == 0 {
        sel
    } else {
        match sel {
            None => Some(0usize),
            Some(i) => if i == 0 || i >= n { Some((n - 1) as usize) } else { Some((i - 1) as usize) },
        }
    }
}

/// The selection after `k` calls of `next`.
pub open spec fn next_repeated(sel: Option<usize>, n: nat, k: nat) -> Option<usize>
    decreases k,
{
    if k == 0 {
        sel
    } else {
        next_repeated(next_selection(sel, n), n, (k - 1) as nat)
    }
}

/// A selection that is absent or points into a list of `n` items.
pub open spec fn selection_in_range(sel: Option<usize>, n: nat) -> bool {
    match sel {
        Some(i) => i < n,
        None => true,
    }
}

/// After `k` calls of `next` from item `i` of a non-empty list, item
/// `(i + k) mod n` is selected.
pub proof fn lemma_next_repeated_from(i: usize, n: nat, k: nat)
    requires
        0 < n <= usize::MAX,
        i < n,
    ensures
        next_repeated(Some(i), n, k) == Some(((i + k) % (n as int)) as usize),
    decreases k,
{
    if k == 0 {
        lemma_small_mod(i as nat, n);
    } else {
        let j: usize = if i + 1 >= n { 0usize } else { (i + 1) as usize };
        assert(j == (i + 1) % (n as int)) by {
            if i + 1 >= n {
                lemma_mod_self_0(n as int);
            } else {
                lemma_small_mod((i + 1) as nat, n);
            }
        }
        lemma_next_repeated_from(j, n, (k - 1) as nat);
        assert(((j + (k - 1)) % (n as int)) == (i + k) % (n as int)) by {
            lemma_add_mod_noop(i + 1, k - 1, n as int);
            lemma_small_mod((k - 1) as nat % n, n);
            lemma_add_mod_noop(j as int, k - 1, n as int);
        }
    }
}

/// Full cycle: in a non-empty list of `n` items, `n` calls of `next` bring
/// a selection back to the item it started from. From no selection, `n`
/// calls end on the last item and one more call ends on the first.
pub proof fn lemma_next_full_cycle(sel: Option<usize>, n: nat)
    requires
        0 < n <= usize::MAX,
        selection_in_range(sel, n),
    ensures
        sel is Some ==> next_repeated(sel, n, n) == sel,
        sel is None ==> next_repeated(sel, n, n) == Some((n - 1) as usize),
        sel is None ==> next_repeated(sel, n, n + 1) == Some(0usize),
{
    match sel {
        Some(i) => {
            lemma_next_repeated_from(i, n, n);
            lemma_add_mod_noop(i as int, n as int, n as int);
            lemma_mod_self_0(n as int);
            lemma_small_mod(i as nat, n);
        },
        None => {
            lemma_next_repeated_from(0usize, n, (n - 1) as nat);
            lemma_small_mod((n - 1) as nat, n);
            lemma_next_repeated_from(0usize, n, n);
            lemma_mod_self_0(n as int);
        },
    }
}

/// In a non-empty list, `previous` undoes `next` and `next` undoes
/// `previous`, from any selected item.
pub proof fn lemma_previous_inverts_next(i: usize, n: nat)
    requires
        0 < n <= usize::MAX,
        i < n,
    ensures
        previous_selection(next_selection(Some(i), n), n) == Some(i),
        next_selection(previous_selection(Some(i), n), n) == Some(i),
{
}

/// After `unselect`, a list is the list that `with_items` builds over the
/// same items, so any sequence of moves ends where it ends on that fresh list:
/// the selection before the clearing leaves no trace.
pub proof fn lemma_unselect_is_fresh<T>(before: NavigableList<T>, moves: Seq<Move>)
    requires
        before.wf(),
    ensures
        cleared(before) == fresh(before.items),
        apply_moves(cleared(before).selected, before.items@.len(), moves) == apply_moves(
            fresh(before.items).selected,
            before.items@.len(),
            moves,
        ),
{
}

/// Once a non-empty list has been moved at least once, some item is selected.
pub proof fn lemma_moves_select_an_item(sel: Option<usize>, n: nat, moves: Seq<Move>)
    requires
        0 < n <= usize::MAX,
        selection_in_range(sel, n),
    ensures
        selection_in_range(apply_moves(sel, n, moves), n),
        moves.len() > 0 ==> apply_moves(sel, n, moves) is Some,
    decreases moves.len(),
{
    if moves.len() > 0 {
        let s = match moves[0] {
            Move::Next => next_selection(sel, n),
            Move::Previous => previous_selection(sel, n),
        };
        lemma_moves_select_an_item(s, n, moves.drop_first());
    }
}

/// The list that `with_items` builds.
pub open spec fn fresh<T>(items: Vec<T>) -> NavigableList<T> {
    NavigableList { items, selected: None }
}

/// The list that `unselect` leaves.
pub open spec fn cleared<T>(list: NavigableList<T>) -> NavigableList<T> {
    NavigableList { selected: None, ..list }
}

/// One navigation command.
#[derive(Clone, Copy, Debug, PartialEq, Eq, Structural)]
pub enum Move {
    Next,
    Previous,
}

/// The selection after a sequence of navigation commands, applied in order.
pub open spec fn apply_moves(sel: Option<usize>, n: nat, moves: Seq<Move>) -> Option<usize>
    decreases moves.len(),
{
    if moves.len() == 0 {
        sel
    } else {
        let s = match moves[0] {
            Move::Next => next_selection(sel, n),
            Move::Previous => previous_selection(sel, n),
        };
        apply_moves(s, n, moves.drop_first())
    }
}

/// A selection model over an ordered sequence of items: an optional index of
/// the current item, moved circularly by `next` and `previous`.
pub struct NavigableList<T> {
    pub items: Vec<T>,
    pub selected: Option<usize>,
}

impl<T> NavigableList<T> {
    /// The selection, when there is one, points at an item.
    pub open spec fn wf(&self) -> bool {
        match self.selected {
            Some(i) => i < self.items@.len(),
            None => true,
        }
    }

    pub fn with_items(items: Vec<T>) -> (r: Self)
        ensures
            r == fresh(items),
            r.wf(),
    {
        NavigableList { items, selected: None }
    }

    pub fn len(&self) -> (r: usize)
        ensures
            r == self.items@.len(),
    {
        self.items.len()
    }

    pub fn selected(&self) -> (r: Option<usize>)
        ensures
            r == self.selected,
    {
        self.selected
    }

    /// Appends an item; the selection is kept.
    pub fn add_item(&mut self, item: T)
        requires
            old(self).wf(),
        ensures
            final(self).items@ == old(self).items@.push(item),
            final(self).selected == old(self).selected,
            final(self).wf(),
    {
        self.items.push(item);
    }

    /// Selects the following item, wrapping from the last to the first; from
    /// no selection it selects the first. Does nothing on an empty list.
    pub fn next(&mut self)
        requires
            old(self).wf(),
        ensures
            final(self).items@ == old(self).items@,
            final(self).selected == next_selection(old(self).selected, old(self).items@.len()),
            final(self).wf(),
    {
        let n = self.items.len();
        if n == 0 {
            return;
        }
        let i: usize = match self.selected {
            Some(i) => if i >= n - 1 { 0 } else { i + 1 },
            None => 0,
        };
        self.selected = Some(i);
    }

    /// Selects the preceding item, wrapping from the first to the last; from
    /// no selection it selects the first. Does nothing on an empty list.
    pub fn previous(&mut self)
        requires
            old(self).wf(),
        ensures
            final(self).items@ == old(self).items@,
            final(self).selected == previous_selection(old(self).selected, old(self).items@.len()),
            final(self).wf(),
    {
        let n = self.items.len();
        if n == 0 {
            return;
        }
        let i: usize = match self.selected {
            Some(i) => if i == 0 { n - 1 } else { i - 1 },
            None => 0,
        };
        self.selected = Some(i);
    }

    /// Clears the selection.
    pub fn unselect(&mut self)
        ensures
            *final(self) == cleared(*old(self)),
            final(self).wf(),
    {
        self.selected = None;
    }
}

} // verus!
