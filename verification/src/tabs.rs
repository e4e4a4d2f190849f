//! The tab bar: an ordered list of titles and the index of the selected one.

use vstd::arithmetic::div_mod::{
    lemma_add_mod_noop_right, lemma_mod_add_multiples_vanish, lemma_mod_pos_bound,
    lemma_mod_self_0, lemma_mod_sub_multiples_vanish, lemma_small_mod, lemma_sub_mod_noop,
    lemma_sub_mod_noop_right,
};
use vstd::prelude::*;

verus! {

/// What a [`TabsState`] is, mathematically: the titles in display order and
/// the position of the selected one.
pub struct TabsView {
    pub titles: Seq<Seq<char>>,
    pub index: nat,
}

/// Where a step to the right from position `index` ends on a bar of `len`
/// titles, `len` being positive.
pub open spec fn step_right(index: int, len: int) -> int {
    (index + 1) % len
}

/// Where a step to the left from position `index` ends on a bar of `len`
/// titles, `len` being positive.
pub open spec fn step_left(index: int, len: int) -> int {
    if index > 0 {
        index - 1
    } else {
        len - 1
    }
}

impl TabsView {
    /// The selection points at one of the titles. A bar without titles keeps
    /// the index at zero.
    pub open spec fn wf(self) -> bool {
        if self.titles.len() == 0 {
            self.index == 0
        } else {
            self.index < self.titles.len()
        }
    }

    /// The bar after one step to the right, wrapping from the last title to
    /// the first. A bar without titles stays as it is.
    pub open spec fn next(self) -> TabsView {
        if self.titles.len() == 0 {
            self
        } else {
            TabsView {
                titles: self.titles,
                index: step_right(self.index as int, self.titles.len() as int) as nat,
            }
        }
    }

    /// The bar after one step to the left, wrapping from the first title to
    /// the last. A bar without titles stays as it is.
    pub open spec fn previous(self) -> TabsView {
        if self.titles.len() == 0 {
            self
        } else {
            TabsView {
                titles: self.titles,
                index: step_left(self.index as int, self.titles.len() as int) as nat,
            }
        }
    }

    /// The bar after `steps` steps to the right.
    pub open spec fn next_n(self, steps: nat) -> TabsView
        decreases steps,
    {
        if steps == 0 {
            self
        } else {
            self.next().next_n((steps - 1) as nat)
        }
    }

    /// The bar after `steps` steps to the left.
    pub open spec fn previous_n(self, steps: nat) -> TabsView
        decreases steps,
    {
        if steps == 0 {
            self
        } else {
            self.previous().previous_n((steps - 1) as nat)
        }
    }
}

/// The titles of the tab bar, in display order, and the selected position.
///
/// Both fields are open to the caller. [`TabsState::new`] selects the first
/// title and the two steps keep the selection on a title, so a bar that is
/// only ever changed through them stays well-formed.
pub struct TabsState {
    pub titles: Vec<&'static str>,
    pub index: usize,
}

impl View for TabsState {
    type V = TabsView;

    open spec fn view(&self) -> TabsView {
        TabsView { titles: self.titles.deep_view(), index: self.index as nat }
    }
}

impl TabsState {
    /// The selection points at one of the titles; see [`TabsView::wf`].
    pub open spec fn wf(&self) -> bool {
        self@.wf()
    }

    /// The position that a step to the right selects.
    pub open spec fn next_index(&self) -> int {
        if self.titles.len() == 0 {
            self.index as int
        } else {
            step_right(self.index as int, self.titles.len() as int)
        }
    }

    /// The position that a step to the left selects.
    pub open spec fn previous_index(&self) -> int {
        if self.titles.len() == 0 {
            self.index as int
        } else {
            step_left(self.index as int, self.titles.len() as int)
        }
    }

    /// A bar over `titles` with the first one selected.
    pub fn new(titles: Vec<&'static str>) -> (tabs: TabsState)
        ensures
            tabs.titles == titles,
            tabs.index == 0,
            tabs@ == (TabsView { titles: titles.deep_view(), index: 0 }),
            tabs.wf(),
    {
        TabsState { titles, index: 0 }
    }

    /// Selects the title to the right of the current one; from the last title
    /// the selection wraps to the first. Without titles nothing changes.
    ///
    /// An index that a caller has put beyond the titles is taken around the
    /// bar like any other, so the step never fails.
    pub fn next(&mut self)
        ensures
            final(self).titles == old(self).titles,
            final(self)@ == old(self)@.next(),
            final(self).index == old(self).next_index(),
            old(self).index + 1 < old(self).titles.len()
                ==> final(self).index == old(self).index + 1,
            old(self).index + 1 == old(self).titles.len() ==> final(self).index == 0,
            old(self).wf() ==> final(self).wf(),
    {
        let n: usize = self.titles.len();
        if n > 0 {
            proof {
                lemma_reduced_step(self.index as int, n as int);
                if self.index + 1 < n {
                    lemma_small_mod((self.index + 1) as nat, n as nat);
                } else if self.index + 1 == n {
                    lemma_mod_self_0(n as int);
                }
            }
            self.index = (self.index % n + 1) % n;
        }
    }

    /// Selects the title to the left of the current one; from the first title
    /// the selection wraps to the last. Without titles nothing changes.
    pub fn previous(&mut self)
        ensures
            final(self).titles == old(self).titles,
            final(self)@ == old(self)@.previous(),
            final(self).index == old(self).previous_index(),
            old(self).titles.len() > 0 && old(self).index > 0
                ==> final(self).index == old(self).index - 1,
            old(self).titles.len() > 0 && old(self).index == 0
                ==> final(self).index == old(self).titles.len() - 1,
            old(self).wf() ==> final(self).wf(),
    {
        let n: usize = self.titles.len();
        if n > 0 {
            if self.index > 0 {
                self.index -= 1;
            } else {
                self.index = n - 1;
            }
        }
    }
}

/// Reducing an index before the step does not change where the step ends.
proof fn lemma_reduced_step(i: int, n: int)
    requires
        0 <= i,
        0 < n,
    ensures
        (i % n + 1) % n == (i + 1) % n,
        0 <= i % n < n,
{
    lemma_add_mod_noop_right(1, i, n);
    lemma_mod_pos_bound(i, n);
}

/// After `steps` steps to the right the selection has moved `steps` places,
/// counted around the bar.
proof fn lemma_next_n_index(t: TabsView, steps: nat)
    requires
        t.wf(),
        t.titles.len() > 0,
    ensures
        t.next_n(steps).titles == t.titles,
        t.next_n(steps).index == (t.index as int + steps as int) % (t.titles.len() as int),
    decreases steps,
{
    let n = t.titles.len() as int;
    let i = t.index as int;
    if steps == 0 {
        lemma_small_mod(t.index, t.titles.len());
    } else {
        lemma_mod_pos_bound(i + 1, n);
        lemma_next_n_index(t.next(), (steps - 1) as nat);
        lemma_add_mod_noop_right(steps - 1, i + 1, n);
    }
}

/// After `steps` steps to the left the selection has moved `steps` places
/// back, counted around the bar.
proof fn lemma_previous_n_index(t: TabsView, steps: nat)
    requires
        t.wf(),
        t.titles.len() > 0,
    ensures
        t.previous_n(steps).titles == t.titles,
        t.previous_n(steps).index == (t.index as int - steps as int) % (t.titles.len() as int),
    decreases steps,
{
    let n = t.titles.len() as int;
    let i = t.index as int;
    if steps == 0 {
        lemma_small_mod(t.index, t.titles.len());
    } else {
        let p = t.previous();
        assert(p.index == (i - 1) % n) by {
            if i > 0 {
                lemma_small_mod((i - 1) as nat, t.titles.len());
            } else {
                lemma_mod_sub_multiples_vanish(n - 1, n);
                lemma_small_mod((n - 1) as nat, t.titles.len());
            }
        }
        lemma_previous_n_index(p, (steps - 1) as nat);
        lemma_sub_mod_noop(i - 1, steps - 1, n);
        lemma_sub_mod_noop_right((i - 1) % n, steps - 1, n);
    }
}

/// Navigation to the right is cyclic: one step for every title brings a
/// well-formed bar back to the selection it started from.
pub proof fn lemma_next_cycle(t: TabsView)
    requires
        t.wf(),
    ensures
        t.next_n(t.titles.len()) == t,
{
    if t.titles.len() > 0 {
        lemma_next_n_index(t, t.titles.len());
        lemma_mod_add_multiples_vanish(t.index as int, t.titles.len() as int);
        lemma_small_mod(t.index, t.titles.len());
    }
}

/// Navigation to the left is cyclic: one step for every title brings a
/// well-formed bar back to the selection it started from.
pub proof fn lemma_previous_cycle(t: TabsView)
    requires
        t.wf(),
    ensures
        t.previous_n(t.titles.len()) == t,
{
    if t.titles.len() > 0 {
        lemma_previous_n_index(t, t.titles.len());
        lemma_mod_sub_multiples_vanish(t.index as int, t.titles.len() as int);
        lemma_small_mod(t.index, t.titles.len());
    }
}

/// A step to the left undoes a step to the right, and the other way round,
/// on a well-formed bar.
pub proof fn lemma_next_previous_inverse(t: TabsView)
    requires
        t.wf(),
    ensures
        t.next().previous() == t,
        t.previous().next() == t,
{
    if t.titles.len() > 0 {
        if t.index + 1 < t.titles.len() {
            lemma_small_mod((t.index + 1) as nat, t.titles.len());
        } else {
            lemma_mod_self_0(t.titles.len() as int);
        }
        if t.index > 0 {
            lemma_small_mod(t.index, t.titles.len());
        } else {
            lemma_mod_self_0(t.titles.len() as int);
        }
    }
}

} // verus!
