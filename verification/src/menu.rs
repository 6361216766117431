//! The cyclic menu: an ordered, non-empty list of items with the item that
//! is selected now and the item whose indicator is on screen.

use vstd::prelude::*;
use vstd::arithmetic::div_mod::{lemma_mod_add_multiples_vanish, lemma_mod_self_0, lemma_small_mod};
use crate::geometry::Point;

verus! {

/// One selectable entry: its identifier and the origin of its label.
#[derive(Clone, Copy, Debug, PartialEq, Eq, Structural)]
pub struct MenuItem {
    pub id: u8,
    pub anchor: Point,
}

/// Index that follows `i` in a cycle of `n` items.
pub open spec fn next_index(i: int, n: int) -> int {
    (i + 1) % n
}

/// Index that precedes `i` in a cycle of `n` items.
pub open spec fn previous_index(i: int, n: int) -> int {
    (i - 1 + n) % n
}

/// True when `items` can make up a menu: there is at least one item and the
/// indicator of every item fits the coordinate type.
pub open spec fn valid_items(items: Seq<MenuItem>) -> bool {
    &&& items.len() >= 1
    &&& forall|i: int| 0 <= i < items.len() ==> (#[trigger] items[i]).anchor.indicator_fits()
}

/// Mathematical model of a menu.
pub struct MenuView {
    /// The items in display order.
    pub items: Seq<MenuItem>,
    /// Index of the selected item.
    pub current: int,
    /// Index of the item whose indicator is drawn on the surface.
    pub previous: int,
}

impl MenuView {
    /// Both indices point into a valid list of items.
    pub open spec fn wf(self) -> bool {
        &&& valid_items(self.items)
        &&& 0 <= self.current < self.items.len()
        &&& 0 <= self.previous < self.items.len()
    }

    /// The menu as it is first shown: the first item selected and drawn.
    pub open spec fn initial(items: Seq<MenuItem>) -> MenuView {
        MenuView { items, current: 0, previous: 0 }
    }

    /// The selection moved one item down, wrapping after the last.
    pub open spec fn moved_next(self) -> MenuView {
        MenuView { current: next_index(self.current, self.items.len() as int), ..self }
    }

    /// The selection moved one item up, wrapping before the first.
    pub open spec fn moved_previous(self) -> MenuView {
        MenuView { current: previous_index(self.current, self.items.len() as int), ..self }
    }

    /// The first item selected; what is on screen is untouched.
    pub open spec fn first_selected(self) -> MenuView {
        MenuView { current: 0, ..self }
    }

    /// The surface brought up to date with the selection.
    pub open spec fn synced(self) -> MenuView {
        MenuView { previous: self.current, ..self }
    }

    /// The selection after `k` moves down.
    pub open spec fn advanced(self, k: nat) -> MenuView
        decreases k,
    {
        if k == 0 {
            self
        } else {
            self.advanced((k - 1) as nat).moved_next()
        }
    }
}

/// A menu of at least one item with a cyclic selection.
pub struct MenuModel {
    items: Vec<MenuItem>,
    current: usize,
    previous: usize,
}

impl View for MenuModel {
    type V = MenuView;

    closed spec fn view(&self) -> MenuView {
        MenuView {
            items: self.items@,
            current: self.current as int,
            previous: self.previous as int,
        }
    }
}

impl MenuModel {
    /// The invariant of the type: see [`MenuView::wf`].
    pub open spec fn wf(&self) -> bool {
        self@.wf()
    }

    /// Builds a menu with the first item selected. Fails when `items` is
    /// empty or when the indicator of some item would leave the coordinate
    /// range.
    pub fn new(items: Vec<MenuItem>) -> (menu: Option<MenuModel>)
        ensures
            menu is Some <==> valid_items(items@),
            menu matches Some(m) ==> m.wf() && m@ == MenuView::initial(items@),
    {
        if items.len() == 0 {
            return None;
        }
        let mut i: usize = 0;
        while i < items.len()
            invariant
                i <= items.len(),
                forall|j: int| 0 <= j < i ==> (#[trigger] items@[j]).anchor.indicator_fits(),
            decreases items.len() - i,
        {
            if !items[i].anchor.can_hold_indicator() {
                return None;
            }
            i += 1;
        }
        Some(MenuModel { items, current: 0, previous: 0 })
    }

    /// Number of items.
    pub fn len(&self) -> (n: usize)
        ensures
            n == self@.items.len(),
    {
        self.items.len()
    }

    /// The item at `index`.
    pub fn item(&self, index: usize) -> (item: MenuItem)
        requires
            index < self@.items.len(),
        ensures
            item == self@.items[index as int],
    {
        self.items[index]
    }

    /// Index of the selected item.
    pub fn current_index(&self) -> (index: usize)
        ensures
            index == self@.current,
    {
        self.current
    }

    /// Index of the item whose indicator is on the surface.
    pub fn previous_index(&self) -> (index: usize)
        ensures
            index == self@.previous,
    {
        self.previous
    }

    /// Selects the item below the current one; from the last item the
    /// selection wraps to the first. What is recorded as drawn does not
    /// change. Returns whether the selection changed, which it does unless
    /// the menu has a single item.
    pub fn move_next(&mut self) -> (moved: bool)
        requires
            old(self).wf(),
        ensures
            final(self).wf(),
            final(self)@ == old(self)@.moved_next(),
            moved == (old(self)@.items.len() > 1),
            moved == (final(self)@.current != old(self)@.current),
    {
        let n: usize = self.items.len();
        proof {
            if self.current + 1 == n {
                lemma_mod_self_0(n as int);
            } else {
                lemma_small_mod((self.current + 1) as nat, n as nat);
            }
        }
        if self.current + 1 == n {
            self.current = 0;
        } else {
            self.current = self.current + 1;
        }
        n > 1
    }

    /// Selects the item above the current one; from the first item the
    /// selection wraps to the last. What is recorded as drawn does not
    /// change. Returns whether the selection changed, which it does unless
    /// the menu has a single item.
    pub fn move_previous(&mut self) -> (moved: bool)
        requires
            old(self).wf(),
        ensures
            final(self).wf(),
            final(self)@ == old(self)@.moved_previous(),
            moved == (old(self)@.items.len() > 1),
            moved == (final(self)@.current != old(self)@.current),
    {
        let n: usize = self.items.len();
        proof {
            if self.current == 0 {
                lemma_small_mod((n - 1) as nat, n as nat);
            } else {
                lemma_mod_add_multiples_vanish(self.current - 1, n as int);
                lemma_small_mod((self.current - 1) as nat, n as nat);
            }
        }
        if self.current == 0 {
            self.current = n - 1;
        } else {
            self.current = self.current - 1;
        }
        n > 1
    }

    /// Selects the first item. What is recorded as drawn does not change.
    pub fn select_first(&mut self)
        requires
            old(self).wf(),
        ensures
            final(self).wf(),
            final(self)@ == old(self)@.first_selected(),
    {
        self.current = 0;
    }

    /// Records that the indicator on the surface now stands at the selected
    /// item. Only the renderer calls this, once it has issued the drawing
    /// operations that make it true.
    pub(crate) fn mark_drawn(&mut self)
        requires
            old(self).wf(),
        ensures
            final(self).wf(),
            final(self)@ == old(self)@.synced(),
    {
        self.previous = self.current;
    }
}

} // verus!
