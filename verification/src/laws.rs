//! Theorems about the models that the contracts of the crate are stated in:
//! each holds of every input that its `requires` admits.

use vstd::prelude::*;
use vstd::arithmetic::div_mod::{
    lemma_add_mod_noop,
    lemma_fundamental_div_mod_converse,
    lemma_small_mod,
};
use crate::controller::{ControllerView, Input, Mode};
use crate::cursor::{
    at_most_one,
    indicator_of,
    redraw_ops,
    sync_ops,
    visible_after,
    DrawOp,
};
use crate::geometry::Point;
use crate::debounce::{event_at, level_after, samples_at, Event, Sample, SETTLE_MS};
use crate::menu::MenuView;

verus! {

/// A level that no poll confirms is never committed: as long as every poll
/// reads the confirmed level either at once or after the settle window, the
/// confirmed level stays what it was.
pub proof fn unconfirmed_edges_keep_level(stable: bool, polls: Seq<Sample>)
    requires
        forall|i: int|
            0 <= i < polls.len() ==> (#[trigger] polls[i]).pressed_now == stable
                || polls[i].settled == stable,
    ensures
        level_after(stable, polls) == stable,
    decreases polls.len(),
{
    if polls.len() > 0 {
        unconfirmed_edges_keep_level(stable, polls.drop_last());
    }
}

/// Bounce rejection: toggles that are gone again by the end of the settle
/// window never produce an event. As long as every poll reads the confirmed
/// level either at once or after the settle window, every poll reports
/// `Nothing`.
pub proof fn bounce_is_rejected(stable: bool, polls: Seq<Sample>)
    requires
        forall|i: int|
            0 <= i < polls.len() ==> (#[trigger] polls[i]).pressed_now == stable
                || polls[i].settled == stable,
    ensures
        level_after(stable, polls) == stable,
        forall|i: int| 0 <= i < polls.len() ==> #[trigger] event_at(stable, polls, i) == Event::Nothing,
{
    unconfirmed_edges_keep_level(stable, polls);
    assert forall|i: int| 0 <= i < polls.len() implies #[trigger] event_at(stable, polls, i)
        == Event::Nothing by {
        unconfirmed_edges_keep_level(stable, polls.take(i));
    }
}

/// A glitch no longer than the settle window goes unnoticed. If the line
/// leaves the confirmed level only between `from_ms` and `until_ms`, and
/// that stretch is no longer than the settle window, then polls at any
/// times whatever report `Nothing` and leave the confirmed level alone.
pub proof fn short_glitch_is_rejected(
    stable: bool,
    signal: spec_fn(int) -> bool,
    from_ms: int,
    until_ms: int,
    times_ms: Seq<int>,
)
    requires
        until_ms - from_ms <= SETTLE_MS,
        forall|t: int| !(from_ms <= t < until_ms) ==> #[trigger] signal(t) == stable,
    ensures
        level_after(stable, samples_at(signal, times_ms)) == stable,
        forall|i: int|
            0 <= i < times_ms.len() ==> #[trigger] event_at(
                stable,
                samples_at(signal, times_ms),
                i,
            ) == Event::Nothing,
{
    let polls = samples_at(signal, times_ms);
    assert forall|i: int| 0 <= i < polls.len() implies (#[trigger] polls[i]).pressed_now == stable
        || polls[i].settled == stable by {
        let t: int = times_ms[i];
        if signal(t) != stable {
            assert(from_ms <= t < until_ms);
            assert(!(from_ms <= t + SETTLE_MS < until_ms));
        }
    }
    bounce_is_rejected(stable, polls);
}

/// Once the line has gone over to the other level for good, the first poll
/// commits that level.
pub proof fn held_line_is_committed(stable: bool, polls: Seq<Sample>)
    requires
        polls.len() >= 1,
        forall|i: int|
            0 <= i < polls.len() ==> (#[trigger] polls[i]).pressed_now != stable
                && polls[i].settled != stable,
    ensures
        level_after(stable, polls) == !stable,
    decreases polls.len(),
{
    if polls.len() > 1 {
        held_line_is_committed(stable, polls.drop_last());
    } else {
        assert(polls.drop_last().len() == 0);
    }
}

/// One edge, one event: when the line has gone over to the other level and
/// stays there, the first poll reports the edge, `Pressed` for a switch
/// that was at rest and `Released` for one that was held, and every later
/// poll reports `Nothing`.
pub proof fn held_line_reports_once(stable: bool, polls: Seq<Sample>)
    requires
        polls.len() >= 1,
        forall|i: int|
            0 <= i < polls.len() ==> (#[trigger] polls[i]).pressed_now != stable
                && polls[i].settled != stable,
    ensures
        level_after(stable, polls) == !stable,
        event_at(stable, polls, 0) == (if stable {
            Event::Released
        } else {
            Event::Pressed
        }),
        forall|i: int| 1 <= i < polls.len() ==> #[trigger] event_at(stable, polls, i) == Event::Nothing,
{
    held_line_is_committed(stable, polls);
    assert(polls.take(0).len() == 0);
    assert forall|i: int| 1 <= i < polls.len() implies #[trigger] event_at(stable, polls, i)
        == Event::Nothing by {
        held_line_is_committed(stable, polls.take(i));
    }
}

/// After `k` moves down the selection stands `k` places further in the
/// cycle; nothing else changes.
pub proof fn advanced_selection(menu: MenuView, k: nat)
    requires
        menu.wf(),
    ensures
        menu.advanced(k).wf(),
        menu.advanced(k).items == menu.items,
        menu.advanced(k).previous == menu.previous,
        menu.advanced(k).current == (menu.current + k) % (menu.items.len() as int),
    decreases k,
{
    let n: int = menu.items.len() as int;
    if k == 0 {
        lemma_small_mod(menu.current as nat, n as nat);
    } else {
        advanced_selection(menu, (k - 1) as nat);
        lemma_add_mod_noop(menu.current + k - 1, 1, n);
        if n > 1 {
            lemma_small_mod(1, n as nat);
        }
    }
}

/// Wraparound: moving down once for every item brings the selection back
/// to where it started, and no smaller positive number of moves does.
pub proof fn next_returns_after_all_items(menu: MenuView)
    requires
        menu.wf(),
    ensures
        menu.advanced(menu.items.len()) == menu,
        forall|k: nat|
            0 < k < menu.items.len() ==> (#[trigger] menu.advanced(k)).current != menu.current,
{
    let n: int = menu.items.len() as int;
    advanced_selection(menu, menu.items.len());
    lemma_fundamental_div_mod_converse(menu.current + n, n, 1, menu.current);
    assert forall|k: nat| 0 < k < menu.items.len() implies (#[trigger] menu.advanced(k)).current
        != menu.current by {
        advanced_selection(menu, k);
        if menu.current + k < n {
            lemma_small_mod((menu.current + k) as nat, n as nat);
        } else {
            lemma_fundamental_div_mod_converse(menu.current + k, n, 1, menu.current + k - n);
        }
    }
}

/// Moving up is the exact inverse of moving down, and the other way round.
pub proof fn previous_undoes_next(menu: MenuView)
    requires
        menu.wf(),
    ensures
        menu.moved_next().wf(),
        menu.moved_previous().wf(),
        menu.moved_next().moved_previous() == menu,
        menu.moved_previous().moved_next() == menu,
{
    let n: int = menu.items.len() as int;
    let c: int = menu.current;
    if c + 1 == n {
        lemma_fundamental_div_mod_converse(c + 1, n, 1, 0);
        lemma_small_mod((n - 1) as nat, n as nat);
    } else {
        lemma_small_mod((c + 1) as nat, n as nat);
        lemma_fundamental_div_mod_converse(c + n, n, 1, c);
    }
    if c == 0 {
        lemma_small_mod((n - 1) as nat, n as nat);
        lemma_fundamental_div_mod_converse(n, n, 1, 0);
    } else {
        lemma_fundamental_div_mod_converse(c - 1 + n, n, 1, c - 1);
        lemma_small_mod(c as nat, n as nat);
    }
}

/// After a differential update the drawn item is the selected item, and a
/// second update right after it issues nothing and changes nothing.
pub proof fn sync_is_idempotent(menu: MenuView)
    requires
        menu.wf(),
    ensures
        menu.synced().wf(),
        menu.synced().previous == menu.synced().current,
        menu.synced().current == menu.current,
        sync_ops(menu.synced()) == Seq::<DrawOp>::empty(),
        menu.synced().synced() == menu.synced(),
{
}

/// A differential update never shows two indicators. Starting from a
/// surface that shows the indicator of the drawn item and no other, the
/// surface shows at most one indicator after every single operation of the
/// update, and in the end exactly the indicator of the selected item.
pub proof fn sync_shows_one_indicator(menu: MenuView)
    requires
        menu.wf(),
    ensures
        visible_after(set![indicator_of(menu, menu.previous)], sync_ops(menu))
            == set![indicator_of(menu, menu.current)],
        forall|k: int|
            0 <= k <= sync_ops(menu).len() ==> at_most_one(
                #[trigger] visible_after(
                    set![indicator_of(menu, menu.previous)],
                    sync_ops(menu).take(k),
                ),
            ),
{
    let ops = sync_ops(menu);
    let before = set![indicator_of(menu, menu.previous)];
    let after = set![indicator_of(menu, menu.current)];
    reveal_with_fuel(visible_after, 3);
    assert(ops.take(0) =~= Seq::<DrawOp>::empty());
    assert(ops.take(ops.len() as int) =~= ops);
    if menu.current != menu.previous {
        assert(ops.drop_last() =~= seq![ops[0]]);
        assert(ops.take(1) =~= seq![ops[0]]);
        assert(visible_after(before, seq![ops[0]]) =~= Set::<Point>::empty());
        assert(visible_after(before, ops) =~= after);
    }
    assert forall|k: int| 0 <= k <= ops.len() implies at_most_one(
        #[trigger] visible_after(before, ops.take(k)),
    ) by {
        assert(k == 0 || k == 1 || k == 2);
    }
}

/// While the labels of a full repaint are drawn the surface shows no
/// indicator, whatever it showed before the repaint.
pub proof fn repaint_starts_without_indicator(menu: MenuView, visible: Set<Point>, k: int)
    requires
        menu.wf(),
        1 <= k < redraw_ops(menu).len(),
    ensures
        visible_after(visible, redraw_ops(menu).take(k)) == Set::<Point>::empty(),
    decreases k,
{
    let ops = redraw_ops(menu);
    assert(ops.take(k).drop_last() =~= ops.take(k - 1));
    assert(ops.take(k).last() == ops[k - 1]);
    if k > 1 {
        repaint_starts_without_indicator(menu, visible, k - 1);
    }
}

/// A full repaint never shows two indicators. Whatever the surface showed
/// before, it shows at most one indicator after every single operation of
/// the repaint, and in the end exactly the indicator of the selected item.
pub proof fn redraw_shows_one_indicator(menu: MenuView, visible: Set<Point>)
    requires
        menu.wf(),
    ensures
        visible_after(visible, redraw_ops(menu)) == set![indicator_of(menu, menu.current)],
        forall|k: int|
            1 <= k <= redraw_ops(menu).len() ==> at_most_one(
                #[trigger] visible_after(visible, redraw_ops(menu).take(k)),
            ),
{
    let ops = redraw_ops(menu);
    let n: int = ops.len() as int;
    assert(ops.take(n) =~= ops);
    assert(ops.drop_last() =~= ops.take(n - 1));
    repaint_starts_without_indicator(menu, visible, n - 1);
    assert(visible_after(visible, ops) =~= set![indicator_of(menu, menu.current)]);
    assert forall|k: int| 1 <= k <= n implies at_most_one(
        #[trigger] visible_after(visible, ops.take(k)),
    ) by {
        if k < n {
            repaint_starts_without_indicator(menu, visible, k);
        }
    }
}

/// Whatever the event, a step keeps both indices inside the menu and the
/// surface up to date, and it never touches the items.
pub proof fn step_keeps_invariant(state: ControllerView, input: Input, event: Event)
    requires
        state.wf(),
    ensures
        state.step(input, event).wf(),
        state.step(input, event).menu.items == state.menu.items,
{
    previous_undoes_next(state.menu);
}

/// The indicator follows the selection through every step. If the surface
/// shows exactly the indicator of the selected item whenever the menu is on
/// screen, then the same holds after the operations of any step have been
/// carried out; inside a scene nothing is asked of the surface.
pub proof fn step_keeps_indicator_at_selection(
    state: ControllerView,
    input: Input,
    event: Event,
    visible: Set<Point>,
)
    requires
        state.wf(),
        state.mode is Navigating ==> visible == set![
            indicator_of(state.menu, state.menu.current),
        ],
    ensures
        state.step(input, event).mode is Navigating ==> visible_after(
            visible,
            state.step_ops(input, event),
        ) == set![
            indicator_of(state.step(input, event).menu, state.step(input, event).menu.current),
        ],
{
    previous_undoes_next(state.menu);
    match (state.mode, input, event) {
        (Mode::Navigating, Input::Up, Event::Pressed) => {
            sync_shows_one_indicator(state.menu.moved_previous());
        },
        (Mode::Navigating, Input::Down, Event::Pressed) => {
            sync_shows_one_indicator(state.menu.moved_next());
        },
        (Mode::Navigating, Input::Confirm, Event::Pressed) => {},
        (Mode::InScene(_), Input::Confirm, Event::Pressed) => {
            redraw_shows_one_indicator(state.menu.first_selected(), visible);
        },
        _ => {},
    }
}

/// Inside a scene everything but a press of confirm is ignored.
pub proof fn scene_ignores_other_events(state: ControllerView, input: Input, event: Event)
    requires
        state.wf(),
        state.mode is InScene,
        !(input is Confirm && event is Pressed),
    ensures
        state.step(input, event) == state,
        state.step_ops(input, event) == Seq::<DrawOp>::empty(),
        state.step_scene(input, event) is None,
{
}

/// Entering a scene and leaving it again: the first press of confirm enters
/// the scene of the selected item and leaves the menu as it is; the second
/// one issues a full repaint and ends in the menu with the first item both
/// selected and drawn.
pub proof fn scene_round_trip(state: ControllerView)
    requires
        state.wf(),
        state.mode is Navigating,
    ensures
        ({
            let inside = state.step(Input::Confirm, Event::Pressed);
            let back = inside.step(Input::Confirm, Event::Pressed);
            &&& inside.wf()
            &&& inside.mode == Mode::InScene(state.menu.items[state.menu.current].id)
            &&& inside.menu == state.menu
            &&& state.step_scene(Input::Confirm, Event::Pressed) == Some(
                state.menu.items[state.menu.current].id,
            )
            &&& back.wf()
            &&& back.mode is Navigating
            &&& back.menu.items == state.menu.items
            &&& back.menu.current == 0
            &&& back.menu.previous == 0
            &&& inside.step_ops(Input::Confirm, Event::Pressed) == redraw_ops(back.menu)
        }),
{
}

} // verus!
