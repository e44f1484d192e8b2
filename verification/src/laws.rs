//! What holds of the renderer's state over several events.

use vstd::prelude::*;

use crate::color::{sampled_at, Coordinate};
use crate::event::{ElementState, InputEvent, Key};
use crate::state::{lemma_variants_differ, primary_variant, selected_variant, StateView};
use crate::surface::Size;

verus! {

/// The state after the events `events`, taken in order.
pub open spec fn after_all(state: StateView, events: Seq<InputEvent>) -> StateView
    decreases events.len(),
{
    if events.len() == 0 {
        state
    } else {
        after_all(state, events.drop_last()).after(events.last())
    }
}

/// The event of the space bar going down or coming up.
pub open spec fn space_bar(change: ElementState) -> InputEvent {
    InputEvent::KeyboardInput { state: change, key: Key::Space }
}

/// The change of the space bar that switches the active variant of
/// `state`: letting it go while the primary variant is active, pressing it
/// otherwise.
pub open spec fn switching_change(state: StateView) -> ElementState {
    if state.active_variant == primary_variant() {
        ElementState::Released
    } else {
        ElementState::Pressed
    }
}

/// The state after one toggle: the change of the space bar that switches
/// the active variant.
pub open spec fn toggled(state: StateView) -> StateView {
    state.after(space_bar(switching_change(state)))
}

/// The state after `count` toggles in a row.
pub open spec fn toggled_times(state: StateView, count: nat) -> StateView
    decreases count,
{
    if count == 0 {
        state
    } else {
        toggled(toggled_times(state, (count - 1) as nat))
    }
}

/// No event leads out of the well-formed states, and no change of size
/// does.
pub proof fn lemma_wf_is_kept(state: StateView, event: InputEvent, size: Size)
    requires
        state.wf(),
    ensures
        state.after(event).wf(),
        state.resized(size).wf(),
{
}

/// A colour is sampled once for each press. Where the pointer flag is set,
/// a move to (`x`, `y`) makes the clear colour the one sampled there on the
/// surface as it is configured, clears the flag and calls for a frame; the
/// next move, with no press in between, changes nothing and calls for none.
pub proof fn lemma_one_sample_for_each_press(
    state: StateView,
    x: Coordinate,
    y: Coordinate,
    next_x: Coordinate,
    next_y: Coordinate,
)
    requires
        state.pointer_down,
    ensures
        ({
            let first = InputEvent::CursorMoved { x, y };
            let second = InputEvent::CursorMoved { x: next_x, y: next_y };
            let sampled = state.after(first);
            &&& state.repaints(first)
            &&& sampled.clear_color == sampled_at(x, y, state.config.width, state.config.height)
            &&& !sampled.pointer_down
            &&& sampled.after(second) == sampled
            &&& !sampled.repaints(second)
        }),
{
}

/// A toggle switches the active variant, and with it the entry points that
/// the pipeline binds; everything else stays.
pub proof fn lemma_toggle_switches(state: StateView)
    requires
        state.wf(),
    ensures
        toggled(state).wf(),
        toggled(state).active_variant != state.active_variant,
        toggled(state).config == state.config,
        toggled(state).clear_color == state.clear_color,
        toggled(state).pointer_down == state.pointer_down,
{
    lemma_variants_differ();
}

/// Two toggles in a row give back the state.
pub proof fn lemma_two_toggles_restore(state: StateView)
    requires
        state.wf(),
    ensures
        toggled(toggled(state)) == state,
{
    lemma_variants_differ();
}

/// An even number of toggles in a row gives back the state: the active
/// variant is the one that was active before, and the pipeline is the one
/// from before, with the same entry points.
pub proof fn lemma_even_toggles_restore(state: StateView, count: nat)
    requires
        state.wf(),
        count % 2 == 0,
    ensures
        toggled_times(state, count) == state,
        toggled_times(state, count).active_variant == state.active_variant,
        toggled_times(state, count).active_pipeline == state.active_pipeline,
    decreases count,
{
    if count >= 2 {
        let before = toggled_times(state, (count - 2) as nat);
        lemma_even_toggles_restore(state, (count - 2) as nat);
        assert(toggled_times(state, (count - 1) as nat) == toggled(before));
        assert(toggled_times(state, count) == toggled(toggled(before)));
        lemma_two_toggles_restore(before);
    }
}

/// After any changes of the space bar, the last one alone decides which
/// variant is active: the primary one if the space bar went down, the
/// alternate one if it came up. Nothing else has changed.
pub proof fn lemma_last_change_decides(state: StateView, changes: Seq<ElementState>)
    requires
        changes.len() > 0,
    ensures
        after_all(state, changes.map_values(|change: ElementState| space_bar(change)))
            == state.with_variant(selected_variant(changes.last())),
    decreases changes.len(),
{
    let events = changes.map_values(|change: ElementState| space_bar(change));
    let earlier = changes.drop_last();
    assert(events.last() == space_bar(changes.last()));
    assert(events.drop_last() == earlier.map_values(|change: ElementState| space_bar(change)));
    if earlier.len() > 0 {
        lemma_last_change_decides(state, earlier);
    } else {
        assert(after_all(state, events.drop_last()) == state);
    }
}

} // verus!
