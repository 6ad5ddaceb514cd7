//! Double-buffered input state machine. For every key two table entries are
//! kept: `current`, the state for the frame being played, and `before`, the
//! state one frame earlier. Raw hardware events land in `current` (the value
//! they displace moves to `before`); once per rendered frame the two buffers
//! are reconciled by [`clean_up`], which turns the one-frame press and
//! release pulses into steady state.

use vstd::prelude::*;

use crate::keyboard::Action;
use crate::keyboard::Button;
use crate::keyboard::Key;
use crate::keyboard::Modifier;
use crate::keyboard::neutral_button;
use crate::keyboard::KEY_COUNT;

verus! {

/// Mathematical model of the input machine: one per-key table for the frame
/// being played and one for the frame before it.
#[verifier::ext_equal]
pub struct InputView {
    pub current: Seq<Button>,
    pub before: Seq<Button>,
}

impl InputView {
    /// Both tables hold exactly one entry per key.
    pub open spec fn wf(self) -> bool {
        self.current.len() == KEY_COUNT && self.before.len() == KEY_COUNT
    }

    /// The state the machine starts in: every entry of both tables neutral.
    pub open spec fn start() -> InputView {
        InputView {
            current: Seq::new(KEY_COUNT as nat, |i: int| neutral_button()),
            before: Seq::new(KEY_COUNT as nat, |i: int| neutral_button()),
        }
    }
}

/// Effect of one raw hardware event on the model: the new entry lands in
/// `current` for that key and the entry it displaces moves to `before`.
pub open spec fn update_view(v: InputView, key: Key, button: Button) -> InputView {
    InputView {
        current: v.current.update(key.index_spec(), button),
        before: v.before.update(key.index_spec(), v.current[key.index_spec()]),
    }
}

/// Effect of a whole batch of raw events on the model, applied in order.
pub open spec fn apply_events(v: InputView, events: Seq<(Key, Button)>) -> InputView
    decreases events.len(),
{
    if events.len() == 0 {
        v
    } else {
        update_view(apply_events(v, events.drop_last()), events.last().0, events.last().1)
    }
}

/// Per-entry effect of a frame advance on the `current` table: a press edge
/// settles into a repeat; everything else is left alone.
pub open spec fn advanced_current(c: Button) -> Button {
    if c.action == Action::Press {
        Button { action: Action::Repeat, ..c }
    } else {
        c
    }
}

/// Per-entry effect of a frame advance on the `before` table: it catches up
/// with the press or release edge seen in `current`, so the edge is visible
/// for exactly one frame.
pub open spec fn advanced_before(c: Button, b: Button) -> Button {
    if c.action == Action::Press {
        Button { action: Action::Press, ..b }
    } else if c.action == Action::Release {
        Button { action: Action::Release, ..b }
    } else {
        b
    }
}

/// Effect of a frame advance on the whole model, entry by entry.
pub open spec fn advance_view(v: InputView) -> InputView {
    InputView {
        current: Seq::new(v.current.len(), |i: int| advanced_current(v.current[i])),
        before: Seq::new(v.before.len(), |i: int| advanced_before(v.current[i], v.before[i])),
    }
}

/// Level query: the key is down, freshly pressed or auto-repeating.
pub open spec fn spec_key_hold(v: InputView, key: Key) -> bool {
    let a = v.current[key.index_spec()].action;
    a == Action::Press || a == Action::Repeat
}

/// Edge query: a press edge this frame over a released previous frame.
pub open spec fn spec_key_pressed(v: InputView, key: Key) -> bool {
    let c = v.current[key.index_spec()].action;
    let b = v.before[key.index_spec()].action;
    c == Action::Press && b == Action::Release
}

/// Edge query: a release edge this frame over a held previous frame.
pub open spec fn spec_key_released(v: InputView, key: Key) -> bool {
    let c = v.current[key.index_spec()].action;
    let b = v.before[key.index_spec()].action;
    c == Action::Release && (b == Action::Press || b == Action::Repeat)
}

/// The double-buffered per-key state tables.
#[derive(Debug)]
pub struct Input {
    current: Vec<Button>,
    before: Vec<Button>,
}

impl View for Input {
    type V = InputView;

    closed spec fn view(&self) -> InputView {
        InputView { current: self.current@, before: self.before@ }
    }
}

/// One table with a neutral entry for every key.
fn neutral_table() -> (r: Vec<Button>)
    ensures
        r@ == Seq::new(KEY_COUNT as nat, |i: int| neutral_button()),
{
    let mut table: Vec<Button> = Vec::new();
    let mut i: usize = 0;
    while i < KEY_COUNT
        invariant
            i <= KEY_COUNT,
            table@.len() == i,
            forall|j: int| 0 <= j < i ==> table@[j] == neutral_button(),
        decreases KEY_COUNT - i,
    {
        table.push(Button::new(Key::Unknown, Action::Release, Modifier::Unknown));
        i = i + 1;
    }
    proof {
        assert(table@ =~= Seq::new(KEY_COUNT as nat, |j: int| neutral_button()));
    }
    table
}

impl Input {
    /// Every key starts neutral in both buffers.
    pub fn new() -> (r: Self)
        ensures
            r@ == InputView::start(),
    {
        let r = Input { current: neutral_table(), before: neutral_table() };
        proof {
            assert(r@ =~= InputView::start());
        }
        r
    }

    /// Whether both tables hold one entry per key — always true of a machine
    /// built by [`Input::new`], and checked at runtime where one comes back
    /// from code outside this crate.
    pub fn is_well_formed(&self) -> (r: bool)
        ensures
            r == self@.wf(),
    {
        self.current.len() == KEY_COUNT && self.before.len() == KEY_COUNT
    }

    /// Whether the key is down this frame (pressed or auto-repeating).
    pub fn is_key_hold(&self, key: Key) -> (r: bool)
        requires
            self@.wf(),
        ensures
            r == spec_key_hold(self@, key),
    {
        let i = key.index();
        self.current[i].action == Action::Press || self.current[i].action == Action::Repeat
    }

    /// Whether a press edge landed on the key this frame; true for exactly
    /// one frame per raw press.
    pub fn is_key_pressed(&self, key: Key) -> (r: bool)
        requires
            self@.wf(),
        ensures
            r == spec_key_pressed(self@, key),
    {
        let i = key.index();
        let current = self.current[i].action == Action::Press;
        let before = self.before[i].action == Action::Release;

        current && before
    }

    /// Whether a release edge landed on the key this frame; true for exactly
    /// one frame per raw release.
    pub fn is_key_released(&self, key: Key) -> (r: bool)
        requires
            self@.wf(),
        ensures
            r == spec_key_released(self@, key),
    {
        let i = key.index();
        let current = self.current[i].action == Action::Release;
        let before = self.before[i].action == Action::Press
            || self.before[i].action == Action::Repeat;

        current && before
    }
}

impl Default for Input {
    /// Same state as [`Input::new`].
    fn default() -> (r: Self)
        ensures
            r@ == InputView::start(),
    {
        Self::new()
    }
}

/// Records one raw hardware event: `button` becomes the key's current entry
/// and the displaced entry becomes the key's previous-frame entry.
pub fn update(input: &mut Input, key: Key, button: Button)
    requires
        old(input)@.wf(),
    ensures
        final(input)@.wf(),
        final(input)@ == update_view(old(input)@, key, button),
{
    let i = key.index();
    let prev = input.current[i];
    input.before[i] = prev;
    input.current[i] = button;
}

/// Advances the machine by one frame: press edges settle into repeats and
/// the previous-frame table catches up with every press or release edge, so
/// each edge is observable for exactly one frame.
pub fn clean_up(input: &mut Input)
    requires
        old(input)@.wf(),
    ensures
        final(input)@.wf(),
        final(input)@ == advance_view(old(input)@),
{
    let mut i: usize = 0;
    while i < KEY_COUNT
        invariant
            i <= KEY_COUNT,
            input@.current.len() == KEY_COUNT,
            input@.before.len() == KEY_COUNT,
            old(input)@.wf(),
            forall|j: int| 0 <= j < i ==> input@.current[j] == advanced_current(
                old(input)@.current[j],
            ),
            forall|j: int| 0 <= j < i ==> input@.before[j] == advanced_before(
                old(input)@.current[j],
                old(input)@.before[j],
            ),
            forall|j: int| i <= j < KEY_COUNT ==> input@.current[j] == old(input)@.current[j],
            forall|j: int| i <= j < KEY_COUNT ==> input@.before[j] == old(input)@.before[j],
        decreases KEY_COUNT - i,
    {
        let c = input.current[i];
        if c.action == Action::Press {
            let mut updated = c;
            updated.action = Action::Repeat;
            input.current[i] = updated;

            let mut prev = input.before[i];
            prev.action = Action::Press;
            input.before[i] = prev;
        } else if c.action == Action::Release {
            let mut prev = input.before[i];
            prev.action = Action::Release;
            input.before[i] = prev;
        }
        i = i + 1;
    }
    proof {
        assert(input@.current =~= advance_view(old(input)@).current);
        assert(input@.before =~= advance_view(old(input)@).before);
        assert(input@ =~= advance_view(old(input)@));
    }
}

/// Every key indexes inside the per-key tables.
pub proof fn lemma_key_index_bounds(key: Key)
    ensures
        0 <= key.index_spec() < KEY_COUNT as int,
{
}

/// Distinct keys use distinct table entries.
pub proof fn lemma_key_index_injective(a: Key, b: Key)
    requires
        a.index_spec() == b.index_spec(),
    ensures
        a == b,
{
}

/// A key reads as held exactly when the raw event most recently recorded for
/// it was a press or a repeat: the query tracks the event that just landed...
pub proof fn lemma_hold_after_update(v: InputView, key: Key, button: Button)
    requires
        v.wf(),
    ensures
        spec_key_hold(update_view(v, key, button), key) == (button.action == Action::Press
            || button.action == Action::Repeat),
{
    lemma_key_index_bounds(key);
}

/// ...and a frame advance never changes what the level query reports, so the
/// report stands until the next raw event for the key.
pub proof fn lemma_advance_preserves_hold(v: InputView, key: Key)
    requires
        v.wf(),
    ensures
        spec_key_hold(advance_view(v), key) == spec_key_hold(v, key),
{
    lemma_key_index_bounds(key);
}

/// A frame advance always consumes the one-frame pulses: directly after an
/// advance no key reads as just-pressed or just-released, whatever came
/// before, until a new raw event lands.
pub proof fn lemma_advance_clears_pulses(v: InputView, key: Key)
    requires
        v.wf(),
    ensures
        !spec_key_pressed(advance_view(v), key),
        !spec_key_released(advance_view(v), key),
{
    lemma_key_index_bounds(key);
}

/// A raw event that is not a press edge never makes a key read as
/// just-pressed, so the pulse can only return with the next raw press.
pub proof fn lemma_no_press_no_pulse(v: InputView, key: Key, button: Button)
    requires
        v.wf(),
        button.action != Action::Press,
    ensures
        !spec_key_pressed(update_view(v, key, button), key),
{
    lemma_key_index_bounds(key);
}

/// The press pulse: a raw press landing on a key that was not held makes the
/// key read as just-pressed for the frame of the event; the frame advance
/// that follows consumes the pulse, after which the key reads as held but no
/// longer as just-pressed.
pub proof fn lemma_press_pulse(v: InputView, key: Key, button: Button)
    requires
        v.wf(),
        button.action == Action::Press,
        !spec_key_hold(v, key),
    ensures
        spec_key_pressed(update_view(v, key, button), key),
        spec_key_hold(update_view(v, key, button), key),
        !spec_key_pressed(advance_view(update_view(v, key, button)), key),
        spec_key_hold(advance_view(update_view(v, key, button)), key),
{
    lemma_key_index_bounds(key);
}

/// A just-pressed reading can only come from a fresh press edge: if a key
/// reads as just-pressed after a raw event, either that event was a press of
/// this very key, or the key already read as just-pressed. With the advance
/// lemma this pins the pulse down: once a frame advance clears it, it stays
/// cleared until the next raw press of the key.
pub proof fn lemma_pressed_needs_press(v: InputView, key: Key, button: Button, queried: Key)
    requires
        v.wf(),
    ensures
        spec_key_pressed(update_view(v, key, button), queried) ==> ((key == queried
            && button.action == Action::Press) || spec_key_pressed(v, queried)),
{
    lemma_key_index_bounds(key);
    lemma_key_index_bounds(queried);
    if key.index_spec() == queried.index_spec() {
        lemma_key_index_injective(key, queried);
    }
}

/// The symmetric fact for the release pulse: a just-released reading can
/// only come from a fresh release edge on the very key, or persist from
/// before.
pub proof fn lemma_released_needs_release(v: InputView, key: Key, button: Button, queried: Key)
    requires
        v.wf(),
    ensures
        spec_key_released(update_view(v, key, button), queried) ==> ((key == queried
            && button.action == Action::Release) || spec_key_released(v, queried)),
{
    lemma_key_index_bounds(key);
    lemma_key_index_bounds(queried);
    if key.index_spec() == queried.index_spec() {
        lemma_key_index_injective(key, queried);
    }
}

/// A raw event leaves every other key's queries exactly as they were.
pub proof fn lemma_update_other_keys(v: InputView, key: Key, button: Button, other: Key)
    requires
        v.wf(),
        other != key,
    ensures
        spec_key_hold(update_view(v, key, button), other) == spec_key_hold(v, other),
        spec_key_pressed(update_view(v, key, button), other) == spec_key_pressed(v, other),
        spec_key_released(update_view(v, key, button), other) == spec_key_released(v, other),
{
    lemma_key_index_bounds(key);
    lemma_key_index_bounds(other);
    if key.index_spec() == other.index_spec() {
        lemma_key_index_injective(key, other);
    }
}

/// One step of the machine's life: a raw hardware event, or the advance that
/// ends a frame.
pub enum InputStep {
    Event(Key, Button),
    Advance,
}

/// The state the machine reaches from `v` after a whole history of steps,
/// applied in order.
pub open spec fn run_steps(v: InputView, steps: Seq<InputStep>) -> InputView
    decreases steps.len(),
{
    if steps.len() == 0 {
        v
    } else {
        let rest = run_steps(v, steps.drop_last());
        match steps.last() {
            InputStep::Event(key, button) => update_view(rest, key, button),
            InputStep::Advance => advance_view(rest),
        }
    }
}

/// The action of the most recent raw event for `key` in a history, if the
/// history holds any event for `key`.
pub open spec fn last_event_action(steps: Seq<InputStep>, key: Key) -> Option<Action>
    decreases steps.len(),
{
    if steps.len() == 0 {
        None
    } else {
        match steps.last() {
            InputStep::Event(k, button) => if k == key {
                Some(button.action)
            } else {
                last_event_action(steps.drop_last(), key)
            },
            InputStep::Advance => last_event_action(steps.drop_last(), key),
        }
    }
}

/// Every history keeps the machine's tables at their full size.
pub proof fn lemma_run_steps_wf(v: InputView, steps: Seq<InputStep>)
    requires
        v.wf(),
    ensures
        run_steps(v, steps).wf(),
    decreases steps.len(),
{
    if steps.len() > 0 {
        lemma_run_steps_wf(v, steps.drop_last());
        match steps.last() {
            InputStep::Event(key, button) => {
                lemma_key_index_bounds(key);
            },
            InputStep::Advance => {},
        }
    }
}

/// The hold invariant, over every possible history from the start state: a
/// key reads as held exactly when the most recent raw event for it was a
/// press or a repeat — so in particular no release has landed since — and a
/// key that never saw an event does not read as held.
pub proof fn lemma_hold_invariant(steps: Seq<InputStep>, key: Key)
    ensures
        spec_key_hold(run_steps(InputView::start(), steps), key) == (match last_event_action(
            steps,
            key,
        ) {
            Some(action) => action == Action::Press || action == Action::Repeat,
            None => false,
        }),
    decreases steps.len(),
{
    lemma_key_index_bounds(key);
    if steps.len() == 0 {
    } else {
        lemma_hold_invariant(steps.drop_last(), key);
        let rest = run_steps(InputView::start(), steps.drop_last());
        lemma_run_steps_wf(InputView::start(), steps.drop_last());
        match steps.last() {
            InputStep::Event(k, button) => {
                if k == key {
                    lemma_hold_after_update(rest, key, button);
                } else {
                    lemma_update_other_keys(rest, k, button, key);
                }
            },
            InputStep::Advance => {
                lemma_advance_preserves_hold(rest, key);
            },
        }
    }
}

/// The release pulse, symmetric to the press pulse: a raw release landing on
/// a held key makes the key read as just-released for the frame of the
/// event; the frame advance that follows consumes the pulse, after which the
/// key reads neither as just-released nor as held.
pub proof fn lemma_release_pulse(v: InputView, key: Key, button: Button)
    requires
        v.wf(),
        button.action == Action::Release,
        spec_key_hold(v, key),
    ensures
        spec_key_released(update_view(v, key, button), key),
        !spec_key_hold(update_view(v, key, button), key),
        !spec_key_released(advance_view(update_view(v, key, button)), key),
        !spec_key_hold(advance_view(update_view(v, key, button)), key),
{
    lemma_key_index_bounds(key);
}

} // verus!
