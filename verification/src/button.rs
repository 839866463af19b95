//! Button debouncing.
//!
//! One watcher per physical button turns raw edge transitions into clean
//! logical press and release events. After either edge the watcher waits
//! one fixed debounce interval; a press is only emitted if the line is
//! still asserted when that wait ends, so contact bounce shorter than the
//! window produces no event at all.

use vstd::prelude::*;

verus! {

/// Debounce interval after either edge, in milliseconds.
pub const DEBOUNCE_MS: u32 = 50;

/// Logical state of one button watcher.
#[derive(Clone, Copy, Debug, PartialEq, Eq, Structural)]
pub enum ButtonState {
    /// Waiting for a falling edge.
    Idle,
    /// A falling edge arrived; waiting out the debounce interval before
    /// sampling the line.
    PressCandidate,
    /// A clean press was emitted; waiting for the rising edge.
    Pressed,
    /// The rising edge arrived; waiting out the debounce interval before
    /// emitting the release.
    ReleaseCandidate,
}

/// What the input line reports to the watcher.
#[derive(Clone, Copy, Debug, PartialEq, Eq, Structural)]
pub enum ButtonInput {
    /// The line fell (possible press).
    FallingEdge,
    /// The line rose (possible release).
    RisingEdge,
    /// The debounce wait elapsed; `asserted` is the sampled line level.
    DebounceElapsed { asserted: bool },
}

/// A clean, debounced button event.
#[derive(Clone, Copy, Debug, PartialEq, Eq, Structural)]
pub enum ButtonEvent {
    Press,
    Release,
}

/// What the watcher's task must wait for in a state.
#[derive(Clone, Copy, Debug, PartialEq, Eq, Structural)]
pub enum ButtonWait {
    /// Suspend until the line falls.
    ForFallingEdge,
    /// Suspend until the line rises.
    ForRisingEdge,
    /// Sleep [`DEBOUNCE_MS`], then sample the line.
    ForDebounce,
}

/// The transition table: next state and the event emitted, if any.
/// Inputs that do not apply to a state are ignored.
pub open spec fn spec_button_step(s: ButtonState, i: ButtonInput) -> (
    ButtonState,
    Option<ButtonEvent>,
) {
    match (s, i) {
        (ButtonState::Idle, ButtonInput::FallingEdge) => (
            ButtonState::PressCandidate,
            Option::None,
        ),
        (ButtonState::PressCandidate, ButtonInput::DebounceElapsed { asserted }) => if asserted {
            (ButtonState::Pressed, Option::Some(ButtonEvent::Press))
        } else {
            (ButtonState::Idle, Option::None)
        },
        (ButtonState::Pressed, ButtonInput::RisingEdge) => (
            ButtonState::ReleaseCandidate,
            Option::None,
        ),
        (ButtonState::ReleaseCandidate, ButtonInput::DebounceElapsed { .. }) => (
            ButtonState::Idle,
            Option::Some(ButtonEvent::Release),
        ),
        (_, _) => (s, Option::None),
    }
}

/// What a watcher waits for in each state.
pub open spec fn spec_wait_of(s: ButtonState) -> ButtonWait {
    match s {
        ButtonState::Idle => ButtonWait::ForFallingEdge,
        ButtonState::PressCandidate => ButtonWait::ForDebounce,
        ButtonState::Pressed => ButtonWait::ForRisingEdge,
        ButtonState::ReleaseCandidate => ButtonWait::ForDebounce,
    }
}

/// Debounces one physical button.
pub struct ButtonWatcher {
    state: ButtonState,
}

impl ButtonWatcher {
    /// The current logical state.
    pub closed spec fn state(&self) -> ButtonState {
        self.state
    }

    /// A watcher with its button at rest.
    pub fn new() -> (r: ButtonWatcher)
        ensures
            r.state() == ButtonState::Idle,
    {
        ButtonWatcher { state: ButtonState::Idle }
    }

    /// What the surrounding task must wait for next.
    pub fn wait_of(&self) -> (w: ButtonWait)
        ensures
            w == spec_wait_of(self.state()),
    {
        match self.state {
            ButtonState::Idle => ButtonWait::ForFallingEdge,
            ButtonState::PressCandidate => ButtonWait::ForDebounce,
            ButtonState::Pressed => ButtonWait::ForRisingEdge,
            ButtonState::ReleaseCandidate => ButtonWait::ForDebounce,
        }
    }

    /// Feed one raw input; the returned event, if any, is clean.
    pub fn step(&mut self, i: ButtonInput) -> (ev: Option<ButtonEvent>)
        ensures
            final (self).state() == spec_button_step(old(self).state(), i).0,
            ev == spec_button_step(old(self).state(), i).1,
    {
        let s = self.state;
        let (next, ev): (ButtonState, Option<ButtonEvent>) = match (s, i) {
            (ButtonState::Idle, ButtonInput::FallingEdge) => (ButtonState::PressCandidate, None),
            (ButtonState::PressCandidate, ButtonInput::DebounceElapsed { asserted }) => if asserted {
                (ButtonState::Pressed, Some(ButtonEvent::Press))
            } else {
                (ButtonState::Idle, None)
            },
            (ButtonState::Pressed, ButtonInput::RisingEdge) => (
                ButtonState::ReleaseCandidate,
                None,
            ),
            (ButtonState::ReleaseCandidate, ButtonInput::DebounceElapsed { .. }) => (
                ButtonState::Idle,
                Some(ButtonEvent::Release),
            ),
            (_, _) => (s, None),
        };
        self.state = next;
        ev
    }
}

/// The state reached and the events emitted over a sequence of inputs.
pub open spec fn run_button(s: ButtonState, ins: Seq<ButtonInput>) -> (
    ButtonState,
    Seq<ButtonEvent>,
)
    decreases ins.len(),
{
    if ins.len() == 0 {
        (s, Seq::empty())
    } else {
        let first = spec_button_step(s, ins[0]);
        let rest = run_button(first.0, ins.skip(1));
        (
            rest.0,
            match first.1 {
                Option::Some(e) => seq![e] + rest.1,
                Option::None => rest.1,
            },
        )
    }
}

/// How many events of one kind a run emitted.
pub open spec fn event_count(evs: Seq<ButtonEvent>, e: ButtonEvent) -> nat
    decreases evs.len(),
{
    if evs.len() == 0 {
        0nat
    } else {
        (if evs[0] == e {
            1nat
        } else {
            0nat
        }) + event_count(evs.skip(1), e)
    }
}

/// Whether a state lies between an emitted press and its release.
pub open spec fn pressed_phase(s: ButtonState) -> bool {
    s == ButtonState::Pressed || s == ButtonState::ReleaseCandidate
}

/// Counting events of one kind distributes over concatenation.
pub proof fn lemma_event_count_append(a: Seq<ButtonEvent>, b: Seq<ButtonEvent>, e: ButtonEvent)
    ensures
        event_count(a + b, e) == event_count(a, e) + event_count(b, e),
    decreases a.len(),
{
    if a.len() == 0 {
        assert(a + b =~= b);
    } else {
        assert((a + b).skip(1) =~= a.skip(1) + b);
        lemma_event_count_append(a.skip(1), b, e);
    }
}

/// A run splits at any point: the tail continues from where the head
/// ended, and the emitted events concatenate.
pub proof fn lemma_run_button_append(s: ButtonState, a: Seq<ButtonInput>, b: Seq<ButtonInput>)
    ensures
        run_button(s, a + b).0 == run_button(run_button(s, a).0, b).0,
        run_button(s, a + b).1 == run_button(s, a).1 + run_button(run_button(s, a).0, b).1,
    decreases a.len(),
{
    if a.len() == 0 {
        assert(a + b =~= b);
        assert(run_button(s, a).1 + run_button(run_button(s, a).0, b).1 =~= run_button(s, b).1);
    } else {
        assert((a + b).skip(1) =~= a.skip(1) + b);
        let s1 = spec_button_step(s, a[0]).0;
        lemma_run_button_append(s1, a.skip(1), b);
        match spec_button_step(s, a[0]).1 {
            Option::Some(e) => {
                assert(run_button(s, a + b).1 =~= run_button(s, a).1 + run_button(
                    run_button(s, a).0,
                    b,
                ).1);
            },
            Option::None => {},
        }
    }
}

/// Law: presses and releases alternate, press first. Over any inputs, the
/// presses a run emits balance its releases, offset by whether the run
/// starts or ends between a press and its release — so a release is never
/// emitted without a preceding press, nor a second press without a
/// release in between.
pub proof fn lemma_press_release_balance(s: ButtonState, ins: Seq<ButtonInput>)
    ensures
        ({
            let r = run_button(s, ins);
            event_count(r.1, ButtonEvent::Press) + (if pressed_phase(r.0) {
                0nat
            } else {
                1nat
            }) == event_count(r.1, ButtonEvent::Release) + (if pressed_phase(s) {
                0nat
            } else {
                1nat
            })
        }),
    decreases ins.len(),
{
    if ins.len() > 0 {
        let first = spec_button_step(s, ins[0]);
        lemma_press_release_balance(first.0, ins.skip(1));
        match first.1 {
            Option::Some(e) => {
                let rest = run_button(first.0, ins.skip(1)).1;
                assert((seq![e] + rest).skip(1) =~= rest);
            },
            Option::None => {},
        }
    }
}

/// The inputs of one clean actuation: a falling edge, a debounce wait with
/// the line still asserted, a rising edge, and the release debounce wait
/// (whatever level it samples).
pub open spec fn clean_actuation(release_level: bool) -> Seq<ButtonInput> {
    seq![
        ButtonInput::FallingEdge,
        ButtonInput::DebounceElapsed { asserted: true },
        ButtonInput::RisingEdge,
        ButtonInput::DebounceElapsed { asserted: release_level },
    ]
}

/// Law: one clean actuation emits exactly one press event and then
/// exactly one release event, and leaves the watcher idle again.
pub proof fn lemma_clean_actuation(release_level: bool)
    ensures
        run_button(ButtonState::Idle, clean_actuation(release_level)).0 == ButtonState::Idle,
        run_button(ButtonState::Idle, clean_actuation(release_level)).1 == seq![
            ButtonEvent::Press,
            ButtonEvent::Release,
        ],
{
    reveal_with_fuel(run_button, 6);
    let r = clean_actuation(release_level);
    let r1 = seq![
        ButtonInput::DebounceElapsed { asserted: true },
        ButtonInput::RisingEdge,
        ButtonInput::DebounceElapsed { asserted: release_level },
    ];
    let r2 = seq![
        ButtonInput::RisingEdge,
        ButtonInput::DebounceElapsed { asserted: release_level },
    ];
    let r3 = seq![ButtonInput::DebounceElapsed { asserted: release_level }];
    assert(r.skip(1) =~= r1);
    assert(r1.skip(1) =~= r2);
    assert(r2.skip(1) =~= r3);
    assert(r3.skip(1) =~= Seq::<ButtonInput>::empty());
    assert(run_button(ButtonState::Idle, r).1 =~= seq![ButtonEvent::Press, ButtonEvent::Release]);
}

/// Any number of clean actuations, back to back.
pub open spec fn repeated_actuations(k: nat, release_level: bool) -> Seq<ButtonInput>
    decreases k,
{
    if k == 0 {
        Seq::empty()
    } else {
        clean_actuation(release_level) + repeated_actuations((k - 1) as nat, release_level)
    }
}

/// Law: exactly one press event and one release event per clean
/// actuation, however many actuations occur.
pub proof fn lemma_one_event_pair_per_actuation(k: nat, release_level: bool)
    ensures
        run_button(ButtonState::Idle, repeated_actuations(k, release_level)).0
            == ButtonState::Idle,
        event_count(
            run_button(ButtonState::Idle, repeated_actuations(k, release_level)).1,
            ButtonEvent::Press,
        ) == k,
        event_count(
            run_button(ButtonState::Idle, repeated_actuations(k, release_level)).1,
            ButtonEvent::Release,
        ) == k,
    decreases k,
{
    reveal_with_fuel(event_count, 4);
    if k != 0 {
        lemma_one_event_pair_per_actuation((k - 1) as nat, release_level);
        lemma_clean_actuation(release_level);
        lemma_run_button_append(
            ButtonState::Idle,
            clean_actuation(release_level),
            repeated_actuations((k - 1) as nat, release_level),
        );
        let one = run_button(ButtonState::Idle, clean_actuation(release_level)).1;
        let rest = run_button(
            ButtonState::Idle,
            repeated_actuations((k - 1) as nat, release_level),
        ).1;
        lemma_event_count_append(one, rest, ButtonEvent::Press);
        lemma_event_count_append(one, rest, ButtonEvent::Release);
        assert(one.skip(1) =~= seq![ButtonEvent::Release]);
        assert(seq![ButtonEvent::Release].skip(1) =~= Seq::<ButtonEvent>::empty());
    }
}

/// Law: a transition shorter than the debounce window — the line is no
/// longer asserted when sampled — emits no event at all and returns the
/// watcher to idle.
pub proof fn lemma_bounce_rejected()
    ensures
        run_button(
            ButtonState::Idle,
            seq![ButtonInput::FallingEdge, ButtonInput::DebounceElapsed { asserted: false }],
        ).0 == ButtonState::Idle,
        run_button(
            ButtonState::Idle,
            seq![ButtonInput::FallingEdge, ButtonInput::DebounceElapsed { asserted: false }],
        ).1 == Seq::<ButtonEvent>::empty(),
{
    reveal_with_fuel(run_button, 4);
    let r = seq![ButtonInput::FallingEdge, ButtonInput::DebounceElapsed { asserted: false }];
    let r1 = seq![ButtonInput::DebounceElapsed { asserted: false }];
    assert(r.skip(1) =~= r1);
    assert(r1.skip(1) =~= Seq::<ButtonInput>::empty());
    assert(run_button(ButtonState::Idle, r).1 =~= Seq::<ButtonEvent>::empty());
}

} // verus!
