//! Keyboard and mouse-button state, updated one window-system event at a
//! time. The application turns each event it polls into an [`InputEvent`]
//! and hands it to [`Input::apply`]; the pointer position, which is
//! fractional, stays with the application.

use vstd::prelude::*;

use crate::bitset::BitSet;

verus! {

/// Words of key bits: one bit for each of SDL's 512 scancodes.
pub const KEY_WORDS: usize = 8;

/// Words of mouse-button bits: SDL numbers its buttons 1 to 5.
pub const MOUSE_BUTTON_WORDS: usize = 1;

/// Number of key scancodes the state can hold.
pub const KEY_COUNT: usize = 512;

/// Number of mouse buttons the state can hold.
pub const MOUSE_BUTTON_COUNT: usize = 64;

/// SDL's scancode of the Escape key, which asks the application to quit.
pub const ESCAPE_SCANCODE: usize = 41;

/// What an event of the window system does to the input state.
#[derive(Clone, Copy, Debug, PartialEq, Eq, Structural)]
pub enum InputEvent {
    /// A key went down; `repeat` when it is the keyboard's auto-repeat.
    KeyDown { scancode: usize, repeat: bool },
    /// A key went up.
    KeyUp { scancode: usize },
    /// A mouse button went down.
    MouseButtonDown { button: usize },
    /// A mouse button went up.
    MouseButtonUp { button: usize },
    /// The user asked to close the application.
    Quit,
    /// The window was minimized.
    Minimized,
    /// The window was restored.
    Restored,
    /// The window lost the keyboard focus: whatever is held is let go.
    FocusLost,
    /// Anything else.
    Other,
}

impl InputEvent {
    /// The event names only keys and buttons the state can hold.
    pub open spec fn in_range(self) -> bool {
        match self {
            InputEvent::KeyDown { scancode, .. } => scancode < KEY_COUNT,
            InputEvent::KeyUp { scancode } => scancode < KEY_COUNT,
            InputEvent::MouseButtonDown { button } => button < MOUSE_BUTTON_COUNT,
            InputEvent::MouseButtonUp { button } => button < MOUSE_BUTTON_COUNT,
            _ => true,
        }
    }
}

/// The input state, as sets of scancodes and buttons.
#[verifier::ext_equal]
pub struct InputView {
    pub keys_down: Set<int>,
    pub keys_pressed: Set<int>,
    pub keys_released: Set<int>,
    pub buttons_down: Set<int>,
    pub buttons_pressed: Set<int>,
    pub buttons_released: Set<int>,
    pub minimized: bool,
    pub should_quit: bool,
}

/// The state after `event`.
pub open spec fn apply_event(v: InputView, event: InputEvent) -> InputView {
    match event {
        InputEvent::KeyDown { scancode, repeat } => if repeat {
            v
        } else {
            InputView {
                keys_down: v.keys_down.insert(scancode as int),
                keys_pressed: v.keys_pressed.insert(scancode as int),
                should_quit: v.should_quit || scancode == ESCAPE_SCANCODE,
                ..v
            }
        },
        InputEvent::KeyUp { scancode } => InputView {
            keys_down: v.keys_down.remove(scancode as int),
            keys_released: v.keys_released.insert(scancode as int),
            ..v
        },
        InputEvent::MouseButtonDown { button } => InputView {
            buttons_down: v.buttons_down.insert(button as int),
            buttons_pressed: v.buttons_pressed.insert(button as int),
            ..v
        },
        InputEvent::MouseButtonUp { button } => InputView {
            buttons_down: v.buttons_down.remove(button as int),
            buttons_released: v.buttons_released.insert(button as int),
            ..v
        },
        InputEvent::Quit => InputView { should_quit: true, ..v },
        InputEvent::Minimized => InputView { minimized: true, ..v },
        InputEvent::Restored => InputView { minimized: false, ..v },
        InputEvent::FocusLost => InputView {
            keys_down: Set::empty(),
            keys_released: v.keys_released.union(v.keys_down),
            buttons_down: Set::empty(),
            buttons_released: v.buttons_released.union(v.buttons_down),
            ..v
        },
        InputEvent::Other => v,
    }
}

/// The state after `events`, in order.
pub open spec fn apply_events(v: InputView, events: Seq<InputEvent>) -> InputView
    decreases events.len(),
{
    if events.len() == 0 {
        v
    } else {
        apply_event(apply_events(v, events.drop_last()), events.last())
    }
}

/// Whether `event` asks the application to quit: a close request, or a
/// press of Escape that is not an auto-repeat.
pub open spec fn asks_to_quit(event: InputEvent) -> bool {
    event == InputEvent::Quit || event == (InputEvent::KeyDown {
        scancode: ESCAPE_SCANCODE,
        repeat: false,
    })
}

/// Whether `event` minimizes or restores the window.
pub open spec fn changes_minimized(event: InputEvent) -> bool {
    event == InputEvent::Minimized || event == InputEvent::Restored
}

/// The state at the start of a poll: what was pressed or released during
/// the previous one is forgotten, what is held stays held.
pub open spec fn cleared(v: InputView) -> InputView {
    InputView {
        keys_pressed: Set::empty(),
        keys_released: Set::empty(),
        buttons_pressed: Set::empty(),
        buttons_released: Set::empty(),
        ..v
    }
}

/// Keys and mouse buttons held, pressed and released during the last poll,
/// and the window flags.
pub struct Input {
    keys_down: BitSet<KEY_WORDS>,
    keys_pressed: BitSet<KEY_WORDS>,
    keys_released: BitSet<KEY_WORDS>,
    mouse_buttons_down: BitSet<MOUSE_BUTTON_WORDS>,
    mouse_buttons_pressed: BitSet<MOUSE_BUTTON_WORDS>,
    mouse_buttons_released: BitSet<MOUSE_BUTTON_WORDS>,
    minimized: bool,
    should_quit: bool,
}

impl Input {
    /// Every set has its words.
    pub closed spec fn well_formed(self) -> bool {
        &&& self.keys_down.well_formed()
        &&& self.keys_pressed.well_formed()
        &&& self.keys_released.well_formed()
        &&& self.mouse_buttons_down.well_formed()
        &&& self.mouse_buttons_pressed.well_formed()
        &&& self.mouse_buttons_released.well_formed()
    }

    pub closed spec fn view(self) -> InputView {
        InputView {
            keys_down: self.keys_down.view(),
            keys_pressed: self.keys_pressed.view(),
            keys_released: self.keys_released.view(),
            buttons_down: self.mouse_buttons_down.view(),
            buttons_pressed: self.mouse_buttons_pressed.view(),
            buttons_released: self.mouse_buttons_released.view(),
            minimized: self.minimized,
            should_quit: self.should_quit,
        }
    }

    /// Nothing held, nothing pressed, the window neither minimized nor
    /// closing.
    pub fn new() -> (input: Input)
        ensures
            input.well_formed(),
            input@.keys_down == Set::<int>::empty(),
            input@.keys_pressed == Set::<int>::empty(),
            input@.keys_released == Set::<int>::empty(),
            input@.buttons_down == Set::<int>::empty(),
            input@.buttons_pressed == Set::<int>::empty(),
            input@.buttons_released == Set::<int>::empty(),
            !input@.minimized,
            !input@.should_quit,
    {
        let input = Input {
            keys_down: BitSet::new(),
            keys_pressed: BitSet::new(),
            keys_released: BitSet::new(),
            mouse_buttons_down: BitSet::new(),
            mouse_buttons_pressed: BitSet::new(),
            mouse_buttons_released: BitSet::new(),
            minimized: false,
            should_quit: false,
        };
        proof {
            assert(input@.keys_down =~= Set::<int>::empty());
            assert(input@.keys_pressed =~= Set::<int>::empty());
            assert(input@.keys_released =~= Set::<int>::empty());
            assert(input@.buttons_down =~= Set::<int>::empty());
            assert(input@.buttons_pressed =~= Set::<int>::empty());
            assert(input@.buttons_released =~= Set::<int>::empty());
        }
        input
    }

    pub fn is_key_down(&self, scancode: usize) -> (b: bool)
        requires
            self.well_formed(),
            scancode < KEY_COUNT,
        ensures
            b == self@.keys_down.contains(scancode as int),
    {
        self.keys_down.contains(scancode)
    }

    pub fn was_key_pressed(&self, scancode: usize) -> (b: bool)
        requires
            self.well_formed(),
            scancode < KEY_COUNT,
        ensures
            b == self@.keys_pressed.contains(scancode as int),
    {
        self.keys_pressed.contains(scancode)
    }

    pub fn was_key_released(&self, scancode: usize) -> (b: bool)
        requires
            self.well_formed(),
            scancode < KEY_COUNT,
        ensures
            b == self@.keys_released.contains(scancode as int),
    {
        self.keys_released.contains(scancode)
    }

    pub fn is_mouse_btn_down(&self, button: usize) -> (b: bool)
        requires
            self.well_formed(),
            button < MOUSE_BUTTON_COUNT,
        ensures
            b == self@.buttons_down.contains(button as int),
    {
        self.mouse_buttons_down.contains(button)
    }

    pub fn was_mouse_btn_pressed(&self, button: usize) -> (b: bool)
        requires
            self.well_formed(),
            button < MOUSE_BUTTON_COUNT,
        ensures
            b == self@.buttons_pressed.contains(button as int),
    {
        self.mouse_buttons_pressed.contains(button)
    }

    pub fn was_mouse_btn_released(&self, button: usize) -> (b: bool)
        requires
            self.well_formed(),
            button < MOUSE_BUTTON_COUNT,
        ensures
            b == self@.buttons_released.contains(button as int),
    {
        self.mouse_buttons_released.contains(button)
    }

    pub fn minimized(&self) -> (b: bool)
        ensures
            b == self@.minimized,
    {
        self.minimized
    }

    pub fn should_quit(&self) -> (b: bool)
        ensures
            b == self@.should_quit,
    {
        self.should_quit
    }

    /// Forgets what was pressed and released: the start of a poll.
    pub fn clear(&mut self)
        requires
            old(self).well_formed(),
        ensures
            final(self).well_formed(),
            final(self)@ == cleared(old(self)@),
    {
        self.keys_pressed.clear();
        self.keys_released.clear();
        self.mouse_buttons_pressed.clear();
        self.mouse_buttons_released.clear();
        proof {
            assert(self@.keys_pressed =~= Set::<int>::empty());
            assert(self@.keys_released =~= Set::<int>::empty());
            assert(self@.buttons_pressed =~= Set::<int>::empty());
            assert(self@.buttons_released =~= Set::<int>::empty());
            assert(self@ =~= cleared(old(self)@));
        }
    }

    /// Records one event.
    pub fn apply(&mut self, event: InputEvent)
        requires
            old(self).well_formed(),
            event.in_range(),
        ensures
            final(self).well_formed(),
            final(self)@ == apply_event(old(self)@, event),
    {
        match event {
            InputEvent::KeyDown { scancode, repeat } => {
                if !repeat {
                    self.keys_down.insert(scancode);
                    self.keys_pressed.insert(scancode);
                    if scancode == ESCAPE_SCANCODE {
                        self.should_quit = true;
                    }
                }
                proof {
                    assert(self@.keys_down =~= apply_event(old(self)@, event).keys_down);
                    assert(self@.keys_pressed =~= apply_event(old(self)@, event).keys_pressed);
                }
            },
            InputEvent::KeyUp { scancode } => {
                self.keys_down.remove(scancode);
                self.keys_released.insert(scancode);
                proof {
                    assert(self@.keys_down =~= apply_event(old(self)@, event).keys_down);
                    assert(self@.keys_released =~= apply_event(old(self)@, event).keys_released);
                }
            },
            InputEvent::MouseButtonDown { button } => {
                self.mouse_buttons_down.insert(button);
                self.mouse_buttons_pressed.insert(button);
                proof {
                    assert(self@.buttons_down =~= apply_event(old(self)@, event).buttons_down);
                    assert(self@.buttons_pressed =~= apply_event(
                        old(self)@,
                        event,
                    ).buttons_pressed);
                }
            },
            InputEvent::MouseButtonUp { button } => {
                self.mouse_buttons_down.remove(button);
                self.mouse_buttons_released.insert(button);
                proof {
                    assert(self@.buttons_down =~= apply_event(old(self)@, event).buttons_down);
                    assert(self@.buttons_released =~= apply_event(
                        old(self)@,
                        event,
                    ).buttons_released);
                }
            },
            InputEvent::Quit => {
                self.should_quit = true;
            },
            InputEvent::Minimized => {
                self.minimized = true;
            },
            InputEvent::Restored => {
                self.minimized = false;
            },
            InputEvent::FocusLost => {
                self.keys_down.drain_into(&mut self.keys_released);
                self.mouse_buttons_down.drain_into(&mut self.mouse_buttons_released);
                proof {
                    assert(self@.keys_down =~= Set::<int>::empty());
                    assert(self@.buttons_down =~= Set::<int>::empty());
                    assert(self@.keys_released =~= apply_event(
                        old(self)@,
                        event,
                    ).keys_released);
                    assert(self@.buttons_released =~= apply_event(
                        old(self)@,
                        event,
                    ).buttons_released);
                }
            },
            InputEvent::Other => {},
        }
        proof {
            assert(self@ =~= apply_event(old(self)@, event));
        }
    }
    /// One poll: forgets what was pressed and released during the last one,
    /// then records `events` in order.
    pub fn poll(&mut self, events: &Vec<InputEvent>)
        requires
            old(self).well_formed(),
            forall|i: int| 0 <= i < events.len() ==> (#[trigger] events[i]).in_range(),
        ensures
            final(self).well_formed(),
            final(self)@ == apply_events(cleared(old(self)@), events@),
    {
        self.clear();
        let mut i: usize = 0;
        while i < events.len()
            invariant
                i <= events.len(),
                self.well_formed(),
                forall|j: int| 0 <= j < events.len() ==> (#[trigger] events[j]).in_range(),
                self@ == apply_events(cleared(old(self)@), events@.take(i as int)),
            decreases events.len() - i,
        {
            proof {
                assert(events@.take(i as int + 1).drop_last() =~= events@.take(i as int));
            }
            self.apply(events[i]);
            i = i + 1;
        }
        proof {
            assert(events@.take(i as int) =~= events@);
        }
    }
}


/// A key pressed and let go within one poll is no longer held, and is
/// reported as both pressed and released.
pub proof fn law_press_then_release(v: InputView, scancode: usize)
    ensures
        ({
            let after = apply_event(
                apply_event(v, InputEvent::KeyDown { scancode, repeat: false }),
                InputEvent::KeyUp { scancode },
            );
            &&& !after.keys_down.contains(scancode as int)
            &&& after.keys_pressed.contains(scancode as int)
            &&& after.keys_released.contains(scancode as int)
        }),
{
}

/// Pressing Escape asks the application to quit; an auto-repeat changes
/// nothing.
pub proof fn law_escape_quits(v: InputView)
    ensures
        apply_event(v, InputEvent::KeyDown { scancode: ESCAPE_SCANCODE, repeat: false }).should_quit,
        apply_event(v, InputEvent::KeyDown { scancode: ESCAPE_SCANCODE, repeat: true }) == v,
{
}

/// Losing the focus lets go of everything held, and reports all of it as
/// released.
pub proof fn law_focus_lost_releases_all(v: InputView)
    ensures
        ({
            let after = apply_event(v, InputEvent::FocusLost);
            &&& after.keys_down == Set::<int>::empty()
            &&& after.buttons_down == Set::<int>::empty()
            &&& v.keys_down.subset_of(after.keys_released)
            &&& v.buttons_down.subset_of(after.buttons_released)
        }),
{
}

/// Starting a poll keeps what is held and the window flags.
pub proof fn law_clear_keeps_held(v: InputView)
    ensures
        cleared(v).keys_down == v.keys_down,
        cleared(v).buttons_down == v.buttons_down,
        cleared(v).minimized == v.minimized,
        cleared(v).should_quit == v.should_quit,
{
}

/// Over a whole poll, the application is asked to quit exactly when it
/// already was or some event of the poll asks it to; once asked, it stays
/// asked.
pub proof fn law_poll_quit(v: InputView, events: Seq<InputEvent>)
    ensures
        apply_events(v, events).should_quit <==> (v.should_quit || exists|i: int|
            0 <= i < events.len() && asks_to_quit(#[trigger] events[i])),
    decreases events.len(),
{
    if events.len() > 0 {
        let rest = events.drop_last();
        law_poll_quit(v, rest);
        let n = events.len() - 1;
        if exists|i: int| 0 <= i < rest.len() && asks_to_quit(#[trigger] rest[i]) {
            let i = choose|i: int| 0 <= i < rest.len() && asks_to_quit(#[trigger] rest[i]);
            assert(events[i] == rest[i]);
        }
        if exists|i: int| 0 <= i < events.len() && asks_to_quit(#[trigger] events[i]) {
            let i = choose|i: int| 0 <= i < events.len() && asks_to_quit(#[trigger] events[i]);
            if i < n {
                assert(rest[i] == events[i]);
            }
        }
        assert(asks_to_quit(events[n]) ==> exists|i: int|
            0 <= i < events.len() && asks_to_quit(#[trigger] events[i]));
    }
}

/// Over a whole poll, the window is minimized as the last event of the
/// poll that minimized or restored it left it, and as it was before where
/// no event did.
pub proof fn law_poll_minimized(v: InputView, events: Seq<InputEvent>)
    ensures
        (forall|i: int| 0 <= i < events.len() ==> !changes_minimized(#[trigger] events[i]))
            ==> apply_events(v, events).minimized == v.minimized,
        forall|j: int|
            0 <= j < events.len() && changes_minimized(#[trigger] events[j]) && (forall|k: int|
                j < k < events.len() ==> !changes_minimized(#[trigger] events[k]))
                ==> apply_events(v, events).minimized == (events[j] == InputEvent::Minimized),
    decreases events.len(),
{
    if events.len() > 0 {
        let rest = events.drop_last();
        let n = events.len() - 1;
        law_poll_minimized(v, rest);
        if forall|i: int| 0 <= i < events.len() ==> !changes_minimized(#[trigger] events[i]) {
            assert forall|i: int| 0 <= i < rest.len() implies !changes_minimized(
                #[trigger] rest[i],
            ) by {
                assert(rest[i] == events[i]);
            }
            assert(!changes_minimized(events[n]));
        }
        assert forall|j: int|
            0 <= j < events.len() && changes_minimized(#[trigger] events[j]) && (forall|k: int|
                j < k < events.len() ==> !changes_minimized(#[trigger] events[k])) implies apply_events(
            v,
            events,
        ).minimized == (events[j] == InputEvent::Minimized) by {
            if j < n {
                assert(!changes_minimized(events[n]));
                assert(rest[j] == events[j]);
                assert forall|k: int| j < k < rest.len() implies !changes_minimized(
                    #[trigger] rest[k],
                ) by {
                    assert(rest[k] == events[k]);
                    assert(!changes_minimized(events[k]));
                }
            }
        }
    }
}

/// A mouse button pressed and let go within one poll is no longer held,
/// and is reported as both pressed and released.
pub proof fn law_click_is_pressed_and_released(v: InputView, button: usize)
    ensures
        ({
            let after = apply_event(
                apply_event(v, InputEvent::MouseButtonDown { button }),
                InputEvent::MouseButtonUp { button },
            );
            &&& !after.buttons_down.contains(button as int)
            &&& after.buttons_pressed.contains(button as int)
            &&& after.buttons_released.contains(button as int)
        }),
{
}

/// Letting go of a key or a button forgets nothing that was pressed: what
/// was pressed during the poll stays reported as pressed.
pub proof fn law_release_keeps_presses(v: InputView, scancode: usize, button: usize)
    ensures
        apply_event(v, InputEvent::KeyUp { scancode }).keys_pressed == v.keys_pressed,
        apply_event(v, InputEvent::KeyUp { scancode }).buttons_pressed == v.buttons_pressed,
        apply_event(v, InputEvent::MouseButtonUp { button }).buttons_pressed == v.buttons_pressed,
        apply_event(v, InputEvent::MouseButtonUp { button }).keys_pressed == v.keys_pressed,
{
}

/// A press anywhere in a poll stays reported as pressed to its end: no
/// later event of the poll takes it back.
pub proof fn law_presses_last_the_poll(v: InputView, events: Seq<InputEvent>)
    ensures
        v.keys_pressed.subset_of(apply_events(v, events).keys_pressed),
        v.buttons_pressed.subset_of(apply_events(v, events).buttons_pressed),
        v.keys_released.subset_of(apply_events(v, events).keys_released),
        v.buttons_released.subset_of(apply_events(v, events).buttons_released),
    decreases events.len(),
{
    if events.len() > 0 {
        law_presses_last_the_poll(v, events.drop_last());
    }
}

/// Starting a poll forgets every press and release of the previous one.
pub proof fn law_clear_forgets_presses_and_releases(v: InputView)
    ensures
        cleared(v).keys_pressed == Set::<int>::empty(),
        cleared(v).keys_released == Set::<int>::empty(),
        cleared(v).buttons_pressed == Set::<int>::empty(),
        cleared(v).buttons_released == Set::<int>::empty(),
{
}

} // verus!
