//! The state machine that drives the application, one tick per frame.
use crate::geometry::Rect;
use crate::states::{launcher_event, Event, PointerSample, SelectRegion};
use vstd::prelude::*;

verus! {

/// Width in pixels of the launcher window.
pub const LAUNCHER_WIDTH: u32 = 200;

/// Height in pixels of the launcher window.
pub const LAUNCHER_HEIGHT: u32 = 150;

/// The view that is active.
#[derive(Clone, Copy, Debug, PartialEq, Eq, Structural)]
pub enum State {
    /// Before the first tick.
    Uninitialized,
    /// The idle launcher.
    Default,
    /// The fullscreen selection overlay.
    SelectRegion,
}

/// The size that the window takes.
#[derive(Clone, Copy, Debug, PartialEq, Eq, Structural)]
pub enum WindowSize {
    Fixed { width: u32, height: u32 },
    Fullscreen,
}

/// How the host is to configure the window.
#[derive(Clone, Copy, Debug, PartialEq, Eq, Structural)]
pub struct WindowChrome {
    pub decorated: bool,
    pub fullscreen: bool,
    pub transparent: bool,
    pub size: WindowSize,
    pub centered: bool,
}

/// A state hook that a tick ran.
#[derive(Clone, Copy, Debug, PartialEq, Eq, Structural)]
pub enum Hook {
    Exit(State),
    Enter(State),
}

/// What the host reports on one frame.
#[derive(Clone, Copy, Debug, PartialEq, Eq, Structural)]
pub struct FrameInput {
    /// The launcher's control was activated.
    pub activated: bool,
    pub pointer: PointerSample,
}

/// What a tick asks of the host.
#[derive(Debug)]
pub struct Tick {
    /// The event that the active view emitted.
    pub event: Event,
    /// The hooks that ran, in order.
    pub hooks: Vec<Hook>,
    /// The window configuration to apply, if it changes.
    pub chrome: Option<WindowChrome>,
    /// The rectangle to outline on this frame, if any.
    pub outline: Option<Rect>,
}

/// The small, decorated, centered launcher window.
pub open spec fn launcher_chrome() -> WindowChrome {
    WindowChrome {
        decorated: true,
        fullscreen: false,
        transparent: false,
        size: WindowSize::Fixed { width: LAUNCHER_WIDTH, height: LAUNCHER_HEIGHT },
        centered: true,
    }
}

/// The undecorated, transparent overlay that spans the whole screen.
pub open spec fn overlay_chrome() -> WindowChrome {
    WindowChrome {
        decorated: false,
        fullscreen: true,
        transparent: true,
        size: WindowSize::Fullscreen,
        centered: false,
    }
}

/// The state that follows `s` when its view emits `e`.
pub open spec fn transition(s: State, e: Event) -> State {
    match (s, e) {
        (State::SelectRegion, Event::RegionSelectionFinished) => State::Default,
        (State::Default, Event::SelectRegionButtonClicked) => State::SelectRegion,
        (State::Uninitialized, _) => State::Default,
        _ => s,
    }
}

/// The state reached from `s` after `n` ticks on which the view emits `e`.
pub open spec fn transition_n(s: State, e: Event, n: nat) -> State
    decreases n,
{
    if n == 0 {
        s
    } else {
        transition_n(transition(s, e), e, (n - 1) as nat)
    }
}

impl State {
    /// The window configuration that entering this state applies.
    pub open spec fn chrome(self) -> Option<WindowChrome> {
        match self {
            State::Uninitialized => None,
            State::Default => Some(launcher_chrome()),
            State::SelectRegion => Some(overlay_chrome()),
        }
    }

    /// The hook run on entering this state: it says how to configure the window.
    pub fn enter(&self) -> (r: Option<WindowChrome>)
        ensures
            r == self.chrome(),
    {
        match self {
            State::Uninitialized => None,
            State::Default => Some(
                WindowChrome {
                    decorated: true,
                    fullscreen: false,
                    transparent: false,
                    size: WindowSize::Fixed { width: LAUNCHER_WIDTH, height: LAUNCHER_HEIGHT },
                    centered: true,
                },
            ),
            State::SelectRegion => Some(
                WindowChrome {
                    decorated: false,
                    fullscreen: true,
                    transparent: true,
                    size: WindowSize::Fullscreen,
                    centered: false,
                },
            ),
        }
    }
}

/// The next state for every pair of state and event.
pub fn next_state(s: State, e: Event) -> (r: State)
    ensures
        r == transition(s, e),
{
    match (s, e) {
        (State::SelectRegion, Event::RegionSelectionFinished) => State::Default,
        (State::Default, Event::SelectRegionButtonClicked) => State::SelectRegion,
        (State::Uninitialized, _) => State::Default,
        _ => s,
    }
}

/// The application context: the state machine and the last committed selection.
#[derive(Debug)]
pub struct App {
    pub prev_state: State,
    pub cur_state: State,
    pub cur_event: Event,
    pub prev_event: Event,
    /// The rectangle of the last finished selection; `None` until one finishes.
    pub committed_selection: Option<Rect>,
    pub launcher: crate::states::Default,
    pub region: SelectRegion,
}

impl App {
    /// Every rectangle held is normalized.
    pub open spec fn wf(self) -> bool {
        &&& self.committed_selection matches Some(r) ==> r.wf()
        &&& self.region.wf()
    }

    /// The event that the active view emits on a frame with `input`.
    pub open spec fn frame_event(self, input: FrameInput) -> Event {
        match self.cur_state {
            State::Uninitialized => Event::Nothing,
            State::Default => launcher_event(input.activated),
            State::SelectRegion => input.pointer.event(),
        }
    }

    /// A context before its first tick, with nothing selected.
    pub fn new() -> (r: App)
        ensures
            r.cur_state == State::Uninitialized,
            r.prev_state == State::Uninitialized,
            r.cur_event == Event::Nothing,
            r.prev_event == Event::Nothing,
            r.committed_selection is None,
            r.region.selection is None,
            r.wf(),
    {
        App {
            prev_state: State::Uninitialized,
            cur_state: State::Uninitialized,
            cur_event: Event::Nothing,
            prev_event: Event::Nothing,
            committed_selection: None,
            launcher: crate::states::Default::new(),
            region: SelectRegion::new(),
        }
    }

    /// The state that follows the current state and event.
    pub fn get_next_state(&self) -> (r: State)
        ensures
            r == transition(self.cur_state, self.cur_event),
    {
        next_state(self.cur_state, self.cur_event)
    }

    /// Runs one frame: the active view emits an event, the transition table
    /// picks the next state, and on a change the old state's exit hook and the
    /// new state's enter hook run, in that order. A finished drag commits the
    /// selection.
    pub fn tick(&mut self, input: &FrameInput) -> (t: Tick)
        ensures
            t.event == old(self).frame_event(*input),
            final(self).cur_event == t.event,
            final(self).prev_event == t.event,
            final(self).cur_state == transition(old(self).cur_state, t.event),
            final(self).launcher == old(self).launcher,
            final(self).region == (if old(self).cur_state == State::SelectRegion {
                old(self).region.step(input.pointer)
            } else {
                old(self).region
            }),
            final(self).committed_selection == (if t.event == Event::RegionSelectionFinished {
                old(self).region.selection
            } else {
                old(self).committed_selection
            }),
            final(self).cur_state != old(self).cur_state ==> {
                &&& final(self).prev_state == old(self).cur_state
                &&& t.hooks@ == seq![Hook::Exit(old(self).cur_state), Hook::Enter(final(self).cur_state)]
                &&& t.chrome == final(self).cur_state.chrome()
            },
            final(self).cur_state == old(self).cur_state ==> {
                &&& final(self).prev_state == old(self).prev_state
                &&& t.hooks@.len() == 0
                &&& t.chrome is None
            },
            t.outline == (if t.event == Event::RegionSelectionUpdated {
                Some(input.pointer.drag_rect())
            } else {
                None
            }),
            old(self).wf() ==> final(self).wf(),
    {
        let event = match self.cur_state {
            State::Uninitialized => Event::Nothing,
            State::Default => self.launcher.run(input.activated),
            State::SelectRegion => self.region.run(&input.pointer),
        };
        self.cur_event = event;
        if event == Event::RegionSelectionFinished {
            self.committed_selection = self.region.selection;
        }
        let next = self.get_next_state();
        let mut hooks: Vec<Hook> = Vec::new();
        let mut chrome: Option<WindowChrome> = None;
        if next != self.cur_state {
            hooks.push(Hook::Exit(self.cur_state));
            hooks.push(Hook::Enter(next));
            chrome = next.enter();
            self.prev_state = self.cur_state;
            self.cur_state = next;
        }
        self.prev_event = self.cur_event;
        let outline = if event == Event::RegionSelectionUpdated {
            self.region.selection
        } else {
            None
        };
        Tick { event, hooks, chrome, outline }
    }
}

impl std::default::Default for App {
    fn default() -> (r: App)
        ensures
            r.cur_state == State::Uninitialized,
            r.committed_selection is None,
            r.wf(),
    {
        App::new()
    }
}

/// Every pair of state and event has exactly one successor, given by the
/// table: a finished selection returns to the launcher, the launcher's
/// button opens the selection overlay, the state before the first tick
/// gives way to the launcher, and every other pair keeps the state.
pub proof fn lemma_transition_table(s: State, e: Event)
    ensures
        s == State::SelectRegion && e == Event::RegionSelectionFinished ==> transition(s, e)
            == State::Default,
        s == State::Default && e == Event::SelectRegionButtonClicked ==> transition(s, e)
            == State::SelectRegion,
        s == State::Uninitialized ==> transition(s, e) == State::Default,
        !(s == State::SelectRegion && e == Event::RegionSelectionFinished) && !(s == State::Default
            && e == Event::SelectRegionButtonClicked) && s != State::Uninitialized ==> transition(
            s,
            e,
        ) == s,
{
}

/// Once the first tick has passed, any number of ticks on which the view
/// emits `Nothing` leave the state as it is.
pub proof fn lemma_nothing_keeps_state(s: State, n: nat)
    requires
        s != State::Uninitialized,
    ensures
        transition_n(s, Event::Nothing, n) == s,
    decreases n,
{
    if n > 0 {
        lemma_nothing_keeps_state(transition(s, Event::Nothing), (n - 1) as nat);
    }
}

} // verus!
