//! The two views of the application and the signals they emit each frame.
use crate::geometry::{rect_of, Pos, Rect};
use vstd::prelude::*;

verus! {

/// The one signal that the active view emits on each frame.
#[derive(Clone, Copy, Debug, PartialEq, Eq, Structural)]
pub enum Event {
    Nothing,
    RegionSelectionUpdated,
    RegionSelectionFinished,
    SelectRegionButtonClicked,
}

/// What the host reports of the primary pointer button on one frame.
#[derive(Clone, Copy, Debug, PartialEq, Eq, Structural)]
pub struct PointerSample {
    /// The primary button is held down.
    pub primary_down: bool,
    /// The selection surface is being dragged.
    pub dragged: bool,
    /// A drag of the selection surface ended by releasing the primary button.
    pub released: bool,
    /// Where the current press started, if the host recorded it.
    pub press_origin: Option<Pos>,
    /// The latest position at which the pointer interacts, if any.
    pub interact_pos: Option<Pos>,
}

/// A position reported by the host, with a missing one read as `(0, 0)`.
pub open spec fn pos_or_zero(p: Option<Pos>) -> Pos {
    match p {
        Some(q) => q,
        None => Pos { x: 0, y: 0 },
    }
}

fn unwrap_or_zero(p: Option<Pos>) -> (r: Pos)
    ensures
        r == pos_or_zero(p),
{
    match p {
        Some(q) => q,
        None => Pos::zero(),
    }
}

impl PointerSample {
    /// A drag is in progress on this frame.
    pub open spec fn is_dragging(self) -> bool {
        self.dragged && self.primary_down
    }

    /// The rectangle between the press origin and the current pointer position.
    pub open spec fn drag_rect(self) -> Rect {
        rect_of(pos_or_zero(self.press_origin), pos_or_zero(self.interact_pos))
    }

    /// The event that the selection view emits for this sample.
    pub open spec fn event(self) -> Event {
        if self.is_dragging() {
            Event::RegionSelectionUpdated
        } else if self.released {
            Event::RegionSelectionFinished
        } else {
            Event::Nothing
        }
    }
}

/// The idle launcher view, with its one activation control.
#[derive(Clone, Copy, Debug, PartialEq, Eq, Structural)]
pub struct Default {}

/// The event that the launcher emits on a frame.
pub open spec fn launcher_event(activated: bool) -> Event {
    if activated {
        Event::SelectRegionButtonClicked
    } else {
        Event::Nothing
    }
}

impl Default {
    pub fn new() -> (r: Default) {
        Default {}
    }

    /// Emits `SelectRegionButtonClicked` on a frame where the control was
    /// activated, and `Nothing` otherwise.
    pub fn run(&self, activated: bool) -> (r: Event)
        ensures
            r == launcher_event(activated),
    {
        if activated {
            Event::SelectRegionButtonClicked
        } else {
            Event::Nothing
        }
    }
}

/// The fullscreen overlay view, which tracks the rectangle being dragged.
#[derive(Clone, Copy, Debug, PartialEq, Eq, Structural)]
pub struct SelectRegion {
    /// The latest rectangle computed from a drag, if any.
    pub selection: Option<Rect>,
}

impl SelectRegion {
    /// Every rectangle held is normalized.
    pub open spec fn wf(self) -> bool {
        self.selection matches Some(r) ==> r.wf()
    }

    /// The view after it has seen `p`.
    pub open spec fn step(self, p: PointerSample) -> SelectRegion {
        if p.is_dragging() {
            SelectRegion { selection: Some(p.drag_rect()) }
        } else {
            self
        }
    }

    pub fn new() -> (r: SelectRegion)
        ensures
            r.selection is None,
            r.wf(),
    {
        SelectRegion { selection: None }
    }

    /// Samples the pointer. While the primary button drags, the rectangle
    /// between the press origin and the pointer becomes the selection and
    /// `RegionSelectionUpdated` is emitted; when the drag is released,
    /// `RegionSelectionFinished` is emitted and the selection is kept.
    pub fn run(&mut self, p: &PointerSample) -> (r: Event)
        ensures
            r == p.event(),
            *final(self) == old(self).step(*p),
            old(self).wf() ==> final(self).wf(),
            r == Event::RegionSelectionUpdated ==> final(self).selection == Some(p.drag_rect()),
    {
        if p.dragged && p.primary_down {
            let origin = unwrap_or_zero(p.press_origin);
            let current = unwrap_or_zero(p.interact_pos);
            self.selection = Some(Rect::from_points(origin, current));
            Event::RegionSelectionUpdated
        } else if p.released {
            Event::RegionSelectionFinished
        } else {
            Event::Nothing
        }
    }
}

} // verus!
