//! The region-selection overlay: one drag gesture, followed frame by frame.
//!
//! The overlay draws nothing and reads no device. Each frame the caller reports what the
//! pointer and the keyboard did, and is told what to draw, whether to search, and whether to
//! close the window.

use vstd::prelude::*;
use crate::geometry::{
    lemma_large_selection_has_pixels,
    min_selection,
    pixel,
    unit,
    LogicalPoint,
    PixelRegion,
    SelectionRect,
};

verus! {

/// Where the gesture stands.
#[derive(Clone, Copy, Debug, PartialEq, Eq, Structural)]
pub enum Gesture {
    /// No drag is under way.
    Idle,
    /// A drag began at `start` and has not been released.
    Dragging { start: LogicalPoint },
    /// A selection was released and handed on; the overlay takes no further input.
    Completed,
}

/// What happened since the previous frame.
#[derive(Clone, Copy, Debug, PartialEq, Eq, Structural)]
pub struct FrameInput {
    /// A drag began in this frame.
    pub drag_started: bool,
    /// The pointer's position, while it interacts with the overlay.
    pub pointer: Option<LogicalPoint>,
    /// The drag was released in this frame.
    pub drag_stopped: bool,
    /// The Escape key was pressed in this frame.
    pub escape_pressed: bool,
    /// The display's scale factor, physical pixels per logical unit.
    pub scale: u32,
}

/// What the caller does after a frame.
#[derive(Clone, Copy, Debug, PartialEq, Eq, Structural)]
pub struct FrameOutput {
    /// The region to search for, when a selection was completed in this frame.
    pub search: Option<PixelRegion>,
    /// Whether the window is to close.
    pub close: bool,
    /// The rectangle to show undimmed, while a drag is under way.
    pub selection: Option<SelectionRect>,
}

/// The state of the overlay: the gesture and the last known pointer position.
#[derive(Clone, Copy, Debug, PartialEq, Eq, Structural)]
pub struct SelectionOverlay {
    pub gesture: Gesture,
    pub current: LogicalPoint,
}

impl SelectionOverlay {
    /// The pointer position after a frame: the reported one, else the previous one.
    pub open spec fn pointer_after(self, frame: FrameInput) -> LogicalPoint {
        match frame.pointer {
            Some(p) => p,
            None => self.current,
        }
    }

    /// The start of the drag that is under way once the frame's drag start is taken in. A
    /// drag that starts without a pointer position has no start.
    pub open spec fn start_after(self, frame: FrameInput) -> Option<LogicalPoint> {
        if frame.drag_started {
            frame.pointer
        } else {
            match self.gesture {
                Gesture::Dragging { start } => Some(start),
                _ => None,
            }
        }
    }

    /// The rectangle between the drag's start and the pointer, if a drag is under way after
    /// the frame's pointer events.
    pub open spec fn rect_after(self, frame: FrameInput) -> Option<SelectionRect> {
        match self.start_after(frame) {
            Some(start) => Some(SelectionRect { start, end: self.pointer_after(frame) }),
            None => None,
        }
    }

    /// Whether the frame releases a selection that is searched: the overlay still takes
    /// input, Escape is not pressed, and the released rectangle is large enough.
    pub open spec fn completes(self, frame: FrameInput) -> bool {
        &&& self.gesture != Gesture::Completed
        &&& !frame.escape_pressed
        &&& frame.drag_stopped
        &&& self.rect_after(frame) matches Some(rect)
        &&& rect.large_enough()
    }

    /// The overlay after a frame.
    pub open spec fn next(self, frame: FrameInput) -> SelectionOverlay {
        if self.gesture == Gesture::Completed {
            self
        } else if self.completes(frame) {
            SelectionOverlay { gesture: Gesture::Completed, current: self.pointer_after(frame) }
        } else if frame.escape_pressed || frame.drag_stopped {
            SelectionOverlay { gesture: Gesture::Idle, current: self.pointer_after(frame) }
        } else {
            SelectionOverlay {
                gesture: match self.start_after(frame) {
                    Some(start) => Gesture::Dragging { start },
                    None => Gesture::Idle,
                },
                current: self.pointer_after(frame),
            }
        }
    }

    /// What the caller is told after a frame.
    pub open spec fn output(self, frame: FrameInput) -> FrameOutput {
        if self.gesture == Gesture::Completed {
            FrameOutput { search: None, close: true, selection: None }
        } else if self.completes(frame) {
            FrameOutput {
                search: Some(self.rect_after(frame).unwrap().pixels(frame.scale)),
                close: true,
                selection: None,
            }
        } else if frame.escape_pressed {
            FrameOutput { search: None, close: true, selection: None }
        } else if frame.drag_stopped {
            FrameOutput { search: None, close: false, selection: None }
        } else {
            FrameOutput { search: None, close: false, selection: self.rect_after(frame) }
        }
    }

    /// An overlay that waits for the first gesture.
    pub fn new() -> (overlay: SelectionOverlay)
        ensures
            overlay.gesture == Gesture::Idle,
            overlay.current == (LogicalPoint { x: 0, y: 0 }),
    {
        SelectionOverlay { gesture: Gesture::Idle, current: LogicalPoint { x: 0, y: 0 } }
    }

    /// Takes in one frame.
    ///
    /// A drag start records the pointer position as the start; every reported position moves
    /// the rectangle's other corner. A release of a rectangle that spans at least five logical
    /// units in both directions completes the selection: the rectangle is converted to
    /// physical pixels and returned for the search, and the window is to close. A release of
    /// anything smaller only forgets the start. Escape forgets the start and closes the window
    /// without a search. Once a selection is completed no further frame has an effect.
    pub fn update(&mut self, frame: &FrameInput) -> (out: FrameOutput)
        ensures
            *final(self) == old(self).next(*frame),
            out == old(self).output(*frame),
    {
        if let Gesture::Completed = self.gesture {
            return FrameOutput { search: None, close: true, selection: None };
        }
        let start: Option<LogicalPoint> = if frame.drag_started {
            frame.pointer
        } else {
            match self.gesture {
                Gesture::Dragging { start } => Some(start),
                _ => None,
            }
        };
        if let Some(p) = frame.pointer {
            self.current = p;
        }
        let rect: Option<SelectionRect> = match start {
            Some(s) => Some(SelectionRect::from_two_pos(s, self.current)),
            None => None,
        };
        if frame.escape_pressed {
            self.gesture = Gesture::Idle;
            return FrameOutput { search: None, close: true, selection: None };
        }
        if frame.drag_stopped {
            if let Some(r) = rect {
                if r.is_large_enough() {
                    self.gesture = Gesture::Completed;
                    return FrameOutput {
                        search: Some(r.to_pixels(frame.scale)),
                        close: true,
                        selection: None,
                    };
                }
            }
            self.gesture = Gesture::Idle;
            return FrameOutput { search: None, close: false, selection: None };
        }
        self.gesture = match start {
            Some(s) => Gesture::Dragging { start: s },
            None => Gesture::Idle,
        };
        FrameOutput { search: None, close: false, selection: rect }
    }
}

/// A release of a rectangle that is narrower or lower than five logical units triggers no
/// search, leaves the window open unless Escape was pressed, and puts the overlay back to
/// idle, where the next drag start begins a new gesture at the pointer's position.
pub proof fn lemma_small_selection_resets(
    overlay: SelectionOverlay,
    frame: FrameInput,
    rect: SelectionRect,
    later: FrameInput,
    start: LogicalPoint,
)
    requires
        overlay.gesture != Gesture::Completed,
        frame.drag_stopped,
        overlay.rect_after(frame) == Some(rect),
        rect.extent_x() < min_selection() || rect.extent_y() < min_selection(),
        later.drag_started,
        later.pointer == Some(start),
        !later.drag_stopped,
        !later.escape_pressed,
    ensures
        overlay.output(frame).search is None,
        overlay.output(frame).close == frame.escape_pressed,
        overlay.next(frame).gesture == Gesture::Idle,
        overlay.next(frame).next(later).gesture == (Gesture::Dragging { start }),
        overlay.next(frame).output(later).selection == Some(SelectionRect { start, end: start }),
{
}

/// A search is triggered in exactly the frames that release a large enough rectangle, and
/// then for that rectangle's pixels; the overlay is completed afterwards and stays so,
/// whatever frames follow, without another search.
pub proof fn lemma_search_only_on_completion(
    overlay: SelectionOverlay,
    frame: FrameInput,
    later: FrameInput,
)
    ensures
        overlay.output(frame).search is Some <==> overlay.completes(frame),
        overlay.completes(frame) ==> overlay.output(frame).search == Some(
            overlay.rect_after(frame).unwrap().pixels(frame.scale),
        ) && overlay.output(frame).close && overlay.next(frame).gesture == Gesture::Completed,
        overlay.gesture == Gesture::Completed ==> overlay.next(later) == overlay && overlay.output(
            later,
        ).search is None,
        frame.escape_pressed ==> overlay.output(frame).close && overlay.output(frame).search
            is None,
{
}

/// A completed selection is searched for as a region that is not empty, at any scale of one
/// fifth or more: every released rectangle of at least five logical units in both directions
/// covers at least one pixel each way, and its pixel dimensions are its logical dimensions
/// times the scale factor, cut down to whole pixels.
pub proof fn lemma_completed_selection_is_not_empty(overlay: SelectionOverlay, frame: FrameInput)
    requires
        overlay.completes(frame),
        5 * frame.scale >= unit(),
    ensures
        ({
            let rect = overlay.rect_after(frame).unwrap();
            &&& overlay.output(frame).search matches Some(region)
            &&& region.non_empty()
            &&& region.width == (rect.extent_x() * frame.scale) / pixel()
            &&& region.height == (rect.extent_y() * frame.scale) / pixel()
        }),
{
    lemma_large_selection_has_pixels(overlay.rect_after(frame).unwrap(), frame.scale);
}

} // verus!
