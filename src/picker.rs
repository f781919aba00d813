//! The pointer dispatch state machine: which region a gesture acts on, the
//! capture of its pointer, and the color it writes.
use vstd::prelude::*;
use crate::color::{format_text, Color, ColorFormat, FULL};
use crate::geometry::{
    brightness_to_y_axis, hue_at, hue_to_cursor_rotation, pointer_to_hue, pointer_to_sv,
    rotation_for, saturation_to_x_axis, sv_at, BoundingRect, Point, VIEW_SPAN,
};

verus! {

/// The two regions of the picker that a gesture can act on.
#[derive(Clone, Copy, Debug, PartialEq, Eq, Structural)]
pub enum Target {
    HueRing,
    SaturationBrightnessBox,
}

/// One pointer event as the host delivers it: the pointer's id, its page
/// position, and its direction from the hue ring's center, which is
/// `atan2(dx, dy)` of the offset `(dx, dy)` from that center in hundredths
/// of a degree, as the host measures it.
#[derive(Clone, Copy, Debug, PartialEq, Eq, Structural)]
pub struct PointerEvent {
    pub pointer_id: i32,
    pub position: Point,
    pub ring_angle: i64,
}

/// What the host is asked to do after an event.
#[derive(Clone, Copy, Debug, PartialEq, Eq, Structural)]
pub enum PointerAction {
    Nothing,
    Capture(i32),
    Release(i32),
}

/// A gesture under way: the region it acts on, chosen when it began, and
/// the pointer that drives it.
#[derive(Clone, Copy, Debug, PartialEq, Eq, Structural)]
pub struct Session {
    pub target: Target,
    pub pointer_id: i32,
}

/// The picker's state: the one color, the last measured rectangle of each
/// region, and the gesture under way if any (none: idle).
///
/// While a gesture is under way, a pointer going down is ignored, and so are
/// the events of every pointer but the one that started the gesture.
#[derive(Clone, Copy, Debug)]
pub struct ColorPicker {
    pub color: Color,
    pub hue_ring_rect: BoundingRect,
    pub saturation_brightness_rect: BoundingRect,
    pub session: Option<Session>,
}

impl ColorPicker {
    pub open spec fn wf(self) -> bool {
        self.color.wf()
    }

    pub open spec fn rect_of(self, target: Target) -> BoundingRect {
        match target {
            Target::HueRing => self.hue_ring_rect,
            Target::SaturationBrightnessBox => self.saturation_brightness_rect,
        }
    }

    /// The region a gesture starting at `p` acts on: the box where `p`
    /// lies in it, the ring elsewhere.
    pub open spec fn target_at(self, p: Point) -> Target {
        if self.saturation_brightness_rect.holds(p) {
            Target::SaturationBrightnessBox
        } else {
            Target::HueRing
        }
    }

    /// The color after mapping `event` through the region `target`: the hue
    /// for the ring, saturation and brightness for the box, the rest kept.
    /// Over a region not measured yet nothing changes.
    pub open spec fn mapped(self, target: Target, event: PointerEvent) -> Color {
        let rect = self.rect_of(target);
        if !rect.measured() {
            self.color
        } else {
            match target {
                Target::HueRing => Color {
                    hue: hue_at(event.ring_angle as int) as u32,
                    ..self.color
                },
                Target::SaturationBrightnessBox => {
                    let (s, b) = sv_at(event.position, rect);
                    Color { saturation: s, brightness: b, ..self.color }
                },
            }
        }
    }

    /// An idle picker showing `color`, with neither region measured.
    pub fn new(color: Color) -> (p: ColorPicker)
        requires
            color.wf(),
        ensures
            p.wf(),
            p.color == color,
            p.hue_ring_rect == (BoundingRect { x: 0, y: 0, width: 0, height: 0 }),
            p.saturation_brightness_rect == (BoundingRect { x: 0, y: 0, width: 0, height: 0 }),
            p.session.is_none(),
    {
        ColorPicker {
            color,
            hue_ring_rect: BoundingRect::zero(),
            saturation_brightness_rect: BoundingRect::zero(),
            session: None,
        }
    }

    /// The last rectangle recorded for a region (the zero rectangle before
    /// the first).
    pub fn get_rect(&self, target: Target) -> (r: BoundingRect)
        ensures
            r == self.rect_of(target),
    {
        match target {
            Target::HueRing => self.hue_ring_rect,
            Target::SaturationBrightnessBox => self.saturation_brightness_rect,
        }
    }

    /// Records a fresh measurement of a region, replacing the old one whole.
    pub fn record_rect(&mut self, target: Target, rect: BoundingRect)
        ensures
            final(self).rect_of(target) == rect,
            final(self).color == old(self).color,
            final(self).session == old(self).session,
            target == Target::HueRing ==> final(self).saturation_brightness_rect == old(
                self,
            ).saturation_brightness_rect,
            target == Target::SaturationBrightnessBox ==> final(self).hue_ring_rect == old(
                self,
            ).hue_ring_rect,
    {
        match target {
            Target::HueRing => self.hue_ring_rect = rect,
            Target::SaturationBrightnessBox => self.saturation_brightness_rect = rect,
        }
    }

    /// Replaces the color from possibly out-of-range components, wrapping the
    /// hue and clamping the rest.
    pub fn set_color(&mut self, hue: i64, saturation: i64, brightness: i64, alpha: i64)
        ensures
            final(self).wf(),
            final(self).color == Color::new_spec(hue, saturation, brightness, alpha),
            final(self).hue_ring_rect == old(self).hue_ring_rect,
            final(self).saturation_brightness_rect == old(self).saturation_brightness_rect,
            final(self).session == old(self).session,
    {
        self.color = Color::new(hue, saturation, brightness, alpha);
    }

    fn apply(&mut self, target: Target, event: PointerEvent)
        requires
            old(self).wf(),
        ensures
            final(self).wf(),
            final(self).color == old(self).mapped(target, event),
            final(self).hue_ring_rect == old(self).hue_ring_rect,
            final(self).saturation_brightness_rect == old(self).saturation_brightness_rect,
            final(self).session == old(self).session,
    {
        let rect = self.get_rect(target);
        if rect.is_measured() {
            match target {
                Target::HueRing => {
                    self.color.hue = pointer_to_hue(event.ring_angle);
                },
                Target::SaturationBrightnessBox => {
                    let (s, b) = pointer_to_sv(event.position, rect);
                    self.color.saturation = s;
                    self.color.brightness = b;
                },
            }
        }
    }

    /// A pointer goes down. When idle, the gesture's region is chosen (the
    /// box where the pointer lies in it, the ring elsewhere), the event is
    /// mapped through it at once so that a click without a drag still sets
    /// the color, and the host is asked to capture the pointer. While a
    /// gesture is under way, nothing changes.
    pub fn pointer_down(&mut self, event: PointerEvent) -> (action: PointerAction)
        requires
            old(self).wf(),
        ensures
            final(self).wf(),
            old(self).session.is_some() ==> *final(self) == *old(self) && action
                == PointerAction::Nothing,
            old(self).session.is_none() ==> {
                let target = old(self).target_at(event.position);
                &&& final(self).session == Some(
                    Session { target, pointer_id: event.pointer_id },
                )
                &&& final(self).color == old(self).mapped(target, event)
                &&& final(self).hue_ring_rect == old(self).hue_ring_rect
                &&& final(self).saturation_brightness_rect == old(
                    self,
                ).saturation_brightness_rect
                &&& action == PointerAction::Capture(event.pointer_id)
            },
    {
        if self.session.is_some() {
            return PointerAction::Nothing;
        }
        let target = if self.saturation_brightness_rect.contains(event.position) {
            Target::SaturationBrightnessBox
        } else {
            Target::HueRing
        };
        self.apply(target, event);
        self.session = Some(Session { target, pointer_id: event.pointer_id });
        PointerAction::Capture(event.pointer_id)
    }

    /// A pointer moves. The pointer of the gesture under way is mapped
    /// through the gesture's region, wherever it now lies; any other move
    /// changes nothing.
    pub fn pointer_move(&mut self, event: PointerEvent)
        requires
            old(self).wf(),
        ensures
            final(self).wf(),
            final(self).session == old(self).session,
            final(self).hue_ring_rect == old(self).hue_ring_rect,
            final(self).saturation_brightness_rect == old(self).saturation_brightness_rect,
            final(self).color == match old(self).session {
                Some(s) => if s.pointer_id == event.pointer_id {
                    old(self).mapped(s.target, event)
                } else {
                    old(self).color
                },
                None => old(self).color,
            },
    {
        match self.session {
            Some(s) => {
                if s.pointer_id == event.pointer_id {
                    self.apply(s.target, event);
                }
            },
            None => {},
        }
    }

    /// A pointer goes up. The gesture it drives ends, and the host is asked
    /// to release its capture; for any other pointer nothing changes.
    pub fn pointer_up(&mut self, pointer_id: i32) -> (action: PointerAction)
        ensures
            final(self).color == old(self).color,
            final(self).hue_ring_rect == old(self).hue_ring_rect,
            final(self).saturation_brightness_rect == old(self).saturation_brightness_rect,
            match old(self).session {
                Some(s) => if s.pointer_id == pointer_id {
                    final(self).session.is_none() && action == PointerAction::Release(pointer_id)
                } else {
                    final(self).session == old(self).session && action == PointerAction::Nothing
                },
                None => final(self).session.is_none() && action == PointerAction::Nothing,
            },
    {
        match self.session {
            Some(s) => {
                if s.pointer_id == pointer_id {
                    self.session = None;
                    PointerAction::Release(pointer_id)
                } else {
                    PointerAction::Nothing
                }
            },
            None => PointerAction::Nothing,
        }
    }

    /// The host took the capture of a pointer away, or never granted it. The
    /// gesture that pointer drives ends; for any other pointer nothing
    /// changes.
    pub fn capture_lost(&mut self, pointer_id: i32)
        ensures
            final(self).color == old(self).color,
            final(self).hue_ring_rect == old(self).hue_ring_rect,
            final(self).saturation_brightness_rect == old(self).saturation_brightness_rect,
            final(self).session == match old(self).session {
                Some(s) => if s.pointer_id == pointer_id {
                    None
                } else {
                    old(self).session
                },
                None => None,
            },
    {
        match self.session {
            Some(s) => {
                if s.pointer_id == pointer_id {
                    self.session = None;
                }
            },
            None => {},
        }
    }

    /// Whether no gesture is under way.
    pub fn is_idle(&self) -> (r: bool)
        ensures
            r == self.session.is_none(),
    {
        self.session.is_none()
    }

    /// The rotation, in hundredths of a degree, of the hue ring's cursor.
    pub fn hue_cursor_rotation(&self) -> (r: u32)
        ensures
            r == rotation_for(self.color.hue as int),
    {
        hue_to_cursor_rotation(self.color.hue)
    }

    /// The position of the box's cursor, in hundredths of the 100-unit box:
    /// `saturation * 100` across and `100 - brightness * 100` down.
    pub fn sv_cursor(&self) -> (r: (u32, u32))
        requires
            self.wf(),
        ensures
            r.0 == self.color.saturation * VIEW_SPAN / FULL as int,
            r.1 == (FULL - self.color.brightness) * VIEW_SPAN / FULL as int,
    {
        (saturation_to_x_axis(self.color.saturation), brightness_to_y_axis(self.color.brightness))
    }

    /// The color's text in the format `f`.
    pub fn color_text(&self, f: ColorFormat) -> (t: String)
        requires
            self.wf(),
        ensures
            t@ == format_text(self.color, f),
    {
        self.color.format(f)
    }
}

/// Over a region that has not been measured, a pointer event leaves the
/// color as it was, whichever region it is mapped through.
pub proof fn lemma_unmeasured_region_keeps_color(
    picker: ColorPicker,
    target: Target,
    event: PointerEvent,
)
    requires
        !picker.rect_of(target).measured(),
    ensures
        picker.mapped(target, event) == picker.color,
{
}

} // verus!
