//! The header widget itself: sizing, rendering and hit-testing.
//!
//! The header resolves the space the host offers into concrete bounds, emits
//! its appearance as an ordered sequence of filled-rectangle draw commands,
//! and classifies each left-button press within its bounds into a gesture:
//! one of the three control buttons, or the start of a window drag. Button
//! geometry is computed by one shared function in both the rendering and the
//! hit-testing pass, so the two can never drift apart.

use vstd::prelude::*;
use crate::geometry::{Point, Rect, Size, COORD_LIMIT};
use crate::style::{Background, BorderBottom, Color, Length, spec_white};
use crate::event::{Cursor, Event, MouseButton, MouseEvent, Status, spec_is_left_press};

verus! {

/// The width of each control button, in whole units.
pub const BUTTON_WIDTH: i64 = 40;

/// How many control buttons the header shows.
pub const BUTTON_COUNT: usize = 3;

/// The gesture the header emits for a captured press: one of the three
/// control buttons, or the start of a window drag at the given point.
#[derive(Clone, Copy, Debug, PartialEq, Eq, Structural)]
pub enum Message {
    Minimize,
    Maximize,
    Close,
    Drag(Point),
}

/// One filled-rectangle draw command.
#[derive(Clone, Copy, Debug, PartialEq, Eq, Structural)]
pub struct Quad {
    pub bounds: Rect,
    pub fill: Background,
}

/// The header's sizing policy on both axes.
#[derive(Clone, Copy, Debug, PartialEq, Eq, Structural)]
pub struct SizePolicy {
    pub width: Length,
    pub height: Length,
}

/// A customizable window header widget: sizing policy, background fill and
/// an optional bottom border. Immutable once configured.
#[derive(Clone, Copy, Debug, PartialEq, Eq, Structural)]
pub struct CustomHeader {
    pub width: Length,
    pub height: Length,
    pub background_color: Background,
    pub border_bottom: Option<BorderBottom>,
}

/// How one axis resolves: a fill policy consumes the whole offered extent, a
/// fixed policy its configured extent clamped to the offered one. Never
/// negative when the offered extent is not.
pub open spec fn spec_resolve_axis(policy: Length, offered: i64) -> int {
    match policy {
        Length::Fill => offered as int,
        Length::Fixed(v) => if v as int <= offered as int {
            v as int
        } else {
            offered as int
        },
    }
}

/// Resolves one axis of the sizing policy against the offered extent.
pub fn resolve_axis(policy: Length, offered: i64) -> (r: i64)
    requires
        0 <= offered <= COORD_LIMIT,
    ensures
        r == spec_resolve_axis(policy, offered),
        0 <= r <= offered,
{
    match policy {
        Length::Fill => offered,
        Length::Fixed(v) => {
            let fixed: i64 = v as i64;
            if fixed <= offered {
                fixed
            } else {
                offered
            }
        },
    }
}

/// The rectangle of button `i` within `bounds`. Buttons stack right to left
/// with no gaps, each `BUTTON_WIDTH` wide and the full header height:
/// index 0 (close) is rightmost, then 1 (maximize), then 2 (minimize).
pub open spec fn spec_button_rect(bounds: Rect, i: int) -> Rect {
    Rect {
        x: (bounds.x + bounds.width - BUTTON_WIDTH * (i + 1)) as i64,
        y: bounds.y,
        width: BUTTON_WIDTH,
        height: bounds.height,
    }
}

/// The gesture bound to button `i`, in the fixed right-to-left order.
pub open spec fn spec_button_gesture(i: int) -> Message {
    if i == 0 {
        Message::Close
    } else if i == 1 {
        Message::Maximize
    } else {
        Message::Minimize
    }
}

/// The flat color of button `i`: red, green, yellow.
pub open spec fn spec_button_color(i: int) -> Color {
    if i == 0 {
        Color { r: 1000, g: 0, b: 0, a: 1000 }
    } else if i == 1 {
        Color { r: 0, g: 1000, b: 0, a: 1000 }
    } else {
        Color { r: 1000, g: 1000, b: 0, a: 1000 }
    }
}

/// Computes the rectangle of button `i` within `bounds`. Both the rendering
/// and the hit-testing pass go through this one function.
pub fn button_rect(bounds: &Rect, i: usize) -> (r: Rect)
    requires
        bounds.wf(),
        i < BUTTON_COUNT,
    ensures
        r == spec_button_rect(*bounds, i as int),
        r.edges_fit(),
{
    let offset: i64 = BUTTON_WIDTH * (i as i64 + 1);
    Rect {
        x: bounds.x + bounds.width - offset,
        y: bounds.y,
        width: BUTTON_WIDTH,
        height: bounds.height,
    }
}

/// The gesture bound to button `i`.
pub fn button_gesture(i: usize) -> (m: Message)
    requires
        i < BUTTON_COUNT,
    ensures
        m == spec_button_gesture(i as int),
{
    if i == 0 {
        Message::Close
    } else if i == 1 {
        Message::Maximize
    } else {
        Message::Minimize
    }
}

/// The flat color of button `i`.
pub fn button_color(i: usize) -> (c: Color)
    requires
        i < BUTTON_COUNT,
    ensures
        c == spec_button_color(i as int),
{
    if i == 0 {
        Color { r: 1000, g: 0, b: 0, a: 1000 }
    } else if i == 1 {
        Color { r: 0, g: 1000, b: 0, a: 1000 }
    } else {
        Color { r: 1000, g: 1000, b: 0, a: 1000 }
    }
}

/// The strip of the given thickness flush with the bottom edge of `bounds`.
pub open spec fn spec_border_rect(bounds: Rect, thickness: u32) -> Rect {
    Rect {
        x: bounds.x,
        y: (bounds.y + bounds.height - thickness) as i64,
        width: bounds.width,
        height: thickness as i64,
    }
}

/// The draw commands emitted before the buttons: the background fill, then
/// the bottom border strip when one is configured.
pub open spec fn spec_background_quads(h: CustomHeader, bounds: Rect) -> Seq<Quad> {
    match h.border_bottom {
        Some(border) => seq![
            Quad { bounds, fill: h.background_color },
            Quad {
                bounds: spec_border_rect(bounds, border.thickness),
                fill: Background::Color(border.color),
            },
        ],
        None => seq![Quad { bounds, fill: h.background_color }],
    }
}

/// The three button draw commands, in right-to-left order: close, maximize,
/// minimize.
pub open spec fn spec_button_quads(bounds: Rect) -> Seq<Quad> {
    seq![
        Quad { bounds: spec_button_rect(bounds, 0), fill: Background::Color(spec_button_color(0)) },
        Quad { bounds: spec_button_rect(bounds, 1), fill: Background::Color(spec_button_color(1)) },
        Quad { bounds: spec_button_rect(bounds, 2), fill: Background::Color(spec_button_color(2)) },
    ]
}

/// Everything one rendering pass draws, in order: background, then the
/// optional bottom border, then the three buttons.
pub open spec fn spec_draw_commands(h: CustomHeader, bounds: Rect) -> Seq<Quad> {
    spec_background_quads(h, bounds) + spec_button_quads(bounds)
}

/// How a left press at `p`, inside `bounds`, classifies: the first button
/// rectangle containing `p` wins, tested in the order close, maximize,
/// minimize; off every button the press starts a drag at `p`.
pub open spec fn spec_classify(bounds: Rect, p: Point) -> Message {
    if spec_button_rect(bounds, 0).spec_contains(p) {
        Message::Close
    } else if spec_button_rect(bounds, 1).spec_contains(p) {
        Message::Maximize
    } else if spec_button_rect(bounds, 2).spec_contains(p) {
        Message::Minimize
    } else {
        Message::Drag(p)
    }
}

/// The complete per-event outcome: a left press with the cursor over the
/// header is captured and emits exactly one gesture; every other event is
/// ignored and emits nothing.
pub open spec fn spec_on_event(event: Event, bounds: Rect, cursor: Cursor) -> (Status, Option<
    Message,
>) {
    if spec_is_left_press(event) && cursor.spec_is_over(bounds) {
        (Status::Captured, Some(spec_classify(bounds, cursor.spec_position_or_origin())))
    } else {
        (Status::Ignored, None)
    }
}

impl CustomHeader {
    /// A header that fills the offered width, is 40 units tall, has a white
    /// background and no bottom border.
    pub fn new() -> (h: Self)
        ensures
            h.width == Length::Fill,
            h.height == Length::Fixed(40u32),
            h.background_color == Background::Color(spec_white()),
            h.border_bottom is None,
    {
        Self {
            width: Length::Fill,
            height: Length::Fixed(40),
            background_color: Background::Color(Color { r: 1000, g: 1000, b: 1000, a: 1000 }),
            border_bottom: None,
        }
    }

    /// Sets the header width policy.
    pub fn width(self, width: Length) -> (h: Self)
        ensures
            h.width == width,
            h.height == self.height,
            h.background_color == self.background_color,
            h.border_bottom == self.border_bottom,
    {
        Self { width, ..self }
    }

    /// Sets the header height policy.
    pub fn height(self, height: Length) -> (h: Self)
        ensures
            h.width == self.width,
            h.height == height,
            h.background_color == self.background_color,
            h.border_bottom == self.border_bottom,
    {
        Self { height, ..self }
    }

    /// Sets the background fill of the header.
    pub fn background_color(self, color: Background) -> (h: Self)
        ensures
            h.width == self.width,
            h.height == self.height,
            h.background_color == color,
            h.border_bottom == self.border_bottom,
    {
        Self { background_color: color, ..self }
    }

    /// Adds a bottom border of the given thickness and color.
    pub fn border_bottom(self, width: u32, color: Color) -> (h: Self)
        ensures
            h.width == self.width,
            h.height == self.height,
            h.background_color == self.background_color,
            h.border_bottom == Some(BorderBottom { thickness: width, color }),
    {
        Self { border_bottom: Some(BorderBottom { thickness: width, color }), ..self }
    }

    /// The configured sizing policy on both axes.
    pub fn size(&self) -> (s: SizePolicy)
        ensures
            s.width == self.width,
            s.height == self.height,
    {
        SizePolicy { width: self.width, height: self.height }
    }

    /// Resolves the offered space into the header's concrete size for this
    /// pass: never negative, never larger than the offered space, fixed
    /// extents honored up to the offered space, fill policies consuming it.
    pub fn layout(&self, offered: Size) -> (r: Size)
        requires
            offered.wf(),
        ensures
            r.width == spec_resolve_axis(self.width, offered.width),
            r.height == spec_resolve_axis(self.height, offered.height),
            r.wf(),
            0 <= r.width <= offered.width,
            0 <= r.height <= offered.height,
    {
        Size {
            width: resolve_axis(self.width, offered.width),
            height: resolve_axis(self.height, offered.height),
        }
    }

    /// Emits this pass's draw commands for the given resolved bounds, in
    /// order: background, optional bottom border, then the three buttons.
    pub fn draw_commands(&self, bounds: &Rect) -> (r: Vec<Quad>)
        requires
            bounds.wf(),
        ensures
            r@ == spec_draw_commands(*self, *bounds),
    {
        let mut quads: Vec<Quad> = Vec::new();
        quads.push(Quad { bounds: *bounds, fill: self.background_color });
        if let Some(border) = self.border_bottom {
            let t: i64 = border.thickness as i64;
            quads.push(
                Quad {
                    bounds: Rect {
                        x: bounds.x,
                        y: bounds.y + bounds.height - t,
                        width: bounds.width,
                        height: t,
                    },
                    fill: Background::Color(border.color),
                },
            );
        }
        quads.push(Quad { bounds: button_rect(bounds, 0), fill: Background::Color(button_color(0)) });
        quads.push(Quad { bounds: button_rect(bounds, 1), fill: Background::Color(button_color(1)) });
        quads.push(Quad { bounds: button_rect(bounds, 2), fill: Background::Color(button_color(2)) });
        proof {
            assert(quads@ =~= spec_draw_commands(*self, *bounds));
        }
        quads
    }

    /// Classifies one host event against the given resolved bounds. At most
    /// one gesture is emitted, exactly when a left press lands inside the
    /// bounds; the buttons are tested right to left, and a press on none of
    /// them starts a drag at the pointer's position.
    #[verifier::loop_isolation(false)]
    pub fn on_event(&self, event: &Event, bounds: &Rect, cursor: &Cursor) -> (r: (
        Status,
        Option<Message>,
    ))
        requires
            bounds.wf(),
        ensures
            r == spec_on_event(*event, *bounds, *cursor),
    {
        match event {
            Event::Mouse(MouseEvent::ButtonPressed(MouseButton::Left)) => {
                match cursor {
                    Cursor::Available(p) => {
                        if bounds.contains(*p) {
                            let mut i: usize = 0;
                            while i < BUTTON_COUNT
                                invariant
                                    i <= BUTTON_COUNT,
                                    forall|j: int|
                                        0 <= j < i ==> !spec_button_rect(*bounds, j).spec_contains(
                                            *p,
                                        ),
                                decreases BUTTON_COUNT - i,
                            {
                                let button: Rect = button_rect(bounds, i);
                                if button.contains(*p) {
                                    return (Status::Captured, Some(button_gesture(i)));
                                }
                                i = i + 1;
                            }
                            (Status::Captured, Some(Message::Drag(*p)))
                        } else {
                            (Status::Ignored, None)
                        }
                    },
                    Cursor::Unavailable => (Status::Ignored, None),
                }
            },
            _ => (Status::Ignored, None),
        }
    }
}

/// A fresh header with the default configuration, ready for builder-style
/// reconfiguration.
pub fn custom_header() -> (h: CustomHeader)
    ensures
        h.width == Length::Fill,
        h.height == Length::Fixed(40u32),
        h.background_color == Background::Color(spec_white()),
        h.border_bottom is None,
{
    CustomHeader::new()
}

/// A fixed-height configuration resolves, for every offered space, to the
/// fixed value clamped to the offered height, and is never negative.
pub proof fn lemma_fixed_height_clamped(h: CustomHeader, offered: Size, fixed: u32)
    requires
        offered.wf(),
        h.height == Length::Fixed(fixed),
    ensures
        spec_resolve_axis(h.height, offered.height) == (if fixed as int <= offered.height as int {
            fixed as int
        } else {
            offered.height as int
        }),
        0 <= spec_resolve_axis(h.height, offered.height) <= offered.height,
{
}

/// The three button rectangles are pairwise disjoint: no point lies in two
/// of them, so a press can match at most one button.
pub proof fn lemma_buttons_disjoint(bounds: Rect, i: int, j: int, p: Point)
    requires
        bounds.wf(),
        0 <= i < BUTTON_COUNT,
        0 <= j < BUTTON_COUNT,
        i != j,
    ensures
        !(spec_button_rect(bounds, i).spec_contains(p) && spec_button_rect(bounds, j)
            .spec_contains(p)),
{
}

/// Within the header bounds, classification goes by 40-unit columns from the
/// right edge: the rightmost column is `Close`, the next `Maximize`, the
/// next `Minimize`, and everything farther left starts a drag.
pub proof fn lemma_button_columns(bounds: Rect, p: Point)
    requires
        bounds.wf(),
        bounds.spec_contains(p),
    ensures
        bounds.x + bounds.width - BUTTON_WIDTH <= p.x ==> spec_classify(bounds, p)
            == Message::Close,
        bounds.x + bounds.width - 2 * BUTTON_WIDTH <= p.x < bounds.x + bounds.width - BUTTON_WIDTH
            ==> spec_classify(bounds, p) == Message::Maximize,
        bounds.x + bounds.width - 3 * BUTTON_WIDTH <= p.x < bounds.x + bounds.width - 2
            * BUTTON_WIDTH ==> spec_classify(bounds, p) == Message::Minimize,
        p.x < bounds.x + bounds.width - 3 * BUTTON_WIDTH ==> spec_classify(bounds, p)
            == Message::Drag(p),
{
}

/// The button rectangles the rendering pass draws are the very rectangles
/// the hit-testing pass classifies against: for each button `i`, the quad
/// drawn after the background covers exactly `spec_button_rect(bounds, i)`,
/// the rectangle `spec_classify` tests.
pub proof fn lemma_render_hit_geometry_agree(h: CustomHeader, bounds: Rect, i: int)
    requires
        0 <= i < BUTTON_COUNT,
    ensures
        spec_draw_commands(h, bounds)[spec_background_quads(h, bounds).len() + i].bounds
            == spec_button_rect(bounds, i),
{
}

/// An event is captured exactly when it produces a gesture, and it produces
/// at most one: a left press with the cursor over the header bounds emits
/// one message and is captured, and every other event emits nothing and is
/// ignored.
pub proof fn lemma_capture_iff_gesture(event: Event, bounds: Rect, cursor: Cursor)
    ensures
        spec_on_event(event, bounds, cursor).0 == Status::Captured <==> spec_on_event(
            event,
            bounds,
            cursor,
        ).1 is Some,
        spec_on_event(event, bounds, cursor).0 == Status::Captured <==> spec_is_left_press(event)
            && cursor.spec_is_over(bounds),
{
}

/// Layout and rendering are deterministic: two passes over the same style,
/// the same offered space and the same resolved bounds yield identical
/// resolved sizes and identical draw-command sequences.
pub proof fn lemma_passes_identical(
    h1: CustomHeader,
    h2: CustomHeader,
    offered1: Size,
    offered2: Size,
    bounds1: Rect,
    bounds2: Rect,
)
    requires
        h1 == h2,
        offered1 == offered2,
        bounds1 == bounds2,
    ensures
        spec_resolve_axis(h1.width, offered1.width) == spec_resolve_axis(h2.width, offered2.width),
        spec_resolve_axis(h1.height, offered1.height) == spec_resolve_axis(
            h2.height,
            offered2.height,
        ),
        spec_draw_commands(h1, bounds1) == spec_draw_commands(h2, bounds2),
{
}

} // verus!
