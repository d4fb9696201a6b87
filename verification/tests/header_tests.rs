use custom_header::dispatch::{handle_header_message, WindowAction};
use custom_header::event::{Cursor, Event, MouseButton, MouseEvent, Status};
use custom_header::geometry::{Point, Rect, Size};
use custom_header::header::{custom_header, CustomHeader, Message, Quad};
use custom_header::style::{Background, BorderBottom, Color, Length};

fn press() -> Event {
    Event::Mouse(MouseEvent::ButtonPressed(MouseButton::Left))
}

fn white() -> Color {
    Color { r: 1000, g: 1000, b: 1000, a: 1000 }
}

fn red() -> Color {
    Color { r: 1000, g: 0, b: 0, a: 1000 }
}

fn green() -> Color {
    Color { r: 0, g: 1000, b: 0, a: 1000 }
}

fn yellow() -> Color {
    Color { r: 1000, g: 1000, b: 0, a: 1000 }
}

fn scenario_bounds() -> Rect {
    Rect { x: 0, y: 0, width: 200, height: 40 }
}

#[test]
fn scenario_close_press() {
    let h = CustomHeader::new();
    let r = h.on_event(
        &press(),
        &scenario_bounds(),
        &Cursor::Available(Point { x: 190, y: 20 }),
    );
    assert_eq!(r.0, Status::Captured);
    assert_eq!(r.1, Some(Message::Close));
    assert_eq!(handle_header_message(r.1.unwrap()), WindowAction::Close);
}

#[test]
fn scenario_maximize_press() {
    let h = CustomHeader::new();
    let r = h.on_event(
        &press(),
        &scenario_bounds(),
        &Cursor::Available(Point { x: 150, y: 20 }),
    );
    assert_eq!(r.0, Status::Captured);
    assert_eq!(r.1, Some(Message::Maximize));
    assert_eq!(handle_header_message(r.1.unwrap()), WindowAction::ToggleMaximize);
}

#[test]
fn scenario_minimize_press() {
    let h = CustomHeader::new();
    let r = h.on_event(
        &press(),
        &scenario_bounds(),
        &Cursor::Available(Point { x: 110, y: 20 }),
    );
    assert_eq!(r.0, Status::Captured);
    assert_eq!(r.1, Some(Message::Minimize));
    assert_eq!(handle_header_message(r.1.unwrap()), WindowAction::Minimize);
}

#[test]
fn scenario_drag_press() {
    let h = CustomHeader::new();
    let r = h.on_event(
        &press(),
        &scenario_bounds(),
        &Cursor::Available(Point { x: 50, y: 20 }),
    );
    assert_eq!(r.0, Status::Captured);
    assert_eq!(r.1, Some(Message::Drag(Point { x: 50, y: 20 })));
    assert_eq!(handle_header_message(r.1.unwrap()), WindowAction::BeginDrag);
}

#[test]
fn scenario_outside_press_ignored() {
    let h = CustomHeader::new();
    let r = h.on_event(
        &press(),
        &scenario_bounds(),
        &Cursor::Available(Point { x: 0, y: 50 }),
    );
    assert_eq!(r.0, Status::Ignored);
    assert_eq!(r.1, None);
}

#[test]
fn column_boundaries() {
    let h = CustomHeader::new();
    let b = scenario_bounds();
    // Right edge is outside the half-open bounds.
    let r = h.on_event(&press(), &b, &Cursor::Available(Point { x: 200, y: 20 }));
    assert_eq!((r.0, r.1), (Status::Ignored, None));
    // First unit of the close column.
    let r = h.on_event(&press(), &b, &Cursor::Available(Point { x: 160, y: 20 }));
    assert_eq!(r.1, Some(Message::Close));
    // Last unit of the maximize column.
    let r = h.on_event(&press(), &b, &Cursor::Available(Point { x: 159, y: 20 }));
    assert_eq!(r.1, Some(Message::Maximize));
    // First unit of the minimize column.
    let r = h.on_event(&press(), &b, &Cursor::Available(Point { x: 80, y: 20 }));
    assert_eq!(r.1, Some(Message::Minimize));
    // Just left of every button: a drag.
    let r = h.on_event(&press(), &b, &Cursor::Available(Point { x: 79, y: 20 }));
    assert_eq!(r.1, Some(Message::Drag(Point { x: 79, y: 20 })));
}

#[test]
fn narrow_header_buttons_overhang_left() {
    // A header narrower than three buttons: the maximize column overhangs the
    // left edge, and the part of it inside the bounds still wins.
    let h = CustomHeader::new();
    let b = Rect { x: 0, y: 0, width: 50, height: 40 };
    let r = h.on_event(&press(), &b, &Cursor::Available(Point { x: 5, y: 20 }));
    assert_eq!(r.1, Some(Message::Maximize));
    let r = h.on_event(&press(), &b, &Cursor::Available(Point { x: 20, y: 20 }));
    assert_eq!(r.1, Some(Message::Close));
}

#[test]
fn zero_area_bounds_capture_nothing() {
    let h = CustomHeader::new();
    let b = Rect { x: 0, y: 0, width: 0, height: 0 };
    let r = h.on_event(&press(), &b, &Cursor::Available(Point { x: 0, y: 0 }));
    assert_eq!((r.0, r.1), (Status::Ignored, None));
}

#[test]
fn non_left_buttons_and_other_events_ignored() {
    let h = CustomHeader::new();
    let b = scenario_bounds();
    let over = Cursor::Available(Point { x: 100, y: 20 });
    let cases = vec![
        Event::Mouse(MouseEvent::ButtonPressed(MouseButton::Right)),
        Event::Mouse(MouseEvent::ButtonPressed(MouseButton::Middle)),
        Event::Mouse(MouseEvent::ButtonPressed(MouseButton::Other(7))),
        Event::Mouse(MouseEvent::ButtonReleased(MouseButton::Left)),
        Event::Mouse(MouseEvent::CursorMoved(Point { x: 100, y: 20 })),
        Event::Mouse(MouseEvent::CursorEntered),
        Event::Mouse(MouseEvent::CursorLeft),
        Event::Mouse(MouseEvent::WheelScrolled),
        Event::Keyboard,
        Event::Window,
        Event::Touch,
    ];
    for event in cases {
        let r = h.on_event(&event, &b, &over);
        assert_eq!((r.0, r.1), (Status::Ignored, None));
    }
}

#[test]
fn unavailable_cursor_ignored() {
    let h = CustomHeader::new();
    let r = h.on_event(&press(), &scenario_bounds(), &Cursor::Unavailable);
    assert_eq!((r.0, r.1), (Status::Ignored, None));
}

#[test]
fn cursor_position_fallback_is_origin() {
    assert_eq!(
        Cursor::Unavailable.position_or_origin(),
        Point { x: 0, y: 0 }
    );
    assert_eq!(
        Cursor::Available(Point { x: 3, y: 4 }).position_or_origin(),
        Point { x: 3, y: 4 }
    );
}

#[test]
fn fixed_height_clamps_to_offered_space() {
    let h = custom_header().height(Length::Fixed(40));
    assert_eq!(
        h.layout(Size { width: 500, height: 300 }),
        Size { width: 500, height: 40 }
    );
    // Offered less than the fixed extent: clamped, not negative.
    assert_eq!(
        h.layout(Size { width: 500, height: 10 }),
        Size { width: 500, height: 10 }
    );
    assert_eq!(
        h.layout(Size { width: 0, height: 0 }),
        Size { width: 0, height: 0 }
    );
}

#[test]
fn fixed_width_and_fill_height() {
    let h = custom_header().width(Length::Fixed(120)).height(Length::Fill);
    assert_eq!(
        h.layout(Size { width: 500, height: 300 }),
        Size { width: 120, height: 300 }
    );
    assert_eq!(
        h.layout(Size { width: 60, height: 300 }),
        Size { width: 60, height: 300 }
    );
}

#[test]
fn builders_configure_fields() {
    let h = custom_header()
        .width(Length::Fill)
        .height(Length::Fixed(40))
        .background_color(Background::Color(white()))
        .border_bottom(1, Color { r: 800, g: 800, b: 800, a: 1000 });
    let policy = h.size();
    assert_eq!(policy.width, Length::Fill);
    assert_eq!(policy.height, Length::Fixed(40));
    assert_eq!(h.background_color, Background::Color(white()));
    assert_eq!(
        h.border_bottom,
        Some(BorderBottom { thickness: 1, color: Color { r: 800, g: 800, b: 800, a: 1000 } })
    );
}

#[test]
fn draw_commands_without_border() {
    let h = CustomHeader::new();
    let b = scenario_bounds();
    let quads = h.draw_commands(&b);
    let expected = vec![
        Quad { bounds: b, fill: Background::Color(white()) },
        Quad {
            bounds: Rect { x: 160, y: 0, width: 40, height: 40 },
            fill: Background::Color(red()),
        },
        Quad {
            bounds: Rect { x: 120, y: 0, width: 40, height: 40 },
            fill: Background::Color(green()),
        },
        Quad {
            bounds: Rect { x: 80, y: 0, width: 40, height: 40 },
            fill: Background::Color(yellow()),
        },
    ];
    assert_eq!(quads, expected);
}

#[test]
fn draw_commands_border_between_background_and_buttons() {
    let gray = Color { r: 800, g: 800, b: 800, a: 1000 };
    let h = CustomHeader::new().border_bottom(1, gray);
    let b = Rect { x: 10, y: 5, width: 200, height: 40 };
    let quads = h.draw_commands(&b);
    assert_eq!(quads.len(), 5);
    // Background first, covering the full bounds.
    assert_eq!(quads[0], Quad { bounds: b, fill: Background::Color(white()) });
    // The border strip second: flush with the bottom edge, full width.
    assert_eq!(
        quads[1],
        Quad {
            bounds: Rect { x: 10, y: 44, width: 200, height: 1 },
            fill: Background::Color(gray),
        }
    );
    // Then the buttons, right to left.
    assert_eq!(
        quads[2],
        Quad {
            bounds: Rect { x: 170, y: 5, width: 40, height: 40 },
            fill: Background::Color(red()),
        }
    );
    assert_eq!(
        quads[3],
        Quad {
            bounds: Rect { x: 130, y: 5, width: 40, height: 40 },
            fill: Background::Color(green()),
        }
    );
    assert_eq!(
        quads[4],
        Quad {
            bounds: Rect { x: 90, y: 5, width: 40, height: 40 },
            fill: Background::Color(yellow()),
        }
    );
}

#[test]
fn degenerate_bounds_still_draw_invisibly() {
    let h = CustomHeader::new();
    let b = Rect { x: 0, y: 0, width: 0, height: 0 };
    let quads = h.draw_commands(&b);
    assert_eq!(quads.len(), 4);
    assert_eq!(quads[0].bounds, b);
    // Every button quad has zero height.
    assert!(quads.iter().skip(1).all(|q| q.bounds.height == 0));
}

#[test]
fn repeated_passes_are_bit_identical() {
    let h = custom_header()
        .border_bottom(2, Color { r: 800, g: 800, b: 800, a: 1000 });
    let offered = Size { width: 640, height: 480 };
    let first_size = h.layout(offered);
    let second_size = h.layout(offered);
    assert_eq!(first_size, second_size);

    let bounds = Rect { x: 0, y: 0, width: first_size.width, height: first_size.height };
    let first_draw = h.draw_commands(&bounds);
    let second_draw = h.draw_commands(&bounds);
    assert_eq!(first_draw, second_draw);

    let cursor = Cursor::Available(Point { x: 321, y: 12 });
    let first_event = h.on_event(&press(), &bounds, &cursor);
    let second_event = h.on_event(&press(), &bounds, &cursor);
    assert_eq!(first_event, second_event);
}

#[test]
fn dispatcher_is_total() {
    assert_eq!(handle_header_message(Message::Minimize), WindowAction::Minimize);
    assert_eq!(handle_header_message(Message::Maximize), WindowAction::ToggleMaximize);
    assert_eq!(handle_header_message(Message::Close), WindowAction::Close);
    assert_eq!(
        handle_header_message(Message::Drag(Point { x: 50, y: 20 })),
        WindowAction::BeginDrag
    );
    assert_eq!(
        handle_header_message(Message::Drag(Point { x: -7, y: 999 })),
        WindowAction::BeginDrag
    );
}

#[test]
fn default_header_configuration() {
    let h = CustomHeader::new();
    assert_eq!(h.width, Length::Fill);
    assert_eq!(h.height, Length::Fixed(40));
    assert_eq!(h.background_color, Background::Color(white()));
    assert_eq!(h.border_bottom, None);
}
