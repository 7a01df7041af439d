use bg_maker::geometry::{Anchor, Axis, Guide, Pivot, Point, Rectangle, SnapPoint};
use bg_maker::interaction::{
    pivot_to_cursor, position_to_pivot, CursorHint, Event, Intent, Interaction,
};
use bg_maker::maker_canvas::MakerCanvas;

fn widget() -> Rectangle {
    Rectangle::new(10, 20, 1280, 720)
}

fn two_layers() -> MakerCanvas {
    let mut canvas = MakerCanvas::new(1280, 720);
    canvas.add_layer("below".to_string(), Rectangle::new(0, 0, 100, 100));
    canvas.add_layer("above".to_string(), Rectangle::new(50, 50, 100, 100));
    canvas
}

#[test]
fn interaction_starts_idle() {
    assert_eq!(Interaction::default(), Interaction::Idle);
}

#[test]
fn pivot_names_the_edge_that_stays() {
    let rect = Rectangle::new(100, 100, 200, 100);
    let at = |x: i32, y: i32| position_to_pivot(Point::new(x, y), &rect, 4);
    assert_eq!(at(101, 150), Some(Pivot::new(Anchor::End, Anchor::Center)));
    assert_eq!(at(299, 150), Some(Pivot::new(Anchor::Start, Anchor::Center)));
    assert_eq!(at(200, 98), Some(Pivot::new(Anchor::Center, Anchor::End)));
    assert_eq!(at(200, 203), Some(Pivot::new(Anchor::Center, Anchor::Start)));
    assert_eq!(at(299, 199), Some(Pivot::new(Anchor::Start, Anchor::Start)));
    assert_eq!(at(100, 100), Some(Pivot::new(Anchor::End, Anchor::End)));
    assert_eq!(at(303, 97), Some(Pivot::new(Anchor::Start, Anchor::End)));
    assert_eq!(at(97, 201), Some(Pivot::new(Anchor::End, Anchor::Start)));
    assert_eq!(at(200, 150), None);
}

#[test]
fn grab_distance_is_strict() {
    let rect = Rectangle::new(100, 100, 200, 100);
    let at = |x: i32, y: i32| position_to_pivot(Point::new(x, y), &rect, 4);
    assert_eq!(at(104, 150), None);
    assert_eq!(at(96, 150), None);
    assert_eq!(at(103, 150), Some(Pivot::new(Anchor::End, Anchor::Center)));
    assert_eq!(at(97, 150), Some(Pivot::new(Anchor::End, Anchor::Center)));
    assert_eq!(at(296, 150), None);
    assert_eq!(at(304, 150), None);
    assert_eq!(at(200, 104), None);
    assert_eq!(at(200, 196), None);
}

#[test]
fn an_edge_is_grabbed_along_its_whole_line() {
    let rect = Rectangle::new(100, 100, 200, 100);
    assert_eq!(
        position_to_pivot(Point::new(101, 5000), &rect, 4),
        Some(Pivot::new(Anchor::End, Anchor::Center))
    );
}

#[test]
fn first_edge_wins_on_a_rectangle_thinner_than_the_grab_distance() {
    let rect = Rectangle::new(100, 100, 2, 100);
    assert_eq!(
        position_to_pivot(Point::new(101, 150), &rect, 4),
        Some(Pivot::new(Anchor::End, Anchor::Center))
    );
}

#[test]
fn cursor_follows_the_pivot() {
    let rect = Rectangle::new(0, 0, 100, 100);
    let inside = Point::new(50, 50);
    let cursor = |x: Anchor, y: Anchor| pivot_to_cursor(inside, &rect, Some(Pivot::new(x, y)));
    assert_eq!(cursor(Anchor::Start, Anchor::Start), CursorHint::ResizingDiagonallyDown);
    assert_eq!(cursor(Anchor::End, Anchor::End), CursorHint::ResizingDiagonallyDown);
    assert_eq!(cursor(Anchor::Start, Anchor::End), CursorHint::ResizingDiagonallyUp);
    assert_eq!(cursor(Anchor::End, Anchor::Start), CursorHint::ResizingDiagonallyUp);
    assert_eq!(cursor(Anchor::Start, Anchor::Center), CursorHint::ResizingHorizontally);
    assert_eq!(cursor(Anchor::End, Anchor::Center), CursorHint::ResizingHorizontally);
    assert_eq!(cursor(Anchor::Center, Anchor::Start), CursorHint::ResizingVertically);
    assert_eq!(cursor(Anchor::Center, Anchor::End), CursorHint::ResizingVertically);
    assert_eq!(cursor(Anchor::Center, Anchor::Center), CursorHint::Normal);
    assert_eq!(pivot_to_cursor(inside, &rect, None), CursorHint::Move);
    assert_eq!(pivot_to_cursor(Point::new(100, 50), &rect, None), CursorHint::Normal);
    assert_eq!(pivot_to_cursor(Point::new(-1, 50), &rect, None), CursorHint::Normal);
}

#[test]
fn press_selects_the_topmost_layer() {
    let canvas = two_layers();
    let mut state = Interaction::Idle;
    let intent = canvas.update(&mut state, &Event::LeftPressed, widget(), Some(Point::new(85, 95)));
    assert_eq!(intent, Some(Intent::SelectLayer(1)));
    assert_eq!(state, Interaction::Idle);
    let intent = canvas.update(&mut state, &Event::LeftPressed, widget(), Some(Point::new(35, 45)));
    assert_eq!(intent, Some(Intent::SelectLayer(0)));
    assert_eq!(canvas.hit_test(Point::new(75, 75)), Some(1));
    assert_eq!(canvas.hit_test(Point::new(25, 25)), Some(0));
    assert_eq!(canvas.hit_test(Point::new(149, 149)), Some(1));
    assert_eq!(canvas.hit_test(Point::new(150, 150)), None);
}

#[test]
fn press_on_nothing_asks_to_deselect() {
    let mut canvas = two_layers();
    let mut state = Interaction::Idle;
    let cursor = Some(Point::new(510, 520));
    assert_eq!(
        canvas.update(&mut state, &Event::LeftPressed, widget(), cursor),
        Some(Intent::DeselectLayers)
    );
    canvas.select_layer(1);
    assert_eq!(
        canvas.update(&mut state, &Event::LeftPressed, widget(), cursor),
        Some(Intent::DeselectLayers)
    );
    assert_eq!(state, Interaction::Idle);
}

#[test]
fn press_without_cursor_does_nothing() {
    let mut canvas = two_layers();
    canvas.select_layer(1);
    let mut state = Interaction::Idle;
    assert_eq!(canvas.update(&mut state, &Event::LeftPressed, widget(), None), None);
    assert_eq!(state, Interaction::Idle);
}

#[test]
fn press_on_the_selected_layer_begins_a_drag() {
    let mut canvas = two_layers();
    canvas.select_layer(1);
    let mut state = Interaction::Idle;
    let position = Point::new(85, 95);
    let intent = canvas.update(&mut state, &Event::LeftPressed, widget(), Some(position));
    assert_eq!(intent, Some(Intent::StartDrag));
    assert_eq!(state, Interaction::Dragging { position });
}

#[test]
fn press_on_a_covered_selected_layer_selects_the_one_on_top() {
    let mut canvas = two_layers();
    canvas.select_layer(0);
    let mut state = Interaction::Idle;
    let intent = canvas.update(&mut state, &Event::LeftPressed, widget(), Some(Point::new(85, 95)));
    assert_eq!(intent, Some(Intent::SelectLayer(1)));
    assert_eq!(state, Interaction::Idle);
}

#[test]
fn press_on_an_edge_of_the_selected_layer_begins_a_resize() {
    let mut canvas = two_layers();
    canvas.select_layer(1);
    let mut state = Interaction::Idle;
    let position = Point::new(61, 120);
    let intent = canvas.update(&mut state, &Event::LeftPressed, widget(), Some(position));
    assert_eq!(intent, Some(Intent::StartDrag));
    assert_eq!(
        state,
        Interaction::Resizing { position, pivot: Pivot::new(Anchor::End, Anchor::Center) }
    );
    let mut state = Interaction::Idle;
    let position = Point::new(162, 172);
    canvas.update(&mut state, &Event::LeftPressed, widget(), Some(position));
    assert_eq!(
        state,
        Interaction::Resizing { position, pivot: Pivot::new(Anchor::Start, Anchor::Start) }
    );
}

#[test]
fn motion_while_dragging_moves_the_selection() {
    let mut canvas = two_layers();
    canvas.select_layer(1);
    let mut state = Interaction::Dragging { position: Point::new(85, 95) };
    let event = Event::CursorMoved { position: Point::new(95, 100) };
    let intent = canvas.update(&mut state, &event, widget(), None);
    assert_eq!(intent, Some(Intent::MoveSelection(Point::new(10, 5), true)));
    assert_eq!(state, Interaction::Dragging { position: Point::new(95, 100) });
    canvas.set_shift_state(true);
    let event = Event::CursorMoved { position: Point::new(90, 100) };
    let intent = canvas.update(&mut state, &event, widget(), None);
    assert_eq!(intent, Some(Intent::MoveSelection(Point::new(-5, 0), false)));
    assert_eq!(state, Interaction::Dragging { position: Point::new(90, 100) });
}

#[test]
fn motion_while_resizing_resizes_the_selection() {
    let mut canvas = two_layers();
    canvas.select_layer(1);
    let pivot = Pivot::new(Anchor::End, Anchor::Center);
    let mut state = Interaction::Resizing { position: Point::new(61, 120), pivot };
    let event = Event::CursorMoved { position: Point::new(51, 127) };
    let intent = canvas.update(&mut state, &event, widget(), None);
    assert_eq!(intent, Some(Intent::ResizeSelection(Point::new(-10, 7), pivot, false)));
    assert_eq!(state, Interaction::Resizing { position: Point::new(51, 127), pivot });
    canvas.set_shift_state(true);
    let event = Event::CursorMoved { position: Point::new(52, 127) };
    let intent = canvas.update(&mut state, &event, widget(), None);
    assert_eq!(intent, Some(Intent::ResizeSelection(Point::new(1, 0), pivot, true)));
}

#[test]
fn motion_while_idle_does_nothing() {
    let canvas = two_layers();
    let mut state = Interaction::Idle;
    let event = Event::CursorMoved { position: Point::new(51, 127) };
    assert_eq!(canvas.update(&mut state, &event, widget(), Some(Point::new(51, 127))), None);
    assert_eq!(state, Interaction::Idle);
}

#[test]
fn release_ends_the_gesture() {
    let canvas = two_layers();
    let mut state = Interaction::Dragging { position: Point::new(1, 2) };
    assert_eq!(
        canvas.update(&mut state, &Event::LeftReleased, widget(), None),
        Some(Intent::LeftButtonReleased)
    );
    assert_eq!(state, Interaction::Idle);
    assert_eq!(canvas.update(&mut state, &Event::LeftReleased, widget(), None), None);
    assert_eq!(state, Interaction::Idle);
    let pivot = Pivot::new(Anchor::Start, Anchor::Start);
    let mut state = Interaction::Resizing { position: Point::new(1, 2), pivot };
    assert_eq!(
        canvas.update(&mut state, &Event::LeftReleased, widget(), None),
        Some(Intent::LeftButtonReleased)
    );
    assert_eq!(state, Interaction::Idle);
}

#[test]
fn other_events_change_nothing() {
    let canvas = two_layers();
    let mut state = Interaction::Dragging { position: Point::new(1, 2) };
    assert_eq!(canvas.update(&mut state, &Event::Other, widget(), Some(Point::new(5, 5))), None);
    assert_eq!(state, Interaction::Dragging { position: Point::new(1, 2) });
}

#[test]
fn cursor_tells_what_a_press_would_do() {
    let mut canvas = two_layers();
    let idle = Interaction::Idle;
    let hint = |canvas: &MakerCanvas, x: i32, y: i32| {
        canvas.mouse_interaction(&idle, widget(), Some(Point::new(x, y)))
    };
    assert_eq!(hint(&canvas, 85, 95), CursorHint::Normal);
    canvas.select_layer(1);
    assert_eq!(hint(&canvas, 85, 95), CursorHint::Move);
    assert_eq!(hint(&canvas, 61, 120), CursorHint::ResizingHorizontally);
    assert_eq!(hint(&canvas, 110, 169), CursorHint::ResizingVertically);
    assert_eq!(hint(&canvas, 162, 172), CursorHint::ResizingDiagonallyDown);
    assert_eq!(hint(&canvas, 58, 172), CursorHint::ResizingDiagonallyUp);
    assert_eq!(hint(&canvas, 510, 520), CursorHint::Normal);
    assert_eq!(canvas.mouse_interaction(&idle, widget(), None), CursorHint::Normal);
}

#[test]
fn cursor_is_fixed_during_a_gesture() {
    let mut canvas = two_layers();
    canvas.select_layer(1);
    let dragging = Interaction::Dragging { position: Point::new(1, 2) };
    assert_eq!(canvas.mouse_interaction(&dragging, widget(), None), CursorHint::Move);
    let resizing = Interaction::Resizing {
        position: Point::new(1, 2),
        pivot: Pivot::new(Anchor::Center, Anchor::Start),
    };
    assert_eq!(
        canvas.mouse_interaction(&resizing, widget(), Some(Point::new(900, 900))),
        CursorHint::ResizingVertically
    );
}

#[test]
fn guides_are_drawn_while_dragging() {
    let mut canvas = MakerCanvas::new(1280, 720);
    canvas.add_layer("a".to_string(), Rectangle::new(0, 0, 400, 300));
    canvas.add_layer("b".to_string(), Rectangle::new(600, 0, 400, 300));
    canvas.select_layer(0);
    canvas.on_start_drag();
    canvas.move_selection(Point::new(198, 0), true);
    let dragging = Interaction::Dragging { position: Point::new(0, 0) };
    assert_eq!(canvas.get_active_snap_guide(&dragging, Axis::Horizontal), Some(600));
    assert_eq!(canvas.get_active_snap_guide(&dragging, Axis::Vertical), Some(0));
    assert_eq!(canvas.get_active_snap_guide(&Interaction::Idle, Axis::Horizontal), None);
    let resizing = Interaction::Resizing {
        position: Point::new(0, 0),
        pivot: Pivot::new(Anchor::Start, Anchor::Start),
    };
    assert_eq!(canvas.get_active_snap_guide(&resizing, Axis::Horizontal), None);
    canvas.on_left_button_released();
    assert_eq!(canvas.get_active_snap_guide(&dragging, Axis::Horizontal), None);
    assert_eq!(canvas.get_active_snap_guide(&dragging, Axis::Vertical), None);
}

#[test]
fn centre_guide_is_drawn_through_the_middle() {
    let mut canvas = MakerCanvas::new(1280, 720);
    canvas.add_layer("a".to_string(), Rectangle::new(0, 200, 101, 50));
    canvas.add_layer("b".to_string(), Rectangle::new(300, 500, 200, 100));
    canvas.select_layer(0);
    canvas.on_start_drag();
    canvas.move_selection(Point::new(348, 0), true);
    assert_eq!(canvas.snap_point(), SnapPoint::of(Guide::Center, Guide::Off));
    let dragging = Interaction::Dragging { position: Point::new(0, 0) };
    assert_eq!(canvas.get_active_snap_guide(&dragging, Axis::Horizontal), Some(399));
    assert_eq!(canvas.get_active_snap_guide(&dragging, Axis::Vertical), None);
}

#[test]
fn a_whole_gesture_through_the_machine() {
    let mut canvas = MakerCanvas::new(1280, 720);
    canvas.add_layer("a".to_string(), Rectangle::new(100, 100, 200, 200));
    let bounds = widget();
    let mut state = Interaction::default();
    let mut feed = |canvas: &mut MakerCanvas, event: Event, cursor: Option<Point>| {
        if let Some(intent) = canvas.update(&mut state, &event, bounds, cursor) {
            canvas.dispatch(intent);
        }
        state
    };
    let at = |x: i32, y: i32| Point::new(x + 10, y + 20);
    // Select, then drag to the left edge of the board and past it.
    feed(&mut canvas, Event::LeftPressed, Some(at(200, 200)));
    assert_eq!(canvas.selected_index(), Some(0));
    feed(&mut canvas, Event::LeftReleased, Some(at(200, 200)));
    let s = feed(&mut canvas, Event::LeftPressed, Some(at(200, 200)));
    assert_eq!(s, Interaction::Dragging { position: at(200, 200) });
    feed(&mut canvas, Event::CursorMoved { position: at(102, 200) }, Some(at(102, 200)));
    assert_eq!(canvas.layer(0).get_rect(), Rectangle::new(0, 100, 200, 200));
    assert_eq!(canvas.ignored_delta_bank(), Point::new(2, 0));
    feed(&mut canvas, Event::CursorMoved { position: at(80, 205) }, Some(at(80, 205)));
    assert_eq!(canvas.layer(0).get_rect(), Rectangle::new(-20, 105, 200, 200));
    assert_eq!(canvas.ignored_delta_bank(), Point::zero());
    let s = feed(&mut canvas, Event::LeftReleased, Some(at(80, 205)));
    assert_eq!(s, Interaction::Idle);
    assert_eq!(canvas.layer(0).get_rect(), Rectangle::new(-20, 105, 200, 200));
    // Grab the bottom-right corner and resize with the ratio locked.
    canvas.set_shift_state(true);
    let s = feed(&mut canvas, Event::LeftPressed, Some(at(181, 304)));
    assert_eq!(
        s,
        Interaction::Resizing {
            position: at(181, 304),
            pivot: Pivot::new(Anchor::Start, Anchor::Start)
        }
    );
    feed(&mut canvas, Event::CursorMoved { position: at(231, 314) }, Some(at(231, 314)));
    assert_eq!(canvas.layer(0).get_rect(), Rectangle::new(-20, 105, 250, 250));
    feed(&mut canvas, Event::LeftReleased, None);
    // A press away from every layer deselects.
    feed(&mut canvas, Event::LeftPressed, Some(at(900, 600)));
    assert_eq!(canvas.selected_index(), None);
    assert!(!canvas.layer(0).is_selected);
}

#[test]
fn dispatch_does_what_the_intent_asks() {
    let mut canvas = two_layers();
    canvas.dispatch(Intent::SelectLayer(1));
    assert_eq!(canvas.selected_index(), Some(1));
    canvas.dispatch(Intent::StartDrag);
    canvas.dispatch(Intent::MoveSelection(Point::new(200, 300), true));
    assert_eq!(canvas.layer(1).get_rect(), Rectangle::new(250, 350, 100, 100));
    canvas.dispatch(Intent::ResizeSelection(
        Point::new(10, 20),
        Pivot::new(Anchor::Start, Anchor::Start),
        false,
    ));
    assert_eq!(canvas.layer(1).get_rect(), Rectangle::new(250, 350, 110, 120));
    canvas.dispatch(Intent::LeftButtonReleased);
    assert_eq!(canvas.snap_point(), SnapPoint::off());
    canvas.dispatch(Intent::DeselectLayers);
    assert_eq!(canvas.selected_index(), None);
}
