use robor_rs::event_emitter::CountingListener;
use robor_rs::mouse::button_state_pressed;
use robor_rs::mouse::validate_circle_request;
use robor_rs::mouse::validate_hover_request;
use robor_rs::mouse::EventType;
use robor_rs::mouse::Mouse;
use robor_rs::mouse::MouseError;
use robor_rs::mouse::MousePosition;
use robor_rs::mouse::ScreenBounds;

fn bounds() -> ScreenBounds {
    ScreenBounds { width: 1920, height: 1080 }
}

fn mouse_at(x: i32, y: i32) -> Mouse<CountingListener> {
    Mouse::new(x, y)
}

#[test]
fn test_mouse_position_new() {
    let position = MousePosition::new(10, 20);
    assert_eq!(position.x, 10);
    assert_eq!(position.y, 20);
}

#[test]
fn test_is_out_of_bounds() {
    let b = bounds();

    let mouse_pos = MousePosition::new(-10, 20);
    assert!(mouse_pos.is_out_of_bounds(b));

    let mouse_pos = MousePosition::new(10, -20);
    assert!(mouse_pos.is_out_of_bounds(b));

    let mouse_pos = MousePosition::new(b.width + 10, b.height + 20);
    assert!(mouse_pos.is_out_of_bounds(b));

    let mouse_pos = MousePosition::new(b.width - 10, b.height - 20);
    assert!(!mouse_pos.is_out_of_bounds(b));
}

#[test]
fn test_boundary_is_inclusive() {
    let b = bounds();
    assert!(!MousePosition::new(b.width, b.height).is_out_of_bounds(b));
    assert!(MousePosition::new(b.width + 1, 0).is_out_of_bounds(b));
    assert!(MousePosition::new(0, b.height + 1).is_out_of_bounds(b));
}

#[test]
fn test_mouse_position_to_u32() {
    let mouse_pos = MousePosition::new(10, 20);
    let result = mouse_pos.to_u32();
    assert!(result.is_ok());
    assert_eq!(result.unwrap(), (10u32, 20u32));

    let mouse_pos = MousePosition::new(-10, 20);
    assert!(mouse_pos.to_u32().is_err());

    let mouse_pos = MousePosition::new(10, -20);
    assert!(mouse_pos.to_u32().is_err());
}

#[test]
fn test_mouse_position_to_u32_conversion_error() {
    let position = MousePosition::new(-1, 500);
    let result = position.to_u32();
    assert!(result.is_err());
}

#[test]
fn test_to_u32_reports_x_first() {
    let result = MousePosition::new(-10, 20).to_u32();
    match result {
        Err(MouseError::ConversionError(m)) => assert_eq!(m, "Failed to convert x to u32"),
        _ => panic!("expected a conversion error for x"),
    }

    let result = MousePosition::new(10, -20).to_u32();
    match result {
        Err(MouseError::ConversionError(m)) => assert_eq!(m, "Failed to convert y to u32"),
        _ => panic!("expected a conversion error for y"),
    }

    let result = MousePosition::new(-10, -20).to_u32();
    match result {
        Err(MouseError::ConversionError(m)) => assert_eq!(m, "Failed to convert x to u32"),
        _ => panic!("expected the x error to come first"),
    }
}

#[test]
fn test_mouse_position_offset() {
    let position = MousePosition::new(100, 100);
    let offset_position = position.offset(50, -50);

    assert_eq!(offset_position.x, 150);
    assert_eq!(offset_position.y, 50);
}

#[test]
fn test_offset_saturates_at_the_limits() {
    let position = MousePosition::new(1, 1);
    let far = position.offset(i32::MAX, i32::MIN);
    assert_eq!(far.x, i32::MAX);
    assert_eq!(far.y, i32::MIN + 1);

    let corner = MousePosition::new(i32::MAX, i32::MIN);
    let clamped = corner.offset(1, -1);
    assert_eq!(clamped.x, i32::MAX);
    assert_eq!(clamped.y, i32::MIN);
}

#[test]
fn test_mouse_new() {
    let mouse = mouse_at(0, 0);
    let (x, y) = mouse.get_position();
    assert!(x >= 0);
    assert!(y >= 0);
}

#[test]
fn test_mouse_get_position() {
    let mouse = mouse_at(0, 0);
    let (x, y) = mouse.get_position();
    assert!(x >= 0 && y >= 0);
}

#[test]
fn test_mouse_move_to() {
    let mut mouse = mouse_at(0, 0);
    let result = mouse.move_to(100, 200, bounds());
    assert!(result.is_ok());
    assert_eq!(mouse.get_position(), (100, 200));
}

#[test]
fn test_mouse_move_to_out_of_bounds() {
    let mut mouse = mouse_at(0, 0);
    let result = mouse.move_to(-1, 500, bounds());
    assert!(result.is_err());
}

#[test]
fn test_move_to_negative_keeps_position() {
    let mut mouse = mouse_at(7, 8);
    let result = mouse.move_to(-1, 500, bounds());
    assert!(matches!(result, Err(MouseError::InvalidInput)));
    assert_eq!(mouse.get_position(), (7, 8));
}

#[test]
fn test_move_to_beyond_bounds_keeps_position() {
    let b = bounds();
    let mut mouse = mouse_at(7, 8);
    let result = mouse.move_to(b.width + 1, 10, b);
    assert!(matches!(result, Err(MouseError::OutOfBounds)));
    assert_eq!(mouse.get_position(), (7, 8));

    let result = mouse.move_to(10, b.height + 1, b);
    assert!(matches!(result, Err(MouseError::OutOfBounds)));
    assert_eq!(mouse.get_position(), (7, 8));
}

#[test]
fn test_move_to_edge_is_accepted() {
    let b = bounds();
    let mut mouse = mouse_at(0, 0);
    assert!(mouse.move_to(b.width, b.height, b).is_ok());
    assert_eq!(mouse.get_position(), (b.width, b.height));
}

#[test]
fn test_move_relative() {
    let mut mouse = mouse_at(0, 0);
    mouse.move_to(100, 100, bounds()).unwrap();
    mouse.move_relative(10, 20, bounds()).unwrap();
    let (x, y) = mouse.get_position();
    assert_eq!(x, 110);
    assert_eq!(y, 120);

    mouse.move_relative(-5, -10, bounds()).unwrap();
    let (x, y) = mouse.get_position();
    assert_eq!(x, 105);
    assert_eq!(y, 110);
}

#[test]
fn test_move_relative_error() {
    let mut mouse = mouse_at(0, 0);
    mouse.move_to(100, 100, bounds()).unwrap();
    let result = mouse.move_relative(-101, -101, bounds());
    assert!(result.is_err());
}

#[test]
fn test_hover_out_of_bounds() {
    let result = validate_hover_request(10000, 10000, 1, bounds());
    assert!(result.is_err());
}

#[test]
fn test_hover_request_validation() {
    let b = bounds();
    assert!(validate_hover_request(50, 50, 1, b).is_ok());
    assert!(matches!(validate_hover_request(-1, 50, 1, b), Err(MouseError::InvalidInput)));
    assert!(matches!(validate_hover_request(50, 50, 0, b), Err(MouseError::InvalidInput)));
    assert!(matches!(
        validate_hover_request(10000, 10000, 1, b),
        Err(MouseError::OutOfBounds)
    ));
}

#[test]
fn test_move_in_circle_invalid_radius() {
    let result = validate_circle_request(0, 1);
    assert!(result.is_err());
}

#[test]
fn test_move_in_circle_invalid_duration() {
    let result = validate_circle_request(50, 0);
    assert!(result.is_err());
}

#[test]
fn test_circle_request_validation() {
    assert!(validate_circle_request(50, 1).is_ok());
    assert!(matches!(validate_circle_request(-3, 1), Err(MouseError::InvalidInput)));
    assert!(matches!(validate_circle_request(0, 0), Err(MouseError::InvalidInput)));
}

#[test]
fn test_click_within_bounds() {
    let mut mouse = mouse_at(0, 0);
    assert!(mouse.click(bounds()).is_ok());
}

#[test]
fn test_click_announces_click() {
    let mut mouse = mouse_at(0, 0);
    mouse.on(EventType::Click, CountingListener::new());

    mouse.click(bounds()).unwrap();
    assert_eq!(mouse.get_listener("Click", 0).unwrap().count(), 1);

    mouse.click(bounds()).unwrap();
    assert_eq!(mouse.get_listener("Click", 0).unwrap().count(), 2);
}

#[test]
fn test_click_out_of_bounds_announces_nothing() {
    let mut mouse = mouse_at(-5, 4);
    mouse.on(EventType::Click, CountingListener::new());

    assert!(matches!(mouse.click(bounds()), Err(MouseError::OutOfBounds)));
    assert_eq!(mouse.get_listener("Click", 0).unwrap().count(), 0);
}

#[test]
fn test_double_click() {
    let mut mouse = mouse_at(0, 0);
    assert!(mouse.double_click(bounds()).is_ok());
}

#[test]
fn test_double_click_announces_twice() {
    let mut mouse = mouse_at(0, 0);
    mouse.on(EventType::Click, CountingListener::new());
    mouse.double_click(bounds()).unwrap();
    assert_eq!(mouse.get_listener("Click", 0).unwrap().count(), 2);
}

#[test]
fn test_multi_click_within_bounds() {
    let mut mouse = mouse_at(0, 0);
    mouse.move_to(100, 100, bounds()).unwrap();
    assert!(mouse.multi_click(3, bounds()).is_ok());
}

#[test]
fn test_multi_click_plans_every_pair() {
    let mut mouse = mouse_at(0, 0);
    mouse.move_to(100, 100, bounds()).unwrap();
    let plan = mouse.multi_click(3, bounds()).unwrap();
    assert_eq!(plan, vec![(100u32, 100u32), (100u32, 100u32), (100u32, 100u32)]);
}

#[test]
fn test_right_click() {
    let mut mouse = mouse_at(0, 0);
    mouse.move_to(100, 100, bounds()).unwrap();
    assert!(mouse.right_click(bounds()).is_ok());
}

#[test]
fn test_right_click_announces_nothing() {
    let mut mouse = mouse_at(0, 0);
    mouse.on(EventType::Click, CountingListener::new());
    mouse.right_click(bounds()).unwrap();
    assert_eq!(mouse.get_listener("Click", 0).unwrap().count(), 0);
}

#[test]
fn test_scroll() {
    let mut mouse = mouse_at(0, 0);
    mouse.move_to(800, 800, bounds()).unwrap();
    assert!(mouse.scroll(-120, bounds()).is_ok());
}

#[test]
fn test_scroll_prepares_the_delta_word() {
    let mut mouse = mouse_at(0, 0);
    mouse.move_to(800, 800, bounds()).unwrap();
    let (x, y, delta) = mouse.scroll(-120, bounds()).unwrap();
    assert_eq!((x, y), (800, 800));
    assert_eq!(delta, (-120i32) as u32);
}

#[test]
fn test_scroll_out_of_bounds() {
    let mut mouse = mouse_at(-1, 0);
    assert!(matches!(mouse.scroll(120, bounds()), Err(MouseError::OutOfBounds)));
}

#[test]
fn test_scroll_with_delay_within_bounds() {
    let mut mouse = mouse_at(0, 0);
    let result = mouse.scroll_with_delay(120, bounds());
    assert!(result.is_ok());
}

#[test]
fn test_scroll_with_delay_zero_amount() {
    let mut mouse = mouse_at(0, 0);
    let result = mouse.scroll_with_delay(0, bounds());
    assert!(result.is_ok());
    let (_, steps) = result.unwrap();
    assert!(steps.is_empty());
}

#[test]
fn test_scroll_with_delay_positive_amount() {
    let mut mouse = mouse_at(0, 0);
    let result = mouse.scroll_with_delay(120, bounds());
    assert!(result.is_ok());
    let (point, steps) = result.unwrap();
    assert_eq!(point, (0u32, 0u32));
    assert_eq!(steps.len(), 120);
    assert!(steps.iter().all(|s| *s == 1));
}

#[test]
fn test_scroll_with_delay_negative_amount() {
    let mut mouse = mouse_at(0, 0);
    let result = mouse.scroll_with_delay(-120, bounds());
    assert!(result.is_ok());
    let (_, steps) = result.unwrap();
    assert_eq!(steps.len(), 120);
    assert!(steps.iter().all(|s| *s == -1));
}

#[test]
fn test_drag_and_drop_within_bounds() {
    let mut mouse = mouse_at(0, 0);
    mouse.move_to(100, 100, bounds()).unwrap();
    mouse.drag_and_drop(50, 50, bounds()).unwrap();
    let (x, y) = mouse.get_position();
    assert_eq!(x, 150);
    assert_eq!(y, 150);
}

#[test]
fn test_drag_and_drop_reports_both_endpoints() {
    let mut mouse = mouse_at(0, 0);
    mouse.move_to(100, 100, bounds()).unwrap();
    let (start, finish) = mouse.drag_and_drop(50, 50, bounds()).unwrap();
    assert_eq!(start, (100u32, 100u32));
    assert_eq!(finish, (150u32, 150u32));
}

#[test]
fn test_drag_and_drop_out_of_bounds_keeps_position() {
    let b = bounds();
    let mut mouse = mouse_at(0, 0);
    mouse.move_to(100, 100, b).unwrap();

    let result = mouse.drag_and_drop(b.width, 0, b);
    assert!(matches!(result, Err(MouseError::OutOfBounds)));
    assert_eq!(mouse.get_position(), (100, 100));
}

#[test]
fn test_event_type_name() {
    assert_eq!(EventType::Click.name(), "Click");
}

#[test]
fn test_error_messages() {
    assert_eq!(MouseError::InvalidInput.message(), "Invalid input");
    assert_eq!(MouseError::OutOfBounds.message(), "Mouse position out of bounds");
    assert_eq!(
        MouseError::ConversionError("Failed to convert x to u32".to_string()).message(),
        "Conversion error: Failed to convert x to u32"
    );
    assert_eq!(
        MouseError::IoError("handle lost".to_string()).message(),
        "IO error: handle lost"
    );
}

#[test]
fn test_button_state_pressed() {
    assert!(!button_state_pressed(0));
    assert!(button_state_pressed(1));
    assert!(button_state_pressed(i16::MIN));
    assert!(!button_state_pressed(2));
}
