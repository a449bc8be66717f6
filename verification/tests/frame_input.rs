use anasaizi::entity_selection::selected_entity_index;
use anasaizi::game_layer::{EngineEvent, GameLayer, WindowInput};
use anasaizi::uniform_update::{check_uniform_update, UniformUpdateError};

type Input = WindowInput<(i32, i32), (i8, i8), char, u8>;
type Event = EngineEvent<&'static str, (i32, i32), (i8, i8), char, u8>;

#[test]
fn window_events_are_forwarded_after_the_raw_event() {
    let mut game = GameLayer::<Event>::new();
    assert!(game.receive_window_event("move", Input::CursorMoved((3, 4))));
    assert!(game.receive_window_event("wheel", Input::LineScroll((0, -1))));
    assert!(game.receive_window_event("pixels", Input::PixelScroll));
    assert!(game.receive_window_event("key", Input::Keyboard('w')));
    assert!(game.receive_window_event("click", Input::MouseInput(1)));
    assert!(game.receive_window_event("resize", Input::Other));
    game.before_frame();
    assert_eq!(
        game.input(),
        &vec![
            Event::Raw("move"),
            Event::MouseMove((3, 4)),
            Event::Raw("wheel"),
            Event::MouseScroll((0, -1)),
            Event::Raw("pixels"),
            Event::Raw("key"),
            Event::Keyboard('w'),
            Event::Raw("click"),
            Event::MouseInput(1),
            Event::Raw("resize"),
        ]
    );
}

#[test]
fn close_request_stops_the_engine() {
    let mut game = GameLayer::<Event>::new();
    assert!(!game.receive_window_event("close", Input::CloseRequested));
    game.before_frame();
    assert_eq!(game.input(), &vec![Event::Raw("close"), Event::Shutdown]);
}

#[test]
fn uniform_update_checks_in_order() {
    assert_eq!(check_uniform_update(&vec![], &vec![64], 0), Err(UniformUpdateError::NoUniformBuffers));
    assert_eq!(check_uniform_update(&vec![64], &vec![], 0), Err(UniformUpdateError::NoUniformObject));
    assert_eq!(check_uniform_update(&vec![64], &vec![64, 16], 1), Err(UniformUpdateError::NoUniformBuffer));
    assert_eq!(check_uniform_update(&vec![64, 32], &vec![64, 16], 1), Err(UniformUpdateError::SizeMismatch));
    assert_eq!(check_uniform_update(&vec![64, 16], &vec![64, 16], 1), Ok(16));
}

#[test]
fn numpad_keys_select_entities() {
    assert_eq!(selected_entity_index(Some(1), true), Some(0));
    assert_eq!(selected_entity_index(Some(5), true), Some(4));
    assert_eq!(selected_entity_index(Some(3), false), None);
    assert_eq!(selected_entity_index(Some(0), true), None);
    assert_eq!(selected_entity_index(Some(6), true), None);
    assert_eq!(selected_entity_index(None, true), None);
}
