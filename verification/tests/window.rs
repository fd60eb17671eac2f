use render_core::device::Command;
use render_core::game::{Event, Game};

#[test]
fn new_window_runs_with_no_key_held() {
    let game = Game::new((800, 600));
    assert!(game.is_running());
    assert_eq!(game.window_size(), (800, 600));
    assert!(!game.is_key_down(4));
    assert_eq!(game.init(), Command::Viewport { width: 800, height: 600 });
}

#[test]
fn quit_stops_the_window() {
    let mut game = Game::new((1, 1));
    game.handle_event(Event::Other);
    assert!(game.is_running());
    game.handle_event(Event::Quit);
    assert!(!game.is_running());
    game.handle_event(Event::KeyDown(Some(3)));
    assert!(!game.is_running());
}

#[test]
fn keys_are_held_from_down_to_up() {
    let mut game = Game::new((1, 1));
    game.handle_event(Event::KeyDown(Some(26)));
    game.handle_event(Event::KeyDown(Some(4)));
    game.handle_event(Event::KeyDown(Some(26)));
    game.handle_event(Event::KeyDown(None));
    assert!(game.is_key_down(26));
    assert!(game.is_key_down(4));
    assert!(!game.is_key_down(5));
    game.handle_event(Event::KeyUp(Some(26)));
    assert!(!game.is_key_down(26));
    assert!(game.is_key_down(4));
    game.handle_event(Event::KeyUp(Some(26)));
    game.handle_event(Event::KeyUp(None));
    assert!(game.is_key_down(4));
}

#[test]
fn events_are_taken_in_order() {
    let mut game = Game::new((1, 1));
    game.handle_events(&[
        Event::Resized(640, 480),
        Event::KeyDown(Some(7)),
        Event::Resized(320, 240),
        Event::KeyUp(Some(7)),
        Event::KeyDown(Some(9)),
    ]);
    assert_eq!(game.window_size(), (320, 240));
    assert!(!game.is_key_down(7));
    assert!(game.is_key_down(9));
    assert!(game.is_running());
    game.handle_events(&[]);
    assert_eq!(game.window_size(), (320, 240));
}

#[test]
fn resize_sets_the_drawing_area() {
    let mut game = Game::new((1, 1));
    game.handle_event(Event::KeyDown(Some(2)));
    assert_eq!(game.resize_window((1024, 768)), Command::Viewport { width: 1024, height: 768 });
    assert_eq!(game.window_size(), (1024, 768));
    assert!(game.is_key_down(2));
}
