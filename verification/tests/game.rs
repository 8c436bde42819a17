use sdf_game::game::{CurrentScene, State};

#[test]
fn game_starts_in_the_level() {
    let s = State::new((800, 600), 5u8);
    assert_eq!(s.size, (800, 600));
    assert!(!s.mouse_pressed);
    assert!(s.in_level());
    assert!(matches!(s.scene, CurrentScene::Level(5)));
}

#[test]
fn resize_takes_positive_sizes() {
    let mut s = State::new((800, 600), ());
    assert!(s.resize((1024, 768)));
    assert_eq!(s.size, (1024, 768));
}

#[test]
fn resize_ignores_zero_sides() {
    let mut s = State::new((800, 600), ());
    assert!(!s.resize((0, 768)));
    assert!(!s.resize((1024, 0)));
    assert!(!s.resize((0, 0)));
    assert_eq!(s.size, (800, 600));
}

#[test]
fn resize_twice_is_resize_once() {
    let mut s = State::new((800, 600), ());
    s.resize((300, 200));
    s.resize((300, 200));
    assert_eq!(s.size, (300, 200));
}

#[test]
fn game_over_ends_the_level() {
    let mut s = State::new((10, 10), ());
    s.finish_update(false);
    assert!(s.in_level());
    s.finish_update(true);
    assert!(!s.in_level());
    assert!(matches!(s.scene, CurrentScene::GameOver));
}

#[test]
fn game_over_stays() {
    let mut s = State::new((10, 10), ());
    s.finish_update(true);
    s.finish_update(false);
    assert!(matches!(s.scene, CurrentScene::GameOver));
}

#[test]
fn resize_after_game_over_does_not_reach_a_level() {
    let mut s = State::new((10, 10), ());
    s.finish_update(true);
    assert!(!s.resize((20, 30)));
    assert_eq!(s.size, (20, 30));
}
