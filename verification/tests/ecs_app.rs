use teki::ecs_app::{centered_text_x, title_update, AppAction, EcsApp, Scene, VKey};

#[test]
fn new_app_is_on_title() {
    let app = EcsApp::new();
    assert_eq!(app.scene, Scene::Title);
    assert_eq!(app.pressed_key, None);
}

#[test]
fn key_down_is_recorded_key_up_is_not() {
    let mut app = EcsApp::new();
    app.on_key(VKey::Left, true);
    assert_eq!(app.pressed_key, Some(VKey::Left));
    app.on_key(VKey::Right, false);
    assert_eq!(app.pressed_key, Some(VKey::Left));
    app.on_key(VKey::Space, true);
    assert_eq!(app.pressed_key, Some(VKey::Space));
}

#[test]
fn escape_on_title_quits() {
    let mut app = EcsApp::new();
    app.on_key(VKey::Escape, true);
    let (running, actions) = app.update(true, || panic!("no game runs on the title"));
    assert!(!running);
    assert!(actions.is_empty());
    assert_eq!(app.scene, Scene::Title);
    assert_eq!(app.pressed_key, None);
}

#[test]
fn a_on_title_starts_game() {
    let mut app = EcsApp::new();
    let (running, actions) = app.update(true, || panic!("no game runs on the title"));
    assert!(running);
    assert_eq!(actions, vec![AppAction::StartGame]);
    assert_eq!(app.scene, Scene::Game);
}

#[test]
fn title_waits_without_a() {
    let mut app = EcsApp::new();
    app.on_key(VKey::Left, true);
    let (running, actions) = app.update(false, || panic!("no game runs on the title"));
    assert!(running);
    assert!(actions.is_empty());
    assert_eq!(app.scene, Scene::Title);
    assert_eq!(app.pressed_key, None);
}

#[test]
fn game_runs_each_frame() {
    let mut app = EcsApp::new();
    app.update(true, || true);
    let mut ran = 0;
    let (running, actions) = app.update(false, || {
        ran += 1;
        true
    });
    assert!(running);
    assert!(actions.is_empty());
    assert_eq!(ran, 1);
    assert_eq!(app.scene, Scene::Game);
}

#[test]
fn escape_in_game_goes_back_to_title() {
    let mut app = EcsApp::new();
    app.update(true, || true);
    app.on_key(VKey::Escape, true);
    let (running, actions) = app.update(false, || panic!("the game does not run after Escape"));
    assert!(running);
    assert_eq!(actions, vec![AppAction::BackToTitle]);
    assert_eq!(app.scene, Scene::Title);
    assert_eq!(app.pressed_key, None);
}

#[test]
fn escape_in_game_with_a_restarts() {
    let mut app = EcsApp::new();
    app.update(true, || true);
    app.on_key(VKey::Escape, true);
    let (running, actions) = app.update(true, || panic!("the game does not run after Escape"));
    assert!(running);
    assert_eq!(actions, vec![AppAction::BackToTitle, AppAction::StartGame]);
    assert_eq!(app.scene, Scene::Game);
}

#[test]
fn ended_game_goes_back_to_title() {
    let mut app = EcsApp::new();
    app.update(true, || true);
    let (running, actions) = app.update(false, || false);
    assert!(running);
    assert_eq!(actions, vec![AppAction::BackToTitle]);
    assert_eq!(app.scene, Scene::Title);
}

#[test]
fn title_update_starts_only_on_a() {
    assert_eq!(title_update(true), Some(true));
    assert_eq!(title_update(false), None);
}

#[test]
fn title_texts_are_centred() {
    assert_eq!(centered_text_x("TEKI".len()), 334);
    assert_eq!(centered_text_x("PRESS SPACE KEY TO START".len()), 350 - 12 * 8);
    assert_eq!(centered_text_x(0), 350);
}

#[test]
fn escape_twice_from_game_quits() {
    let mut app = EcsApp::new();
    app.update(true, || true);
    assert_eq!(app.scene, Scene::Game);
    app.on_key(VKey::Escape, true);
    let (running, _) = app.update(false, || true);
    assert!(running);
    app.on_key(VKey::Escape, true);
    let (running, actions) = app.update(false, || true);
    assert!(!running);
    assert!(actions.is_empty());
}

#[test]
fn centred_text_for_long_lengths() {
    assert_eq!(centered_text_x(1000), 350 - 500 * 8);
    assert_eq!(centered_text_x(536_870_911), 350 - 268_435_455 * 8);
}
