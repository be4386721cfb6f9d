//! The application's scenes: the title screen and the game, the keys that
//! move between them, and what the application does on each frame.

use vstd::prelude::*;
use crate::consts::WINDOW_WIDTH;

verus! {

/// The keys the application reacts to.
#[derive(Clone, Copy, Debug, PartialEq, Eq, Structural)]
pub enum VKey {
    Space,
    Escape,
    Left,
    Right,
    Up,
    Down,
}

/// The scene the application shows.
#[derive(Clone, Copy, Debug, PartialEq, Eq, Structural)]
pub enum Scene {
    Title,
    Game,
}

/// What the application's caller does for a frame, in order: start a new
/// game and its background music; stop the background music and go back to
/// the title screen.
#[derive(Clone, Copy, Debug, PartialEq, Eq, Structural)]
pub enum AppAction {
    StartGame,
    BackToTitle,
}

/// The application: the last key pressed since the previous frame, and the
/// scene shown.
pub struct EcsApp {
    pub pressed_key: Option<VKey>,
    pub scene: Scene,
}

/// What the title screen does with the pad: `Some(true)` (start a game) when
/// the A button is pressed, else nothing.
pub fn title_update(a_pressed: bool) -> (r: Option<bool>)
    ensures
        r == (if a_pressed { Some(true) } else { None }),
{
    if a_pressed {
        return Some(true);
    }
    None
}

/// The scene after the Escape handling of a frame: the title screen when
/// Escape was pressed, else `scene`.
pub open spec fn scene_after_escape(scene: Scene, pressed_key: Option<VKey>) -> Scene {
    if pressed_key == Some(VKey::Escape) { Scene::Title } else { scene }
}

/// The actions of the Escape handling of a frame: going back to the title
/// when Escape was pressed.
pub open spec fn escape_actions(pressed_key: Option<VKey>) -> Seq<AppAction> {
    if pressed_key == Some(VKey::Escape) { seq![AppAction::BackToTitle] } else { seq![] }
}

/// `true` when a frame of `EcsApp::update` quits the application: Escape was
/// pressed on the title screen.
pub open spec fn quits(scene: Scene, pressed_key: Option<VKey>) -> bool {
    scene == Scene::Title && pressed_key == Some(VKey::Escape)
}

/// `new_scene`, `new_key`, `running` and `actions` are the result of one
/// frame of `EcsApp::update` from `scene` with `pressed_key`: Escape on the
/// title quits with no action; otherwise the frame goes on, Escape first
/// goes back to the title, then the title starts a game when A is pressed,
/// and the game runs one frame through `run_game`, going back to the title
/// when it does not go on. The pressed key is consumed.
pub open spec fn app_updated<G: FnOnce() -> bool>(
    scene: Scene,
    pressed_key: Option<VKey>,
    a_pressed: bool,
    run_game: G,
    new_scene: Scene,
    new_key: Option<VKey>,
    running: bool,
    actions: Seq<AppAction>,
) -> bool {
    &&& new_key is None
    &&& quits(scene, pressed_key) ==> {
        &&& !running
        &&& actions.len() == 0
        &&& new_scene == Scene::Title
    }
    &&& !quits(scene, pressed_key) ==> {
        let scene1 = scene_after_escape(scene, pressed_key);
        let acts1 = escape_actions(pressed_key);
        &&& running
        &&& scene1 == Scene::Title ==> {
            &&& new_scene == (if a_pressed { Scene::Game } else { Scene::Title })
            &&& actions == (if a_pressed { acts1.push(AppAction::StartGame) } else { acts1 })
        }
        &&& scene1 == Scene::Game ==> exists|alive: bool| {
            &&& #[trigger] run_game.ensures((), alive)
            &&& new_scene == (if alive { Scene::Game } else { Scene::Title })
            &&& actions == (if alive { acts1 } else { acts1.push(AppAction::BackToTitle) })
        }
    }
}

impl EcsApp {
    /// A new application on the title screen, with no key pressed.
    pub fn new() -> (r: Self)
        ensures
            r.pressed_key is None,
            r.scene == Scene::Title,
    {
        Self { pressed_key: None, scene: Scene::Title }
    }

    /// Switches to the game scene.
    fn start_game(&mut self, actions: &mut Vec<AppAction>)
        ensures
            final(self).scene == Scene::Game,
            final(self).pressed_key == old(self).pressed_key,
            final(actions)@ == old(actions)@.push(AppAction::StartGame),
    {
        self.scene = Scene::Game;
        actions.push(AppAction::StartGame);
    }

    /// Switches to the title scene.
    fn back_to_title(&mut self, actions: &mut Vec<AppAction>)
        ensures
            final(self).scene == Scene::Title,
            final(self).pressed_key == old(self).pressed_key,
            final(actions)@ == old(actions)@.push(AppAction::BackToTitle),
    {
        actions.push(AppAction::BackToTitle);
        self.scene = Scene::Title;
    }

    /// Records a key event: a key going down becomes the pressed key.
    pub fn on_key(&mut self, key: VKey, down: bool)
        ensures
            final(self).pressed_key == (if down { Some(key) } else { old(self).pressed_key }),
            final(self).scene == old(self).scene,
    {
        if down {
            self.pressed_key = Some(key);
        }
    }

    /// One frame. Escape on the title screen quits: returns `false` with no
    /// action. Escape in the game goes back to the title. Then, on the title
    /// screen, A starts a game; in the game, `run_game` runs one frame of it
    /// and says whether it goes on, and a game that does not go on goes back
    /// to the title. The pressed key is consumed. Returns whether the
    /// application goes on, and the actions for the caller, in order.
    /// `run_game` may be called only when a game frame is due: the scene is
    /// the game and Escape was not pressed.
    pub fn update<G: FnOnce() -> bool>(&mut self, a_pressed: bool, run_game: G) -> (r: (bool, Vec<AppAction>))
        requires
            !quits(old(self).scene, old(self).pressed_key)
                && scene_after_escape(old(self).scene, old(self).pressed_key) == Scene::Game
                ==> run_game.requires(()),
        ensures
            app_updated(
                old(self).scene,
                old(self).pressed_key,
                a_pressed,
                run_game,
                final(self).scene,
                final(self).pressed_key,
                r.0,
                r.1@,
            ),
    {
        let mut actions: Vec<AppAction> = Vec::new();
        let escape = match self.pressed_key {
            Some(VKey::Escape) => true,
            _ => false,
        };
        if escape {
            match self.scene {
                Scene::Title => {
                    self.pressed_key = None;
                    return (false, actions);
                },
                _ => self.back_to_title(&mut actions),
            }
        }

        match self.scene {
            Scene::Title => {
                if let Some(value) = title_update(a_pressed) {
                    if value {
                        self.start_game(&mut actions);
                    } else {
                        self.pressed_key = None;
                        return (false, actions);
                    }
                }
            },
            Scene::Game => {
                if !run_game() {
                    self.back_to_title(&mut actions);
                }
            },
        };
        self.pressed_key = None;
        (true, actions)
    }
}

/// The x coordinate at which a text of `len` characters, 8 pixels each,
/// stands centred in the window: `WINDOW_WIDTH / 2 - (len / 2) * 8`.
pub fn centered_text_x(len: usize) -> (r: i32)
    requires
        (len as int / 2) * 8 <= i32::MAX,
    ensures
        r == WINDOW_WIDTH / 2 - (len as int / 2) * 8,
{
    (WINDOW_WIDTH / 2) - (len as i32 / 2) * 8
}

/// Escape leaves the game for the title screen, and Escape there quits:
/// from either scene, at most two Escape presses end the application.
pub proof fn lemma_escape_twice_quits(scene: Scene)
    ensures
        quits(scene_after_escape(scene, Some(VKey::Escape)), Some(VKey::Escape)),
        scene == Scene::Game ==> !quits(scene, Some(VKey::Escape)),
{
}

/// Only Escape leaves a scene: with any other key (or none) pressed, the
/// frame goes on; on the title it starts a game with the single action
/// `StartGame` exactly when A is pressed, and otherwise stays there with no
/// action; in the game it stays in the game, with no action, for as long as
/// the game goes on.
pub proof fn lemma_only_escape_leaves<G: FnOnce() -> bool>(
    scene: Scene,
    pressed_key: Option<VKey>,
    a_pressed: bool,
    run_game: G,
    new_scene: Scene,
    new_key: Option<VKey>,
    running: bool,
    actions: Seq<AppAction>,
)
    requires
        pressed_key != Some(VKey::Escape),
        app_updated(scene, pressed_key, a_pressed, run_game, new_scene, new_key, running, actions),
    ensures
        running,
        new_key is None,
        scene == Scene::Title && a_pressed ==> new_scene == Scene::Game && actions == seq![AppAction::StartGame],
        scene == Scene::Title && !a_pressed ==> new_scene == Scene::Title && actions.len() == 0,
        scene == Scene::Game ==> exists|alive: bool| {
            &&& #[trigger] run_game.ensures((), alive)
            &&& alive ==> new_scene == Scene::Game && actions.len() == 0
            &&& !alive ==> new_scene == Scene::Title && actions == seq![AppAction::BackToTitle]
        },
{
    assert(seq![].push(AppAction::StartGame) =~= seq![AppAction::StartGame]);
    assert(seq![].push(AppAction::BackToTitle) =~= seq![AppAction::BackToTitle]);
}

/// Escape on the title screen ends the application with no action; Escape
/// in the game goes back to the title first (stopping the game's music),
/// and the game does not run that frame: the frame then starts a new game
/// exactly when A is pressed.
pub proof fn lemma_escape<G: FnOnce() -> bool>(
    scene: Scene,
    a_pressed: bool,
    run_game: G,
    new_scene: Scene,
    new_key: Option<VKey>,
    running: bool,
    actions: Seq<AppAction>,
)
    requires
        app_updated(scene, Some(VKey::Escape), a_pressed, run_game, new_scene, new_key, running, actions),
    ensures
        new_key is None,
        scene == Scene::Title ==> !running && actions.len() == 0 && new_scene == Scene::Title,
        scene == Scene::Game ==> {
            &&& running
            &&& actions[0] == AppAction::BackToTitle
            &&& a_pressed ==> new_scene == Scene::Game && actions == seq![AppAction::BackToTitle, AppAction::StartGame]
            &&& !a_pressed ==> new_scene == Scene::Title && actions == seq![AppAction::BackToTitle]
        },
{
    assert(seq![AppAction::BackToTitle].push(AppAction::StartGame) =~= seq![AppAction::BackToTitle, AppAction::StartGame]);
}

} // verus!
