//! The components an enemy entity and an enemy shot are made of.

use vstd::prelude::*;
use crate::math::Vec2;
use crate::appearance_table::FormationIndex;

verus! {

/// Where an entity stands: position, tilt, and heading angle.
#[derive(Clone, Copy, Debug, PartialEq, Eq, Structural)]
pub struct Posture(pub Vec2, pub i32, pub i32);

/// How an entity moves: speed along its heading, and angular velocity.
#[derive(Clone, Copy, Debug, PartialEq, Eq, Structural)]
pub struct Speed(pub i32, pub i32);

/// The size of an entity's hit box.
#[derive(Clone, Copy, Debug, PartialEq, Eq, Structural)]
pub struct HitBox {
    pub size: Vec2,
}

/// An enemy shot, with its velocity per frame.
#[derive(Clone, Copy, Debug, PartialEq, Eq, Structural)]
pub struct EneShot(pub Vec2);

/// The kind of an enemy.
#[derive(Clone, Copy, Debug, PartialEq, Eq, Structural)]
pub enum EnemyType {
    Fairy,
}

/// The kind of an enemy attack.
#[derive(Clone, Copy, Debug, PartialEq, Eq, Structural)]
pub enum AttackType {
    Normal,
}

/// The life cycle of an enemy.
#[derive(Clone, Copy, Debug, PartialEq, Eq, Structural)]
pub enum EnemyState {
    Appearance,
    MoveToFormation,
    Formation,
    Attack(AttackType),
    Disappearance,
    Destroy,
}

/// What a trajectory reports after a step: position, heading, speed and
/// angular velocity.
#[derive(Clone, Copy, Debug, PartialEq, Eq, Structural)]
pub struct TrajPose {
    pub pos: Vec2,
    pub angle: i32,
    pub speed: i32,
    pub vangle: i32,
}

/// The part of an enemy that follows a trajectory and times its attack.
/// `T` is the trajectory that the enemy follows while it appears.
pub struct EnemyBase<T> {
    pub traj: Option<T>,
    pub attack_frame_count: u32,
}

/// An enemy.
pub struct Enemy<T> {
    pub enemy_type: EnemyType,
    pub formation_index: FormationIndex,
    pub index_x: usize,
    pub state: EnemyState,
    pub base: EnemyBase<T>,
    pub is_formation: bool,
}

/// How an entity is drawn: sprite, offset of the sprite from the position,
/// and opacity.
#[derive(Clone, Copy, Debug, PartialEq, Eq)]
pub struct SpriteDrawable {
    pub sprite_name: &'static str,
    pub offset: Vec2,
    pub alpha: u8,
}

} // verus!
