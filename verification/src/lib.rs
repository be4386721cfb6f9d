//! Game logic of the Teki shooter: fixed-point helpers, the enemy formation
//! table, enemy behaviour (trajectory, attack, formation, exit), enemy shots
//! and the title/game scene machine of the application.

pub mod math;
pub mod consts;
pub mod appearance_table;
pub mod components;
pub mod system_enemy;
pub mod ecs_app;
pub mod sound;
pub mod app_consts;
