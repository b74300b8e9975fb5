//! Gameplay logic of a first-person statue puzzle: the scene binder, the
//! look-at target resolvers, the inventory, the statue holders and the
//! visibility rules, each with a machine-checked contract.

pub mod binder;
pub mod catalog;
pub mod game;
pub mod holders;
pub mod hud;
pub mod input;
pub mod player;
pub mod registry;
pub mod registry_laws;
pub mod scene;
pub mod target;
pub mod text;
pub mod visibility;
