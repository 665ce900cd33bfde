//! Game-screen logic of a small dungeon crawler: the menus and the status panel
//! are computed here as lists of drawing commands and menu decisions, and the
//! spawner computes which entities a room receives and what each is made of.
//! Rendering and the entity-component world are driven by the caller.

pub mod outside;
pub mod text;
pub mod draw;
pub mod gui;
pub mod hud;
pub mod dice;
pub mod random_table;
pub mod spawner;
