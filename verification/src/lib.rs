//! Rules of a small turn-based roguelike: the calendar and its light, the
//! creatures and terrain of a tile grid, movement, melee and the text that
//! reports them.
//!
//! Every function is verified against the contract it states, but for
//! the two draws of chance in [`dice`], whose contracts are taken on
//! trust. Drawing, sound and input are left to the program that hosts
//! the rules.

pub mod command;
pub mod components;
pub mod dice;
pub mod entities;
pub mod light;
pub mod palette;
pub mod screen;
pub mod systems;
pub mod terrain;
pub mod text;
pub mod time;
pub mod world;
