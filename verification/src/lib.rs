//! Cyber Jum: the game logic of a small Game Boy Advance game, verified.
//!
//! A top-down overworld (walk up the forest road) is gated by five
//! challengers, each guarding a side-on "Cyber Jump" platformer level.
//! Every scene is a state machine that takes one frame's input and
//! returns what the frame should draw, play and store; the hardware side
//! (graphics, mixer, SRAM) lives outside this crate.
pub mod fixed;
pub mod input;
pub mod audio;
pub mod platformer;
pub mod levels;
pub mod world_map;
pub mod save;
pub mod text;
pub mod overworld;
pub mod title;
pub mod game;
pub mod shipped;
