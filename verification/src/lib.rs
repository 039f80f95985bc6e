//! The engine of two games that are played with a narrator at the other end
//! of a chat: an adventure with a character sheet, dice and skill checks, and
//! a game of twenty questions.
//!
//! The narrator owns the story. This library owns everything else: the
//! session and its history, the numbers, the prompts, the order in which
//! things happen, and the way a session gets onto the disk. It reads no key
//! and opens no file or connection; whoever drives it does that, and tells
//! it what happened.
//!
//! - `mechanics`: dice, ability modifiers, proficiency, skill checks.
//! - `roster`, `character`, `creation`: the character sheet and how a new
//!   character is put together.
//! - `history`, `session`: what is kept of a game.
//! - `prompt`, `campaign`: what is sent to the narrator, and what is read
//!   out of the first answer.
//! - `chat`: one exchange with the narrator.
//! - `events`, `controller`: the turn loop of the adventure.
//! - `store`: saving and loading.
//! - `questions`: the game of twenty questions.
//! - `text`: numbers as text, searching, splitting, trimming.

pub mod campaign;
pub mod character;
pub mod chat;
pub mod controller;
pub mod creation;
pub mod events;
pub mod history;
pub mod mechanics;
pub mod prompt;
pub mod questions;
pub mod roster;
pub mod session;
pub mod store;
pub mod text;
