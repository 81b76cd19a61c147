//! The decisions of a library that shows the candidates of an input method in a game.
//!
//! The game draws its screen itself and keeps the notifications of the input method from the
//! system, so that the candidates of the input method are never shown. This library replaces the
//! window procedures of the game's edit controls, reads the candidates and draws them in a window
//! of its own.
//!
//! What is decided stands here; the calls into the system are made elsewhere. Where a decision
//! needs the answer to a call, it is a step of a small machine: its state names the call that is
//! due, and is told the answer. [`calls`] says what those machines have in common that come to an
//! end whatever the system answers; the wait for the game window in [`window`] is the one that can
//! go round.
//!
//! - [`text`], [`candidates`], [`fetch`]: what the input method shows, and how it is read.
//! - [`tsf_sink`]: what the text services report.
//! - [`overlay`], [`draw`], [`window`]: the candidate window, its content and its place.
//! - [`paint`], [`ddraw_hook`]: painting, and the captured picture behind the edit controls.
//! - [`edit_message`], [`game_message`], [`subclass`], [`rescue`]: the window procedures.
//! - [`create_hook`], [`startup`]: the hooks and the start.
//! - [`report`], [`dbg`]: what is reported, and the lines of the log.

pub mod calls;
pub mod candidates;
pub mod create_hook;
pub mod dbg;
pub mod ddraw_hook;
pub mod draw;
pub mod edit_message;
pub mod fetch;
pub mod game_message;
pub mod geometry;
pub mod messages;
pub mod overlay;
pub mod paint;
pub mod report;
pub mod rescue;
pub mod startup;
pub mod subclass;
pub mod text;
pub mod tsf_sink;
pub mod window;
