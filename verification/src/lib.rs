//! The verified core of a chat client for the terminal.
//!
//! The client lets its user write a prompt in an editor of the user's own choice. Some
//! editors hold the terminal until the user leaves them; others open a window and return
//! at once. The services in `domain::services` decide, from what the prompt file holds,
//! which of the two has happened and when the prompt is ready. They touch no file, no
//! process and no channel: they are told what happened and say what to do next.
//!
//! - `domain::models`: messages, events and slash commands.
//! - `domain::services::prompt_file`: what the prompt file holds and how it is read.
//! - `domain::services::edit_prompt`: an edit as a value that moves from phase to phase.
//! - `domain::services::edit_prompt_service`: an edit as a state machine fed with events.
//! - `text`: lines, words and white space.

pub mod domain;
pub mod text;
