//! The values that pass between the parts of the chat client.

mod backend_response;
mod event;
mod message;
mod slash_commands;

pub use crate::domain::services::edit_prompt_service::{EditPromptEvent, EditPromptEventView};
pub use backend_response::{BackendResponse, BackendResponseView};
pub use event::{Event, EventView};
pub use message::{Author, AuthorView, Message, MessageType, MessageView};
pub use slash_commands::{SlashCommand, SlashCommandView};
