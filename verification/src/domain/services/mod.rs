//! The services of the chat client.

pub mod edit_prompt;
pub mod edit_prompt_service;
pub mod prompt_file;

pub use edit_prompt_service::Service as EditPromptService;
