//! The events of the application's event bus.

use crate::domain::models::backend_response::{BackendResponse, BackendResponseView};
use crate::domain::models::message::{Message, MessageView};
use crate::domain::services::edit_prompt_service::{EditPromptEvent, EditPromptEventView};
use tui_textarea::Input;
use vstd::prelude::*;

verus! {

/// `tui_textarea::Input`, a key press with its modifiers. Events carry it through
/// unread.
#[verifier::external_type_specification]
#[verifier::external_body]
pub struct ExInput(Input);

/// An event of the application: a key press, a tick of the interface, a message of a
/// backend, or a step of the editing of a prompt in an outside editor.
#[derive(Debug, PartialEq, Eq)]
pub enum Event {
    BackendMessage(Message),
    BackendPromptResponse(BackendResponse),
    EditPrompt(EditPromptEvent),
    EditPromptMessage(Message),
    KeyboardCharInput(Input),
    KeyboardCTRLC(),
    KeyboardCTRLO(),
    KeyboardCTRLR(),
    KeyboardEnter(),
    KeyboardPaste(String),
    NewPrompt(String),
    UITick(),
    UIScrollDown(),
    UIScrollUp(),
    UIScrollPageDown(),
    UIScrollPageUp(),
}

/// An event, with its texts as sequences of characters.
pub enum EventView {
    BackendMessage(MessageView),
    BackendPromptResponse(BackendResponseView),
    EditPrompt(EditPromptEventView),
    EditPromptMessage(MessageView),
    KeyboardCharInput(Input),
    KeyboardCTRLC,
    KeyboardCTRLO,
    KeyboardCTRLR,
    KeyboardEnter,
    KeyboardPaste(Seq<char>),
    NewPrompt(Seq<char>),
    UITick,
    UIScrollDown,
    UIScrollUp,
    UIScrollPageDown,
    UIScrollPageUp,
}

impl View for Event {
    type V = EventView;

    open spec fn view(&self) -> EventView {
        match self {
            Event::BackendMessage(message) => EventView::BackendMessage(message@),
            Event::BackendPromptResponse(response) => EventView::BackendPromptResponse(response@),
            Event::EditPrompt(event) => EventView::EditPrompt(event@),
            Event::EditPromptMessage(message) => EventView::EditPromptMessage(message@),
            Event::KeyboardCharInput(input) => EventView::KeyboardCharInput(*input),
            Event::KeyboardCTRLC() => EventView::KeyboardCTRLC,
            Event::KeyboardCTRLO() => EventView::KeyboardCTRLO,
            Event::KeyboardCTRLR() => EventView::KeyboardCTRLR,
            Event::KeyboardEnter() => EventView::KeyboardEnter,
            Event::KeyboardPaste(text) => EventView::KeyboardPaste(text@),
            Event::NewPrompt(text) => EventView::NewPrompt(text@),
            Event::UITick() => EventView::UITick,
            Event::UIScrollDown() => EventView::UIScrollDown,
            Event::UIScrollUp() => EventView::UIScrollUp,
            Event::UIScrollPageDown() => EventView::UIScrollPageDown,
            Event::UIScrollPageUp() => EventView::UIScrollPageUp,
        }
    }
}

impl DeepView for Event {
    type V = EventView;

    open spec fn deep_view(&self) -> EventView {
        self@
    }
}

} // verus!
