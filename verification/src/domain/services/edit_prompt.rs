//! Editing a prompt in an outside editor, phase by phase: each phase is a type of its
//! own, and a step from one phase to the next is a call that takes the service by value.
//!
//! The service does not touch a file or an editor. It says what to write to the prompt
//! file, and it is told what the editor left there.

use crate::domain::models::{Author, Event, EventView, Message, MessageType, MessageView};
use crate::domain::services::edit_prompt_service::{
    error_notice, EditPromptError, EditorRun, EditorRunView, FileOperation,
};
use crate::domain::services::prompt_file::{
    file_content, parse_prompt_file, prompt_region, temp_file_content,
};
use vstd::prelude::*;

verus! {

/// A phase of the service.
pub trait State {}

/// The service in the phase `S`.
pub struct TypestateService<S: State> {
    state: S,
}

/// The service while the file is open in an editor that did not wait for the user.
pub type ActiveService = TypestateService<Parseable>;

/// Nothing is known yet.
pub struct Buildable {}

/// The prompt to start from and the transcript are known.
pub struct Startable<'a> {
    prompt: &'a str,
    messages: &'a [Message],
}

/// What to write to the prompt file is settled; the editor has not returned yet.
pub struct Launchable {
    content: String,
    original_prompt: String,
}

/// The editor has returned; the file may change at any time.
pub struct Parseable {
    original_prompt: String,
}

impl State for Buildable {}

impl State for Startable<'_> {}

impl State for Launchable {}

impl State for Parseable {}

/// What the service knows before it starts.
pub struct StartableView {
    pub prompt: Seq<char>,
    pub messages: Seq<MessageView>,
}

impl<'a> View for TypestateService<Startable<'a>> {
    type V = StartableView;

    closed spec fn view(&self) -> StartableView {
        StartableView { prompt: self.state.prompt@, messages: self.state.messages.deep_view() }
    }
}

/// What the service knows while the editor runs.
pub struct LaunchableView {
    /// What the prompt file is written with.
    pub content: Seq<char>,
    /// The prompt that the file holds as it is written: what is read back from it while
    /// nobody has changed it.
    pub original_prompt: Seq<char>,
}

impl View for TypestateService<Launchable> {
    type V = LaunchableView;

    closed spec fn view(&self) -> LaunchableView {
        LaunchableView {
            content: self.state.content@,
            original_prompt: self.state.original_prompt@,
        }
    }
}

impl View for TypestateService<Parseable> {
    type V = Seq<char>;

    /// The prompt that the file held when it was written.
    closed spec fn view(&self) -> Seq<char> {
        self.state.original_prompt@
    }
}

impl<S: State> TypestateService<S> {
    /// A service in its first phase.
    pub fn build() -> TypestateService<Buildable> {
        TypestateService { state: Buildable {} }
    }
}

impl TypestateService<Buildable> {
    /// Sets the prompt to start from. The transcript is empty.
    pub fn prompt<'a>(self, prompt: &'a str) -> (service: TypestateService<Startable<'a>>)
        ensures
            service@ == (StartableView { prompt: prompt@, messages: Seq::empty() }),
    {
        let service = TypestateService { state: Startable { prompt, messages: &[] } };
        assert(service@.messages == Seq::<MessageView>::empty());
        service
    }

    /// Sets the transcript. The prompt to start from is empty.
    pub fn messages<'a>(self, messages: &'a [Message]) -> (service: TypestateService<
        Startable<'a>,
    >)
        ensures
            service@ == (StartableView { prompt: Seq::empty(), messages: messages.deep_view() }),
    {
        proof {
            reveal_strlit("");
            assert(""@ == Seq::<char>::empty());
        }
        TypestateService { state: Startable { prompt: "", messages } }
    }
}

/// What the return of the editor, a change of the file, or the end of the edit at the
/// user's word leads to: the prompt that the service goes on with, if the edit goes on,
/// and the event to put on the application's event bus, if there is one. `initial` is the
/// prompt that the file held when it was written; the edit can go on only where `goes_on`
/// allows it.
pub open spec fn edit_step(
    initial: Seq<char>,
    run: EditorRunView,
    goes_on: bool,
) -> (Option<Seq<char>>, Option<EventView>) {
    match run {
        EditorRunView::Failed(error) => (None, Some(error_notice(error.notice()))),
        EditorRunView::Returned(content) => if prompt_region(content) == initial {
            (
                if goes_on {
                    Some(initial)
                } else {
                    None
                },
                None,
            )
        } else {
            (None, Some(EventView::NewPrompt(prompt_region(content))))
        },
    }
}

/// When the editor returns and the file is as it was written, the edit goes on and
/// nothing is put on the bus, whatever the prompt and the transcript.
pub proof fn lemma_unmodified_file_goes_on(prompt: Seq<char>, messages: Seq<MessageView>)
    ensures
        edit_step(
            prompt_region(file_content(prompt, messages)),
            EditorRunView::Returned(file_content(prompt, messages)),
            true,
        ) == (Some(prompt_region(file_content(prompt, messages))), None::<EventView>),
{
}

/// While the edit goes on, a file whose prompt is as it was written leaves the edit going
/// on with nothing put on the bus; a file whose prompt differs ends the edit, and the new
/// prompt is put on the bus, once and nothing else.
pub proof fn lemma_file_read_again(initial: Seq<char>, content: Seq<char>)
    ensures
        prompt_region(content) == initial ==> edit_step(
            initial,
            EditorRunView::Returned(content),
            true,
        ) == (Some(initial), None::<EventView>),
        prompt_region(content) != initial ==> edit_step(
            initial,
            EditorRunView::Returned(content),
            true,
        ) == (None::<Seq<char>>, Some(EventView::NewPrompt(prompt_region(content)))),
{
}

/// The views of a service that may go on and of an event that may be there.
pub open spec fn step_view(step: (Option<ActiveService>, Option<Event>)) -> (
    Option<Seq<char>>,
    Option<EventView>,
) {
    (
        match step.0 {
            Some(service) => Some(service@),
            None => None,
        },
        match step.1 {
            Some(event) => Some(event@),
            None => None,
        },
    )
}

impl<'a> TypestateService<Startable<'a>> {
    /// Sets the prompt to start from.
    pub fn prompt(self, prompt: &'a str) -> (service: TypestateService<Startable<'a>>)
        ensures
            service@ == (StartableView { prompt: prompt@, messages: self@.messages }),
    {
        TypestateService { state: Startable { prompt, messages: self.state.messages } }
    }

    /// Sets the transcript.
    pub fn messages(self, messages: &'a [Message]) -> (service: TypestateService<Startable<'a>>)
        ensures
            service@ == (StartableView { prompt: self@.prompt, messages: messages.deep_view() }),
    {
        TypestateService { state: Startable { prompt: self.state.prompt, messages } }
    }

    /// Starts the edit: settles what the prompt file is written with, the prompt above the
    /// transcript, and which prompt is read back from the file as long as it is unchanged.
    pub fn start(self) -> (service: TypestateService<Launchable>)
        ensures
            service@ == (LaunchableView {
                content: file_content(self@.prompt, self@.messages),
                original_prompt: prompt_region(file_content(self@.prompt, self@.messages)),
            }),
    {
        let content = temp_file_content(self.state.prompt, self.state.messages);
        let original_prompt = parse_prompt_file(content.as_str());
        TypestateService { state: Launchable { content, original_prompt } }
    }
}

impl TypestateService<Launchable> {
    /// What to write to the prompt file before the editor is started on it.
    pub fn temp_file_content(&self) -> (content: &str)
        ensures
            content@ == self@.content,
    {
        self.state.content.as_str()
    }

    /// Goes on once the editor has returned, given what running it on the prompt file
    /// came to. A failed step ends the edit with a message for the user. A prompt that
    /// differs from the one the file held when it was written ends it with the new
    /// prompt: the editor waited for the user. Otherwise the edit goes on: the editor
    /// works in a window of its own.
    pub fn launch(self, launched: EditorRun) -> (step: (Option<ActiveService>, Option<Event>))
        ensures
            step_view(step) == edit_step(self@.original_prompt, launched@, true),
    {
        match launched {
            EditorRun::Failed(error) => (None, Some(error_event(error.message()))),
            EditorRun::Returned(content) => {
                let parseable = TypestateService {
                    state: Parseable { original_prompt: self.state.original_prompt },
                };
                parseable.parse(content.as_str())
            },
        }
    }
}

impl TypestateService<Parseable> {
    /// Reads the prompt from what the file holds, as after a change of the file. An
    /// unchanged prompt means that the user is still at it: the edit goes on. A changed
    /// one ends the edit and is handed on.
    pub fn parse(self, content: &str) -> (step: (Option<ActiveService>, Option<Event>))
        ensures
            step_view(step) == edit_step(self@, EditorRunView::Returned(content@), true),
    {
        let prompt = parse_prompt_file(content);
        if prompt == self.state.original_prompt {
            (Some(self), None)
        } else {
            (None, Some(Event::NewPrompt(prompt)))
        }
    }

    /// What to show the user while the edit goes on.
    pub fn widget(&self) -> (notice: Notice)
        ensures
            notice@ == waiting_notice(),
    {
        Notice {
            text: String::from_str("Waiting for editor, press Enter to continue."),
            border_type: BorderType::Double,
            padding: Padding { left: 1, right: 1, top: 0, bottom: 0 },
            alignment: Alignment::Center,
        }
    }

    /// Ends the edit at the user's word, given what the prompt file holds, or `None` if
    /// it could not be read. A changed prompt is handed on; a file that could not be read
    /// gives a message for the user. The edit never goes on.
    pub fn finish(self, read: Option<&str>) -> (step: (Option<ActiveService>, Option<Event>))
        ensures
            step_view(step) == edit_step(
                self@,
                match read {
                    Some(content) => EditorRunView::Returned(content@),
                    None => EditorRunView::Failed(EditPromptError::Io(FileOperation::Read)),
                },
                false,
            ),
    {
        match read {
            Some(content) => {
                let (_, event) = self.parse(content);
                (None, event)
            },
            None => (
                None,
                Some(error_event(EditPromptError::Io(FileOperation::Read).message())),
            ),
        }
    }
}

/// How a text is set in its box.
#[derive(Clone, Copy, Debug, PartialEq, Eq)]
pub enum Alignment {
    Left,
    Center,
    Right,
}

/// The line that a border is drawn with.
#[derive(Clone, Copy, Debug, PartialEq, Eq)]
pub enum BorderType {
    Plain,
    Rounded,
    Double,
    Thick,
}

/// The empty cells between a border and the text, on each side.
#[derive(Clone, Copy, Debug, PartialEq, Eq)]
pub struct Padding {
    pub left: u16,
    pub right: u16,
    pub top: u16,
    pub bottom: u16,
}

/// A text in a box with a border on all four sides.
#[derive(Clone, Debug, PartialEq, Eq)]
pub struct Notice {
    pub text: String,
    pub border_type: BorderType,
    pub padding: Padding,
    pub alignment: Alignment,
}

/// A notice, with its text as a sequence of characters.
pub struct NoticeView {
    pub text: Seq<char>,
    pub border_type: BorderType,
    pub padding: Padding,
    pub alignment: Alignment,
}

impl View for Notice {
    type V = NoticeView;

    open spec fn view(&self) -> NoticeView {
        NoticeView {
            text: self.text@,
            border_type: self.border_type,
            padding: self.padding,
            alignment: self.alignment,
        }
    }
}

/// What the user is shown while the edit goes on.
pub open spec fn waiting_notice() -> NoticeView {
    NoticeView {
        text: "Waiting for editor, press Enter to continue."@,
        border_type: BorderType::Double,
        padding: Padding { left: 1, right: 1, top: 0, bottom: 0 },
        alignment: Alignment::Center,
    }
}

/// Looks the configured editor up among the known ones, by name, and gives the place of
/// the first that has the name. A name that no known editor has is a configuration error.
pub fn get_editor(name: &str, known: &[String]) -> (editor: Result<usize, EditPromptError>)
    ensures
        match editor {
            Ok(at) => {
                &&& at < known.len()
                &&& known[at as int]@ == name@
                &&& forall|k: int| 0 <= k < at ==> known[k]@ != name@
            },
            Err(error) => {
                &&& error == EditPromptError::Configuration
                &&& forall|k: int| 0 <= k < known.len() ==> known[k]@ != name@
            },
        },
{
    let wanted = String::from_str(name);
    let mut at: usize = 0;
    while at < known.len()
        invariant
            at <= known.len(),
            wanted@ == name@,
            forall|k: int| 0 <= k < at ==> known[k]@ != name@,
        decreases known.len() - at,
    {
        if known[at] == wanted {
            return Ok(at);
        }
        at += 1;
    }
    Err(EditPromptError::Configuration)
}

/// The event that shows `message` to the user as an error.
pub fn error_event(message: &str) -> (event: Event)
    ensures
        event@ == error_notice(message@),
{
    Event::EditPromptMessage(Message::new_with_type(Author::Oatmeal, MessageType::Error, message))
}

} // verus!
