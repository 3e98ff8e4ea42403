//! The state machine that lets the user write a prompt in an outside editor.

use crate::domain::models::{
    AuthorView, Event, EventView, Message, MessageType, MessageView,
};
use crate::domain::services::edit_prompt::error_event;
use crate::domain::services::prompt_file::{
    file_content, lemma_fresh_file_is_empty, parse_prompt_file, prompt_region,
    temp_file_content,
};
use vstd::prelude::*;

verus! {

/// The operation on the prompt file that failed.
#[derive(Clone, Copy, Debug, PartialEq, Eq)]
pub enum FileOperation {
    Create,
    Read,
}

/// Why a protocol error was raised.
#[derive(Clone, Copy, Debug, PartialEq, Eq)]
pub enum Violation {
    /// An edit was asked for while one is under way.
    EditInProgress,
    /// The session has no transition for the event in the state it is in.
    UnexpectedEvent,
}

/// What can go wrong while a prompt is edited.
#[derive(Clone, Copy, Debug, PartialEq, Eq)]
pub enum EditPromptError {
    /// The prompt file could not be created, written or read.
    Io(FileOperation),
    /// The configured editor is not a known one.
    Configuration,
    /// The editor did not start, or ended abnormally.
    Launch,
    /// The prompt file could not be watched.
    Watch,
    /// An event came in a state that has no transition for it.
    Protocol(Violation),
}

/// An event of the state machine.
#[derive(Clone, Debug, PartialEq, Eq)]
pub enum EditPromptEvent {
    /// The user asks to edit a prompt; the event carries the transcript.
    Begin(Vec<Message>),
    /// The interface has been drawn once since the edit was asked for.
    RenderTickElapsed,
    /// The prompt file holds a prompt.
    PromptReady(String),
    /// The user gives the edit up.
    Cancel,
    /// Something went wrong outside the state machine.
    Failure(EditPromptError),
}

/// An event of the state machine, with its texts as sequences of characters.
pub enum EditPromptEventView {
    Begin(Seq<MessageView>),
    RenderTickElapsed,
    PromptReady(Seq<char>),
    Cancel,
    Failure(EditPromptError),
}

impl View for EditPromptEvent {
    type V = EditPromptEventView;

    open spec fn view(&self) -> EditPromptEventView {
        match self {
            EditPromptEvent::Begin(transcript) => EditPromptEventView::Begin(
                transcript.deep_view(),
            ),
            EditPromptEvent::RenderTickElapsed => EditPromptEventView::RenderTickElapsed,
            EditPromptEvent::PromptReady(text) => EditPromptEventView::PromptReady(text@),
            EditPromptEvent::Cancel => EditPromptEventView::Cancel,
            EditPromptEvent::Failure(error) => EditPromptEventView::Failure(*error),
        }
    }
}

impl EditPromptError {
    /// The message that tells the user of the failure: it names the operation that
    /// failed.
    pub open spec fn notice(self) -> Seq<char> {
        match self {
            EditPromptError::Io(FileOperation::Create) => "could not create temp file"@,
            EditPromptError::Io(FileOperation::Read) => "could not parse prompt file"@,
            EditPromptError::Configuration => "could not launch editor"@,
            EditPromptError::Launch => "could not launch editor"@,
            EditPromptError::Watch => "could not create file watcher"@,
            EditPromptError::Protocol(Violation::EditInProgress) => "edit already in progress"@,
            EditPromptError::Protocol(Violation::UnexpectedEvent) =>
                "unexpected edit prompt event"@,
        }
    }

    /// The message that tells the user of the failure.
    pub fn message(&self) -> (text: &'static str)
        ensures
            text@ == self.notice(),
    {
        match self {
            EditPromptError::Io(FileOperation::Create) => "could not create temp file",
            EditPromptError::Io(FileOperation::Read) => "could not parse prompt file",
            EditPromptError::Configuration => "could not launch editor",
            EditPromptError::Launch => "could not launch editor",
            EditPromptError::Watch => "could not create file watcher",
            EditPromptError::Protocol(Violation::EditInProgress) => "edit already in progress",
            EditPromptError::Protocol(Violation::UnexpectedEvent) =>
                "unexpected edit prompt event",
        }
    }
}

/// The event that shows `text` to the user as an error: a message of the application
/// itself, of error type.
pub open spec fn error_notice(text: Seq<char>) -> EventView {
    EventView::EditPromptMessage(
        MessageView { author: AuthorView::Oatmeal, text, mtype: MessageType::Error },
    )
}

/// What running the editor on the prompt file came to: a step failed, or the editor
/// returned and the file was read back.
#[derive(Clone, Debug, PartialEq, Eq)]
pub enum EditorRun {
    Failed(EditPromptError),
    Returned(String),
}

/// A run of the editor, with what the file holds as a sequence of characters.
pub enum EditorRunView {
    Failed(EditPromptError),
    Returned(Seq<char>),
}

impl View for EditorRun {
    type V = EditorRunView;

    open spec fn view(&self) -> EditorRunView {
        match self {
            EditorRun::Failed(error) => EditorRunView::Failed(*error),
            EditorRun::Returned(content) => EditorRunView::Returned(content@),
        }
    }
}

/// What the state machine asks of the task that watches the prompt file.
#[derive(Clone, Copy, Debug, PartialEq, Eq)]
pub enum WatchCommand {
    /// Leave things as they are.
    Keep,
    /// Start a task that watches the prompt file.
    Start,
    /// Abort the task that watches the prompt file.
    Abort,
}

/// The state of a session.
#[derive(Debug, PartialEq, Eq)]
pub enum SessionState {
    /// No edit is under way.
    Inactive,
    /// An edit was asked for; the editor starts once the interface has been drawn. The
    /// state holds the transcript.
    AwaitingRenderTick(Vec<Message>),
    /// The editor returned and left the prompt empty; a task watches the prompt file.
    WatchingFile,
}

/// The state of a session, with the transcript as a sequence.
pub enum SessionStateView {
    Inactive,
    AwaitingRenderTick(Seq<MessageView>),
    WatchingFile,
}

impl View for SessionState {
    type V = SessionStateView;

    open spec fn view(&self) -> SessionStateView {
        match self {
            SessionState::Inactive => SessionStateView::Inactive,
            SessionState::AwaitingRenderTick(transcript) => SessionStateView::AwaitingRenderTick(
                transcript.deep_view(),
            ),
            SessionState::WatchingFile => SessionStateView::WatchingFile,
        }
    }
}

/// What the handling of one event asks of the application.
#[derive(Debug, PartialEq, Eq)]
pub struct Outcome {
    /// The events to put on the application's event bus, in this order.
    pub emitted: Vec<Event>,
    /// What to do about the task that watches the prompt file.
    pub watch: WatchCommand,
    /// Whether the event was handled, or which failure was met.
    pub result: Result<(), EditPromptError>,
}

/// An outcome, with its events as a sequence.
pub struct OutcomeView {
    pub emitted: Seq<EventView>,
    pub watch: WatchCommand,
    pub result: Result<(), EditPromptError>,
}

impl View for Outcome {
    type V = OutcomeView;

    open spec fn view(&self) -> OutcomeView {
        OutcomeView { emitted: self.emitted.deep_view(), watch: self.watch, result: self.result }
    }
}

/// One step of the state machine: the state it leads to and what it asks of the
/// application.
pub struct Transition {
    pub next: SessionStateView,
    pub outcome: OutcomeView,
}

/// A failure ends the session: the user is told once, and a watching task is aborted.
pub open spec fn failed(state: SessionStateView, error: EditPromptError) -> Transition {
    Transition {
        next: SessionStateView::Inactive,
        outcome: OutcomeView {
            emitted: seq![error_notice(error.notice())],
            watch: if state is WatchingFile {
                WatchCommand::Abort
            } else {
                WatchCommand::Keep
            },
            result: Err(error),
        },
    }
}

/// An event that the state has no transition for changes nothing: the user is told once.
pub open spec fn rejected(state: SessionStateView, violation: Violation) -> Transition {
    Transition {
        next: state,
        outcome: OutcomeView {
            emitted: seq![error_notice(EditPromptError::Protocol(violation).notice())],
            watch: WatchCommand::Keep,
            result: Err(EditPromptError::Protocol(violation)),
        },
    }
}

/// An edit begins: the session waits for the interface to be drawn once, and puts the
/// event on the bus that will tell it so.
pub open spec fn begun(transcript: Seq<MessageView>) -> Transition {
    Transition {
        next: SessionStateView::AwaitingRenderTick(transcript),
        outcome: OutcomeView {
            emitted: seq![EventView::EditPrompt(EditPromptEventView::RenderTickElapsed)],
            watch: WatchCommand::Keep,
            result: Ok(()),
        },
    }
}

/// The editor returned. A prompt in the file ends the session with that prompt. An empty
/// one means that the editor works on in a window of its own: the file is watched.
pub open spec fn returned(content: Seq<char>) -> Transition {
    if prompt_region(content).len() == 0 {
        Transition {
            next: SessionStateView::WatchingFile,
            outcome: OutcomeView {
                emitted: Seq::empty(),
                watch: WatchCommand::Start,
                result: Ok(()),
            },
        }
    } else {
        Transition {
            next: SessionStateView::Inactive,
            outcome: OutcomeView {
                emitted: seq![EventView::NewPrompt(prompt_region(content))],
                watch: WatchCommand::Keep,
                result: Ok(()),
            },
        }
    }
}

/// The watched file holds a prompt: the session ends with it, and its task is aborted.
pub open spec fn completed(text: Seq<char>) -> Transition {
    Transition {
        next: SessionStateView::Inactive,
        outcome: OutcomeView {
            emitted: seq![EventView::NewPrompt(text)],
            watch: WatchCommand::Abort,
            result: Ok(()),
        },
    }
}

/// The user gives up a watched edit: the session ends, and its task is aborted.
pub open spec fn cancelled() -> Transition {
    Transition {
        next: SessionStateView::Inactive,
        outcome: OutcomeView {
            emitted: Seq::empty(),
            watch: WatchCommand::Abort,
            result: Ok(()),
        },
    }
}

/// The transition table. `launched` is what running the editor came to; it is read only
/// when the awaited render tick elapses.
pub open spec fn transition(
    state: SessionStateView,
    event: EditPromptEventView,
    launched: Option<EditorRunView>,
) -> Transition {
    match event {
        EditPromptEventView::Failure(error) => failed(state, error),
        EditPromptEventView::Begin(transcript) => match state {
            SessionStateView::Inactive => begun(transcript),
            _ => rejected(state, Violation::EditInProgress),
        },
        EditPromptEventView::RenderTickElapsed => match (state, launched) {
            (
                SessionStateView::AwaitingRenderTick(_),
                Some(EditorRunView::Returned(content)),
            ) => returned(content),
            (SessionStateView::AwaitingRenderTick(_), Some(EditorRunView::Failed(error))) => failed(
                state,
                error,
            ),
            _ => rejected(state, Violation::UnexpectedEvent),
        },
        EditPromptEventView::PromptReady(text) => match state {
            SessionStateView::WatchingFile => completed(text),
            _ => rejected(state, Violation::UnexpectedEvent),
        },
        EditPromptEventView::Cancel => match state {
            SessionStateView::WatchingFile => cancelled(),
            _ => rejected(state, Violation::UnexpectedEvent),
        },
    }
}

/// What a run of the editor is in the transition table.
pub open spec fn run_view(launched: Option<EditorRun>) -> Option<EditorRunView> {
    match launched {
        Some(run) => Some(run@),
        None => None,
    }
}

/// The state machine of one session after another.
#[derive(Debug, PartialEq, Eq)]
pub struct Service {
    state: SessionState,
}

impl View for Service {
    type V = SessionStateView;

    closed spec fn view(&self) -> SessionStateView {
        self.state@
    }
}

impl Service {
    /// A state machine with no edit under way.
    pub fn new() -> (service: Service)
        ensures
            service@ is Inactive,
    {
        Service { state: SessionState::Inactive }
    }

    /// Whether an edit is under way.
    pub fn is_active(&self) -> (active: bool)
        ensures
            active == !(self@ is Inactive),
    {
        match self.state {
            SessionState::Inactive => false,
            _ => true,
        }
    }

    /// Whether the prompt file is watched.
    pub fn is_watching(&self) -> (watching: bool)
        ensures
            watching == (self@ is WatchingFile),
    {
        match self.state {
            SessionState::WatchingFile => true,
            _ => false,
        }
    }

    /// What to write to the prompt file before the editor is started: the file of an empty
    /// prompt above the transcript. There is something to write only while the session
    /// waits for the render tick.
    pub fn temp_file_content(&self) -> (content: Option<String>)
        ensures
            match self@ {
                SessionStateView::AwaitingRenderTick(transcript) => content matches Some(text)
                    && text@ == file_content(Seq::empty(), transcript),
                _ => content is None,
            },
    {
        match &self.state {
            SessionState::AwaitingRenderTick(transcript) => {
                proof {
                    reveal_strlit("");
                    assert(""@ == Seq::<char>::empty());
                }
                Some(temp_file_content("", transcript.as_slice()))
            },
            _ => None,
        }
    }

    /// What to write to the prompt file and run the editor on before `event` is handled:
    /// there is something only for the event of the elapsed render tick while the session
    /// waits for it.
    pub fn launch_request(&self, event: &EditPromptEvent) -> (content: Option<String>)
        ensures
            match (self@, event@) {
                (
                    SessionStateView::AwaitingRenderTick(transcript),
                    EditPromptEventView::RenderTickElapsed,
                ) => content matches Some(text) && text@ == file_content(Seq::empty(), transcript),
                _ => content is None,
            },
    {
        match event {
            EditPromptEvent::RenderTickElapsed => self.temp_file_content(),
            _ => None,
        }
    }

    /// Handles one event, as the transition table says. `launched` is what running the
    /// editor on the prompt file came to, for the event of the elapsed render tick.
    pub fn handle_event(&mut self, event: EditPromptEvent, launched: Option<EditorRun>) -> (outcome:
        Outcome)
        ensures
            final(self)@ == transition(old(self)@, event@, run_view(launched)).next,
            outcome@ == transition(old(self)@, event@, run_view(launched)).outcome,
    {
        let mut state = SessionState::Inactive;
        std::mem::swap(&mut self.state, &mut state);
        match event {
            EditPromptEvent::Failure(error) => {
                let watching = match state {
                    SessionState::WatchingFile => true,
                    _ => false,
                };
                fail(error, watching)
            },
            EditPromptEvent::Begin(transcript) => match state {
                SessionState::Inactive => {
                    self.state = SessionState::AwaitingRenderTick(transcript);
                    let emitted = vec![Event::EditPrompt(EditPromptEvent::RenderTickElapsed)];
                    assert(emitted.deep_view() == seq![
                        EventView::EditPrompt(EditPromptEventView::RenderTickElapsed),
                    ]);
                    Outcome { emitted, watch: WatchCommand::Keep, result: Ok(()) }
                },
                _ => {
                    self.state = state;
                    reject(Violation::EditInProgress)
                },
            },
            EditPromptEvent::RenderTickElapsed => match (state, launched) {
                (SessionState::AwaitingRenderTick(_), Some(EditorRun::Returned(content))) => {
                    let prompt = parse_prompt_file(content.as_str());
                    if prompt.as_str().is_empty() {
                        self.state = SessionState::WatchingFile;
                        let emitted: Vec<Event> = Vec::new();
                        assert(emitted.deep_view() == Seq::<EventView>::empty());
                        Outcome { emitted, watch: WatchCommand::Start, result: Ok(()) }
                    } else {
                        let emitted = vec![Event::NewPrompt(prompt)];
                        assert(emitted.deep_view() == seq![
                            EventView::NewPrompt(prompt_region(content@)),
                        ]);
                        Outcome { emitted, watch: WatchCommand::Keep, result: Ok(()) }
                    }
                },
                (SessionState::AwaitingRenderTick(_), Some(EditorRun::Failed(error))) => fail(
                    error,
                    false,
                ),
                (state, _) => {
                    self.state = state;
                    reject(Violation::UnexpectedEvent)
                },
            },
            EditPromptEvent::PromptReady(text) => match state {
                SessionState::WatchingFile => {
                    let ghost shown = text@;
                    let emitted = vec![Event::NewPrompt(text)];
                    assert(emitted.deep_view() == seq![EventView::NewPrompt(shown)]);
                    Outcome { emitted, watch: WatchCommand::Abort, result: Ok(()) }
                },
                _ => {
                    self.state = state;
                    reject(Violation::UnexpectedEvent)
                },
            },
            EditPromptEvent::Cancel => match state {
                SessionState::WatchingFile => {
                    let emitted: Vec<Event> = Vec::new();
                    assert(emitted.deep_view() == Seq::<EventView>::empty());
                    Outcome { emitted, watch: WatchCommand::Abort, result: Ok(()) }
                },
                _ => {
                    self.state = state;
                    reject(Violation::UnexpectedEvent)
                },
            },
        }
    }
}

/// The outcome of a failure.
fn fail(error: EditPromptError, watching: bool) -> (outcome: Outcome)
    ensures
        outcome@ == (OutcomeView {
            emitted: seq![error_notice(error.notice())],
            watch: if watching {
                WatchCommand::Abort
            } else {
                WatchCommand::Keep
            },
            result: Err(error),
        }),
{
    let emitted = vec![error_event(error.message())];
    assert(emitted.deep_view() == seq![error_notice(error.notice())]);
    let watch = if watching {
        WatchCommand::Abort
    } else {
        WatchCommand::Keep
    };
    Outcome { emitted, watch, result: Err(error) }
}

/// The outcome of an event that the state has no transition for.
fn reject(violation: Violation) -> (outcome: Outcome)
    ensures
        outcome@ == (OutcomeView {
            emitted: seq![error_notice(EditPromptError::Protocol(violation).notice())],
            watch: WatchCommand::Keep,
            result: Err(EditPromptError::Protocol(violation)),
        }),
{
    fail(EditPromptError::Protocol(violation), false)
}

/// What the task that watches the prompt file was told of.
#[derive(Clone, Debug, PartialEq, Eq)]
pub enum FileNotification {
    /// The file was opened or read: what it holds is as before.
    Access,
    /// The file may hold something new; it was read, and this is what it holds.
    Changed(String),
    /// The file may hold something new, and could not be read.
    Unreadable,
    /// The watch could not be set up, or broke.
    WatchFailed,
}

/// A notification, with what the file holds as a sequence of characters.
pub enum FileNotificationView {
    Access,
    Changed(Seq<char>),
    Unreadable,
    WatchFailed,
}

impl View for FileNotification {
    type V = FileNotificationView;

    open spec fn view(&self) -> FileNotificationView {
        match self {
            FileNotification::Access => FileNotificationView::Access,
            FileNotification::Changed(content) => FileNotificationView::Changed(content@),
            FileNotification::Unreadable => FileNotificationView::Unreadable,
            FileNotification::WatchFailed => FileNotificationView::WatchFailed,
        }
    }
}

/// The event that a notification gives rise to, if any. A file that holds a prompt is
/// ready; one whose prompt is empty is still being edited. An access is passed over.
pub open spec fn notified(notification: FileNotificationView) -> Option<EditPromptEventView> {
    match notification {
        FileNotificationView::Access => None,
        FileNotificationView::Changed(content) => if prompt_region(content).len() == 0 {
            None
        } else {
            Some(EditPromptEventView::PromptReady(prompt_region(content)))
        },
        FileNotificationView::Unreadable => Some(
            EditPromptEventView::Failure(EditPromptError::Io(FileOperation::Read)),
        ),
        FileNotificationView::WatchFailed => Some(
            EditPromptEventView::Failure(EditPromptError::Watch),
        ),
    }
}

/// What the watching task does after a notification.
#[derive(Debug, PartialEq, Eq)]
pub struct WatchStep {
    /// The event to put on the bus, if any.
    pub event: Option<EditPromptEvent>,
    /// Whether the task watches on. It does until it has raised an event: each of its
    /// events ends the session.
    pub goes_on: bool,
}

/// Decides what the watching task does after a notification: which event it puts on the
/// bus, if any, and whether it watches on.
pub fn on_notification(notification: FileNotification) -> (step: WatchStep)
    ensures
        match step.event {
            Some(event) => notified(notification@) == Some(event@),
            None => notified(notification@) is None,
        },
        step.goes_on == (notified(notification@) is None),
{
    let event = match notification {
        FileNotification::Access => None,
        FileNotification::Changed(content) => {
            let prompt = parse_prompt_file(content.as_str());
            if prompt.as_str().is_empty() {
                None
            } else {
                Some(EditPromptEvent::PromptReady(prompt))
            }
        },
        FileNotification::Unreadable => Some(
            EditPromptEvent::Failure(EditPromptError::Io(FileOperation::Read)),
        ),
        FileNotification::WatchFailed => Some(EditPromptEvent::Failure(EditPromptError::Watch)),
    };
    let goes_on = event.is_none();
    WatchStep { event, goes_on }
}

/// Every event that the watching task raises ends the watched session, and the session
/// asks that the task be aborted: the task has no more to do once it has raised one.
pub proof fn lemma_watch_ends_with_its_event(
    notification: FileNotificationView,
    launched: Option<EditorRunView>,
)
    requires
        notified(notification) is Some,
    ensures
        ({
            let step = transition(
                SessionStateView::WatchingFile,
                notified(notification)->0,
                launched,
            );
            &&& step.next is Inactive
            &&& step.outcome.watch is Abort
        }),
{
}

/// Whether a task watches the prompt file once the application has done what `command`
/// asks, given whether one did before.
pub open spec fn watching_after(before: bool, command: WatchCommand) -> bool {
    match command {
        WatchCommand::Keep => before,
        WatchCommand::Start => true,
        WatchCommand::Abort => false,
    }
}

/// When the editor returns and the file is as it was written, the session goes on to
/// watch the file: it emits nothing and asks for the watching task. While the file stays
/// so, no notification gives rise to an event; and only a ready prompt, a cancellation or
/// a failure takes a watching session out of its state.
pub proof fn lemma_unmodified_file_waits(
    transcript: Seq<MessageView>,
    event: EditPromptEventView,
    launched: Option<EditorRunView>,
)
    ensures
        ({
            let content = file_content(Seq::empty(), transcript);
            let step = transition(
                SessionStateView::AwaitingRenderTick(transcript),
                EditPromptEventView::RenderTickElapsed,
                Some(EditorRunView::Returned(content)),
            );
            &&& step.next is WatchingFile
            &&& step.outcome.emitted.len() == 0
            &&& step.outcome.watch is Start
            &&& step.outcome.result is Ok
            &&& notified(FileNotificationView::Changed(content)) is None
        }),
        !(event is PromptReady || event is Cancel || event is Failure) ==> transition(
            SessionStateView::WatchingFile,
            event,
            launched,
        ).next is WatchingFile,
{
    lemma_fresh_file_is_empty(transcript);
}

/// When the editor returns and the file holds a prompt, the session ends: it emits the
/// prompt, once and nothing else, and asks for no watching task.
pub proof fn lemma_modified_file_completes(transcript: Seq<MessageView>, content: Seq<char>)
    requires
        prompt_region(content).len() > 0,
    ensures
        ({
            let step = transition(
                SessionStateView::AwaitingRenderTick(transcript),
                EditPromptEventView::RenderTickElapsed,
                Some(EditorRunView::Returned(content)),
            );
            &&& step.next is Inactive
            &&& step.outcome.emitted == seq![EventView::NewPrompt(prompt_region(content))]
            &&& step.outcome.watch is Keep
            &&& step.outcome.result is Ok
        }),
{
}

/// While the file is watched, a notification of a change that left a prompt in the file
/// gives rise to one event, and that event ends the session: the session emits the
/// prompt, once and nothing else, and asks that the watching task be aborted. A
/// notification of an access gives rise to no event, so the session watches on.
pub proof fn lemma_watch_then_edit(content: Seq<char>, launched: Option<EditorRunView>)
    requires
        prompt_region(content).len() > 0,
    ensures
        notified(FileNotificationView::Changed(content)) == Some(
            EditPromptEventView::PromptReady(prompt_region(content)),
        ),
        ({
            let step = transition(
                SessionStateView::WatchingFile,
                EditPromptEventView::PromptReady(prompt_region(content)),
                launched,
            );
            &&& step.next is Inactive
            &&& step.outcome.emitted == seq![EventView::NewPrompt(prompt_region(content))]
            &&& step.outcome.watch is Abort
            &&& step.outcome.result is Ok
        }),
        notified(FileNotificationView::Access) is None,
{
}

/// A cancellation while the file is watched ends the session and asks that the watching
/// task be aborted. A cancellation with no edit under way is a protocol error that
/// changes nothing: the session stays inactive, and no task is touched. So a second
/// cancellation leaves the state that the first one led to.
pub proof fn lemma_cancel(launched: Option<EditorRunView>)
    ensures
        ({
            let step = transition(
                SessionStateView::WatchingFile,
                EditPromptEventView::Cancel,
                launched,
            );
            &&& step.next is Inactive
            &&& step.outcome.emitted.len() == 0
            &&& step.outcome.watch is Abort
            &&& step.outcome.result is Ok
        }),
        ({
            let step = transition(
                SessionStateView::Inactive,
                EditPromptEventView::Cancel,
                launched,
            );
            &&& step.next is Inactive
            &&& step.outcome.watch is Keep
            &&& step.outcome.result == Err::<(), EditPromptError>(
                EditPromptError::Protocol(Violation::UnexpectedEvent),
            )
        }),
{
}

/// A failure ends the session and tells the user once, in whatever state it comes: as an
/// event, as the failure to watch the file is, or as the failure of a step of running the
/// editor. No task is asked for, and a watching one is aborted.
pub proof fn lemma_failure_ends_session(
    state: SessionStateView,
    error: EditPromptError,
    launched: Option<EditorRunView>,
)
    ensures
        ({
            let step = transition(state, EditPromptEventView::Failure(error), launched);
            &&& step.next is Inactive
            &&& step.outcome.emitted == seq![error_notice(error.notice())]
            &&& step.outcome.watch == if state is WatchingFile {
                WatchCommand::Abort
            } else {
                WatchCommand::Keep
            }
            &&& step.outcome.result == Err::<(), EditPromptError>(error)
        }),
        state is AwaitingRenderTick ==> ({
            let step = transition(
                state,
                EditPromptEventView::RenderTickElapsed,
                Some(EditorRunView::Failed(error)),
            );
            &&& step.next is Inactive
            &&& step.outcome.emitted == seq![error_notice(error.notice())]
            &&& step.outcome.watch is Keep
            &&& step.outcome.result == Err::<(), EditPromptError>(error)
        }),
{
}

/// A task watches the prompt file exactly while the session is in the watching state:
/// if that holds before an event, it holds after the application has done what the
/// outcome asks.
pub proof fn lemma_watch_follows_state(
    state: SessionStateView,
    event: EditPromptEventView,
    launched: Option<EditorRunView>,
)
    ensures
        watching_after(state is WatchingFile, transition(state, event, launched).outcome.watch)
            == (transition(state, event, launched).next is WatchingFile),
{
}

/// Every failure is told to the user exactly once: an outcome that reports a failure
/// emits the one event that shows its message, and a successful one emits no such event.
pub proof fn lemma_failure_is_told_once(
    state: SessionStateView,
    event: EditPromptEventView,
    launched: Option<EditorRunView>,
)
    ensures
        match transition(state, event, launched).outcome.result {
            Err(error) => transition(state, event, launched).outcome.emitted == seq![
                error_notice(error.notice()),
            ],
            Ok(_) => forall|i: int|
                0 <= i < transition(state, event, launched).outcome.emitted.len()
                    ==> !(#[trigger] transition(state, event, launched).outcome.emitted[i]
                    is EditPromptMessage),
        },
{
}

/// The application is told of a finished edit once: a step that emits a prompt emits
/// nothing else, starts from an edit under way and ends the session.
pub proof fn lemma_prompt_is_told_once(
    state: SessionStateView,
    event: EditPromptEventView,
    launched: Option<EditorRunView>,
    i: int,
)
    requires
        0 <= i < transition(state, event, launched).outcome.emitted.len(),
        transition(state, event, launched).outcome.emitted[i] is NewPrompt,
    ensures
        transition(state, event, launched).outcome.emitted.len() == 1,
        !(state is Inactive),
        transition(state, event, launched).next is Inactive,
{
}

} // verus!
