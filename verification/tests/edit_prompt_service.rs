use oatmeal::domain::models::{Author, EditPromptEvent, Event, Message, MessageType};
use oatmeal::domain::services::edit_prompt_service::{
    on_notification, EditPromptError, EditorRun, FileNotification, FileOperation, Outcome,
    Service, Violation, WatchCommand, WatchStep,
};
use oatmeal::domain::services::prompt_file::temp_file_content;
use oatmeal::domain::services::EditPromptService;

fn transcript() -> Vec<Message> {
    vec![
        Message::new(Author::User("alice".to_string()), "hi"),
        Message::new(Author::Model("llama".to_string()), "hey"),
    ]
}

fn error_message(text: &str) -> Event {
    Event::EditPromptMessage(Message::new_with_type(Author::Oatmeal, MessageType::Error, text))
}

fn awaiting() -> Service {
    let mut service = Service::new();
    let outcome = service.handle_event(EditPromptEvent::Begin(transcript()), None);
    assert_eq!(outcome.result, Ok(()));
    service
}

fn watching() -> Service {
    let mut service = awaiting();
    let content = service.temp_file_content().unwrap();
    let outcome = service
        .handle_event(EditPromptEvent::RenderTickElapsed, Some(EditorRun::Returned(content)));
    assert_eq!(outcome.result, Ok(()));
    assert!(service.is_watching());
    service
}

fn failure(error: EditPromptError, text: &str, watch: WatchCommand) -> Outcome {
    Outcome { emitted: vec![error_message(text)], watch, result: Err(error) }
}

#[test]
fn new_service_is_inactive() {
    let service: EditPromptService = Service::new();
    assert!(!service.is_active());
    assert!(!service.is_watching());
    assert_eq!(service.temp_file_content(), None);
}

#[test]
fn begin_waits_for_the_render_tick() {
    let mut service = Service::new();
    let outcome = service.handle_event(EditPromptEvent::Begin(transcript()), None);
    assert_eq!(
        outcome,
        Outcome {
            emitted: vec![Event::EditPrompt(EditPromptEvent::RenderTickElapsed)],
            watch: WatchCommand::Keep,
            result: Ok(()),
        }
    );
    assert!(service.is_active());
    assert!(!service.is_watching());
    assert_eq!(service.temp_file_content(), Some(temp_file_content("", &transcript())));
}

#[test]
fn unmodified_file_leads_to_watching() {
    let mut service = awaiting();
    let content = service.temp_file_content().unwrap();
    let outcome = service
        .handle_event(EditPromptEvent::RenderTickElapsed, Some(EditorRun::Returned(content)));
    assert_eq!(outcome, Outcome { emitted: vec![], watch: WatchCommand::Start, result: Ok(()) });
    assert!(service.is_active());
    assert!(service.is_watching());
    assert_eq!(service.temp_file_content(), None);
}

#[test]
fn unmodified_file_raises_no_event_while_watched() {
    let content = temp_file_content("", &transcript());
    assert_eq!(
        on_notification(FileNotification::Changed(content)),
        WatchStep { event: None, goes_on: true }
    );
}

#[test]
fn modified_file_completes_at_once() {
    let mut service = awaiting();
    let content = format!("what is rust?{}", service.temp_file_content().unwrap());
    let outcome = service
        .handle_event(EditPromptEvent::RenderTickElapsed, Some(EditorRun::Returned(content)));
    assert_eq!(
        outcome,
        Outcome {
            emitted: vec![Event::NewPrompt("what is rust?".to_string())],
            watch: WatchCommand::Keep,
            result: Ok(()),
        }
    );
    assert!(!service.is_active());
}

#[test]
fn file_without_delimiter_completes_with_all_of_it() {
    let mut service = awaiting();
    let outcome = service.handle_event(
        EditPromptEvent::RenderTickElapsed,
        Some(EditorRun::Returned("no delimiter\nleft\n".to_string())),
    );
    assert_eq!(outcome.emitted, vec![Event::NewPrompt("no delimiter\nleft".to_string())]);
    assert!(!service.is_active());
}

#[test]
fn watch_then_edit_completes_once() {
    let mut service = watching();
    let content = format!("edited{}", temp_file_content("", &transcript()));
    let step = on_notification(FileNotification::Changed(content));
    assert!(!step.goes_on);
    let event = step.event.unwrap();
    assert_eq!(event, EditPromptEvent::PromptReady("edited".to_string()));
    let outcome = service.handle_event(event, None);
    assert_eq!(
        outcome,
        Outcome {
            emitted: vec![Event::NewPrompt("edited".to_string())],
            watch: WatchCommand::Abort,
            result: Ok(()),
        }
    );
    assert!(!service.is_active());
}

#[test]
fn access_notification_raises_no_event() {
    let service = watching();
    assert_eq!(
        on_notification(FileNotification::Access),
        WatchStep { event: None, goes_on: true }
    );
    assert!(service.is_watching());
}

#[test]
fn unreadable_file_raises_a_read_failure() {
    assert_eq!(
        on_notification(FileNotification::Unreadable),
        WatchStep {
            event: Some(EditPromptEvent::Failure(EditPromptError::Io(FileOperation::Read))),
            goes_on: false,
        }
    );
}

#[test]
fn failed_watch_raises_a_watch_failure() {
    assert_eq!(
        on_notification(FileNotification::WatchFailed),
        WatchStep {
            event: Some(EditPromptEvent::Failure(EditPromptError::Watch)),
            goes_on: false,
        }
    );
}

#[test]
fn cancel_while_watching_aborts_the_task() {
    let mut service = watching();
    let outcome = service.handle_event(EditPromptEvent::Cancel, None);
    assert_eq!(outcome, Outcome { emitted: vec![], watch: WatchCommand::Abort, result: Ok(()) });
    assert!(!service.is_active());
}

#[test]
fn cancel_while_inactive_is_a_protocol_error_that_changes_nothing() {
    let mut service = watching();
    service.handle_event(EditPromptEvent::Cancel, None);
    for _ in 0..2 {
        let outcome = service.handle_event(EditPromptEvent::Cancel, None);
        assert_eq!(
            outcome,
            failure(
                EditPromptError::Protocol(Violation::UnexpectedEvent),
                "unexpected edit prompt event",
                WatchCommand::Keep
            )
        );
        assert!(!service.is_active());
    }
}

#[test]
fn cancel_while_awaiting_is_a_protocol_error_that_changes_nothing() {
    let mut service = awaiting();
    let outcome = service.handle_event(EditPromptEvent::Cancel, None);
    assert_eq!(outcome.result, Err(EditPromptError::Protocol(Violation::UnexpectedEvent)));
    assert_eq!(outcome.watch, WatchCommand::Keep);
    assert_eq!(service.temp_file_content(), Some(temp_file_content("", &transcript())));
}

#[test]
fn begin_while_an_edit_is_under_way_is_refused() {
    for mut service in [awaiting(), watching()] {
        let was_watching = service.is_watching();
        let outcome = service.handle_event(EditPromptEvent::Begin(vec![]), None);
        assert_eq!(
            outcome,
            failure(
                EditPromptError::Protocol(Violation::EditInProgress),
                "edit already in progress",
                WatchCommand::Keep
            )
        );
        assert!(service.is_active());
        assert_eq!(service.is_watching(), was_watching);
        if !was_watching {
            assert_eq!(service.temp_file_content(), Some(temp_file_content("", &transcript())));
        }
    }
}

#[test]
fn render_tick_without_a_run_of_the_editor_is_refused() {
    let mut service = awaiting();
    let outcome = service.handle_event(EditPromptEvent::RenderTickElapsed, None);
    assert_eq!(outcome.result, Err(EditPromptError::Protocol(Violation::UnexpectedEvent)));
    assert!(service.is_active());
    assert!(!service.is_watching());
}

#[test]
fn render_tick_in_other_states_is_refused() {
    let run = || Some(EditorRun::Returned("prompt".to_string()));
    let mut service = Service::new();
    let outcome = service.handle_event(EditPromptEvent::RenderTickElapsed, run());
    assert_eq!(outcome.result, Err(EditPromptError::Protocol(Violation::UnexpectedEvent)));
    assert_eq!(outcome.emitted, vec![error_message("unexpected edit prompt event")]);
    assert!(!service.is_active());
    let mut service = watching();
    let outcome = service.handle_event(EditPromptEvent::RenderTickElapsed, run());
    assert_eq!(outcome.result, Err(EditPromptError::Protocol(Violation::UnexpectedEvent)));
    assert_eq!(outcome.watch, WatchCommand::Keep);
    assert!(service.is_watching());
}

#[test]
fn prompt_ready_outside_watching_is_refused() {
    for mut service in [Service::new(), awaiting()] {
        let was_active = service.is_active();
        let outcome =
            service.handle_event(EditPromptEvent::PromptReady("p".to_string()), None);
        assert_eq!(
            outcome,
            failure(
                EditPromptError::Protocol(Violation::UnexpectedEvent),
                "unexpected edit prompt event",
                WatchCommand::Keep
            )
        );
        assert_eq!(service.is_active(), was_active);
    }
}

#[test]
fn each_failed_step_ends_the_session_with_one_message() {
    let cases = [
        (EditPromptError::Io(FileOperation::Create), "could not create temp file"),
        (EditPromptError::Configuration, "could not launch editor"),
        (EditPromptError::Launch, "could not launch editor"),
        (EditPromptError::Io(FileOperation::Read), "could not parse prompt file"),
    ];
    for (error, text) in cases {
        let mut service = awaiting();
        let outcome = service
            .handle_event(EditPromptEvent::RenderTickElapsed, Some(EditorRun::Failed(error)));
        assert_eq!(outcome, failure(error, text, WatchCommand::Keep));
        assert!(!service.is_active());
    }
}

#[test]
fn failed_watch_registration_ends_the_session_and_aborts_the_task() {
    let mut service = watching();
    let event = on_notification(FileNotification::WatchFailed).event.unwrap();
    let outcome = service.handle_event(event, None);
    assert_eq!(
        outcome,
        failure(EditPromptError::Watch, "could not create file watcher", WatchCommand::Abort)
    );
    assert!(!service.is_active());
}

#[test]
fn failure_event_ends_the_session_in_every_state() {
    let error = EditPromptError::Io(FileOperation::Read);
    let mut service = Service::new();
    let outcome = service.handle_event(EditPromptEvent::Failure(error), None);
    assert_eq!(outcome, failure(error, "could not parse prompt file", WatchCommand::Keep));
    assert!(!service.is_active());
    let mut service = awaiting();
    let outcome = service.handle_event(EditPromptEvent::Failure(error), None);
    assert_eq!(outcome, failure(error, "could not parse prompt file", WatchCommand::Keep));
    assert!(!service.is_active());
    let mut service = watching();
    let outcome = service.handle_event(EditPromptEvent::Failure(error), None);
    assert_eq!(outcome, failure(error, "could not parse prompt file", WatchCommand::Abort));
    assert!(!service.is_active());
}

#[test]
fn every_error_has_its_message() {
    let cases = [
        (EditPromptError::Io(FileOperation::Create), "could not create temp file"),
        (EditPromptError::Io(FileOperation::Read), "could not parse prompt file"),
        (EditPromptError::Configuration, "could not launch editor"),
        (EditPromptError::Launch, "could not launch editor"),
        (EditPromptError::Watch, "could not create file watcher"),
        (EditPromptError::Protocol(Violation::EditInProgress), "edit already in progress"),
        (EditPromptError::Protocol(Violation::UnexpectedEvent), "unexpected edit prompt event"),
    ];
    for (error, text) in cases {
        assert_eq!(error.message(), text);
    }
}

#[test]
fn session_can_begin_again_after_it_ended() {
    let mut service = watching();
    service.handle_event(EditPromptEvent::Cancel, None);
    let outcome = service.handle_event(EditPromptEvent::Begin(vec![]), None);
    assert_eq!(outcome.result, Ok(()));
    assert_eq!(service.temp_file_content(), Some(temp_file_content("", &[])));
}
